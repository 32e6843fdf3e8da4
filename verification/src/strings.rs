//! Character-level helpers: splitting, prefixes and decimal numbers.
use vstd::prelude::*;
use vstd::string::StrSliceExecFns;

verus! {

broadcast use vstd::string::group_string_axioms;

/// The characters of `s`, in order.
pub fn chars_of(s: &str) -> (v: Vec<char>)
    ensures
        v@ == s@,
{
    let mut v: Vec<char> = Vec::new();
    for c in it: s.chars()
        invariant
            v@ == it.seq().take(it.index() as int),
            it.seq() == s@,
    {
        v.push(c);
    }
    v
}

/// The characters of a sequence of strings.
pub open spec fn strs_view(v: Seq<&str>) -> Seq<Seq<char>> {
    v.map_values(|x: &str| x@)
}

/// Index of the first `c` in `s` at or after `from`.
pub open spec fn char_index(s: Seq<char>, c: char, from: int) -> Option<int>
    decreases s.len() - from,
{
    if from < 0 || from >= s.len() {
        None
    } else if s[from] == c {
        Some(from)
    } else {
        char_index(s, c, from + 1)
    }
}

/// What `char_index` returns, stated directly.
pub proof fn lemma_char_index(s: Seq<char>, c: char, from: int)
    requires
        0 <= from,
    ensures
        match char_index(s, c, from) {
            Some(i) => from <= i < s.len() && s[i] == c && forall|k: int|
                from <= k < i ==> s[k] != c,
            None => forall|k: int| from <= k < s.len() ==> s[k] != c,
        },
    decreases s.len() - from,
{
    if from < s.len() && s[from] != c {
        lemma_char_index(s, c, from + 1);
    }
}

/// `s` split at its first `c`: where `a` holds no `c`, `a`, `c` and `b` split as `a` and
/// `b`; where `s` holds no `c`, there is no split.
pub proof fn lemma_split_once_char(a: Seq<char>, c: char, b: Seq<char>)
    requires
        forall|k: int| 0 <= k < a.len() ==> a[k] != c,
    ensures
        split_once_char(a + seq![c] + b, c) == Some((a, b)),
        split_once_char(a, c) is None,
{
    let s = a + seq![c] + b;
    lemma_char_index(s, c, 0);
    lemma_char_index(a, c, 0);
    if char_index(s, c, 0) != Some(a.len() as int) {
        assert(s[a.len() as int] == c);
    }
    assert(s.take(a.len() as int) =~= a);
    assert(s.skip(a.len() as int + 1) =~= b);
}

/// Text without `c` splits at `c` into itself alone.
pub proof fn lemma_split_char_single(s: Seq<char>, c: char)
    requires
        forall|k: int| 0 <= k < s.len() ==> s[k] != c,
    ensures
        split_char(s, c) == seq![s],
{
    lemma_char_index(s, c, 0);
    if char_index(s, c, 0) is Some {
        let i = char_index(s, c, 0)->0;
        assert(s[i] == c);
    }
    assert(s.subrange(0, s.len() as int) =~= s);
}

fn find_char(v: &Vec<char>, c: char, from: usize) -> (r: Option<usize>)
    requires
        from <= v@.len(),
    ensures
        match char_index(v@, c, from as int) {
            Some(i) => r == Some(i as usize),
            None => r is None,
        },
        r matches Some(k) ==> from <= k < v@.len(),
{
    let mut i = from;
    while i < v.len()
        invariant
            from <= i <= v@.len(),
            char_index(v@, c, from as int) == char_index(v@, c, i as int),
        decreases v@.len() - i,
    {
        if v[i] == c {
            return Some(i);
        }
        i = i + 1;
    }
    None
}

/// The pieces of `s[from..]` between the occurrences of `c`, as `str::split` gives them.
pub open spec fn split_from(s: Seq<char>, c: char, from: int) -> Seq<Seq<char>>
    decreases s.len() - from,
{
    if from < 0 || from > s.len() {
        Seq::<Seq<char>>::empty()
    } else {
        match char_index(s, c, from) {
            Some(i) => {
                proof {
                    lemma_char_index(s, c, from);
                }
                seq![s.subrange(from, i)] + split_from(s, c, i + 1)
            },
            None => seq![s.subrange(from, s.len() as int)],
        }
    }
}

/// The pieces of `s` between the occurrences of `c`; an empty `s` is one empty piece.
pub open spec fn split_char(s: Seq<char>, c: char) -> Seq<Seq<char>> {
    split_from(s, c, 0)
}

/// Splits `s` at each `c`, like `s.split(c)`.
pub fn split<'a>(s: &'a str, c: char) -> (r: Vec<&'a str>)
    ensures
        strs_view(r@) == split_char(s@, c),
{
    let v = chars_of(s);
    let n = v.len();
    let mut out: Vec<&'a str> = Vec::new();
    let mut start: usize = 0;
    loop
        invariant_except_break
            v@ == s@,
            n == v@.len(),
            start <= n,
            strs_view(out@) + split_from(s@, c, start as int) == split_char(s@, c),
        ensures
            strs_view(out@) == split_char(s@, c),
        decreases n - start,
    {
        proof {
            lemma_char_index(s@, c, start as int);
        }
        match find_char(&v, c, start) {
            Some(i) => {
                let piece = s.substring_char(start, i);
                let ghost before = out@;
                out.push(piece);
                assert(strs_view(out@) =~= strs_view(before).push(piece@));
                assert(strs_view(out@) + split_from(s@, c, i + 1) =~= strs_view(before)
                    + split_from(s@, c, start as int));
                start = i + 1;
            },
            None => {
                let piece = s.substring_char(start, n);
                let ghost before = out@;
                out.push(piece);
                assert(strs_view(out@) =~= strs_view(before) + split_from(s@, c, start as int));
                break ;
            },
        }
    }
    out
}

/// `s` split at its first `c`, like `s.split_once(c)`.
pub open spec fn split_once_char(s: Seq<char>, c: char) -> Option<(Seq<char>, Seq<char>)> {
    match char_index(s, c, 0) {
        Some(i) => Some((s.take(i), s.skip(i + 1))),
        None => None,
    }
}

/// Splits `s` at its first `c`.
pub fn split_once<'a>(s: &'a str, c: char) -> (r: Option<(&'a str, &'a str)>)
    ensures
        match split_once_char(s@, c) {
            Some((a, b)) => r matches Some(x) && x.0@ == a && x.1@ == b,
            None => r is None,
        },
{
    let v = chars_of(s);
    proof {
        lemma_char_index(s@, c, 0);
    }
    let n = v.len();
    match find_char(&v, c, 0) {
        Some(i) => Some((s.substring_char(0, i), s.substring_char(i + 1, n))),
        None => None,
    }
}

/// Index of the first occurrence of the pattern `p` in `s` at or after `from`.
pub open spec fn pattern_index(s: Seq<char>, p: Seq<char>, from: int) -> Option<int>
    decreases s.len() + 1 - from,
{
    if from < 0 || from + p.len() > s.len() {
        None
    } else if s.subrange(from, from + p.len()) == p {
        Some(from)
    } else {
        pattern_index(s, p, from + 1)
    }
}

/// What `pattern_index` returns, stated directly.
pub proof fn lemma_pattern_index(s: Seq<char>, p: Seq<char>, from: int)
    requires
        0 <= from,
    ensures
        match pattern_index(s, p, from) {
            Some(i) => from <= i && i + p.len() <= s.len() && s.subrange(i, i + p.len()) == p,
            None => true,
        },
    decreases s.len() + 1 - from,
{
    if from + p.len() <= s.len() && s.subrange(from, from + p.len()) != p {
        lemma_pattern_index(s, p, from + 1);
    }
}

fn starts_at(v: &Vec<char>, p: &Vec<char>, i: usize) -> (r: bool)
    requires
        i <= v@.len(),
    ensures
        r == (i + p@.len() <= v@.len() && v@.subrange(i as int, i + p@.len()) == p@),
{
    let n = v.len();
    if p.len() > n - i {
        return false;
    }
    let mut k: usize = 0;
    while k < p.len()
        invariant
            n == v@.len(),
            i + p@.len() <= v@.len(),
            k <= p@.len(),
            forall|j: int| 0 <= j < k ==> v@[i + j] == p@[j],
        decreases p@.len() - k,
    {
        if v[i + k] != p[k] {
            assert(v@.subrange(i as int, i + p@.len())[k as int] != p@[k as int]);
            return false;
        }
        k = k + 1;
    }
    assert(v@.subrange(i as int, i + p@.len()) =~= p@);
    true
}

fn find_pattern(v: &Vec<char>, p: &Vec<char>) -> (r: Option<usize>)
    ensures
        match pattern_index(v@, p@, 0) {
            Some(i) => r == Some(i as usize),
            None => r is None,
        },
        r matches Some(k) ==> k + p@.len() <= v@.len(),
{
    if p.len() > v.len() {
        assert(pattern_index(v@, p@, 0) is None);
        return None;
    }
    let last = v.len() - p.len();
    let mut i: usize = 0;
    loop
        invariant
            last == v@.len() - p@.len(),
            i <= last,
            pattern_index(v@, p@, 0) == pattern_index(v@, p@, i as int),
        decreases last - i,
    {
        if starts_at(v, p, i) {
            return Some(i);
        }
        assert(pattern_index(v@, p@, i as int) == pattern_index(v@, p@, i + 1));
        if i == last {
            assert(pattern_index(v@, p@, i + 1) is None);
            return None;
        }
        i = i + 1;
    }
}

/// `s` split at the first occurrence of the pattern `p`, like `s.split_once(p)`.
pub open spec fn split_once_pattern(s: Seq<char>, p: Seq<char>) -> Option<(Seq<char>, Seq<char>)> {
    match pattern_index(s, p, 0) {
        Some(i) => Some((s.take(i), s.skip(i + p.len()))),
        None => None,
    }
}

/// Splits `s` at the first occurrence of the pattern `p`.
pub fn split_once_str<'a>(s: &'a str, p: &str) -> (r: Option<(&'a str, &'a str)>)
    ensures
        match split_once_pattern(s@, p@) {
            Some((a, b)) => r matches Some(x) && x.0@ == a && x.1@ == b,
            None => r is None,
        },
{
    let v = chars_of(s);
    let pv = chars_of(p);
    proof {
        lemma_pattern_index(s@, p@, 0);
    }
    let n = v.len();
    match find_pattern(&v, &pv) {
        Some(i) => Some((s.substring_char(0, i), s.substring_char(i + pv.len(), n))),
        None => None,
    }
}

/// `s` contains the pattern `p`, like `s.contains(p)`.
pub fn contains_str(s: &str, p: &str) -> (r: bool)
    ensures
        r == (pattern_index(s@, p@, 0) is Some),
{
    let v = chars_of(s);
    let pv = chars_of(p);
    find_pattern(&v, &pv).is_some()
}

/// `s` begins with `p`, like `s.starts_with(p)`.
pub fn starts_with_str(s: &str, p: &str) -> (r: bool)
    ensures
        r == (p@.len() <= s@.len() && s@.take(p@.len() as int) == p@),
{
    let v = chars_of(s);
    let pv = chars_of(p);
    let r = starts_at(&v, &pv, 0);
    assert(v@.subrange(0, pv@.len() as int) == v@.take(pv@.len() as int));
    r
}

/// `s` ends with `p`, like `s.ends_with(p)`.
pub fn ends_with_str(s: &str, p: &str) -> (r: bool)
    ensures
        r == (p@.len() <= s@.len() && s@.skip(s@.len() - p@.len()) == p@),
{
    let v = chars_of(s);
    let pv = chars_of(p);
    if pv.len() > v.len() {
        return false;
    }
    let r = starts_at(&v, &pv, v.len() - pv.len());
    assert(v@.subrange(v@.len() - pv@.len(), v@.len() as int) == v@.skip(v@.len() - pv@.len()));
    r
}

/// Strings of different lengths differ.
pub proof fn lemma_lengths_differ(a: &str, b: &str)
    requires
        a@.len() != b@.len(),
    ensures
        a@ != b@,
{
}

/// Strings that differ at some position differ.
pub proof fn lemma_chars_differ(a: &str, b: &str, k: int)
    requires
        0 <= k < a@.len(),
        k < b@.len(),
        a@[k] != b@[k],
    ensures
        a@ != b@,
{
}

/// A decimal digit.
pub open spec fn is_digit(c: char) -> bool {
    '0' <= c <= '9'
}

/// The value of the decimal digits `s`.
pub open spec fn digits_value(s: Seq<char>) -> int
    decreases s.len(),
{
    if s.len() == 0 {
        0
    } else {
        digits_value(s.drop_last()) * 10 + (s.last() as int - '0' as int)
    }
}

/// Every character of `s` is a decimal digit.
pub open spec fn all_digits(s: Seq<char>) -> bool {
    forall|i: int| 0 <= i < s.len() ==> is_digit(#[trigger] s[i])
}

/// The digits of an unsigned number, after an optional `+`.
pub open spec fn unsigned_digits(s: Seq<char>) -> Seq<char> {
    if s.len() > 0 && s[0] == '+' {
        s.skip(1)
    } else {
        s
    }
}

/// An unsigned number no larger than `max`, as `str::parse` reads it:
/// an optional `+`, then at least one decimal digit, and nothing else.
pub open spec fn parse_unsigned(s: Seq<char>, max: int) -> Option<int> {
    let d = unsigned_digits(s);
    if d.len() > 0 && all_digits(d) && digits_value(d) <= max {
        Some(digits_value(d))
    } else {
        None
    }
}

/// A signed number within `min..=max`, as `str::parse` reads it:
/// an optional `+` or `-`, then at least one decimal digit, and nothing else.
pub open spec fn parse_signed(s: Seq<char>, min: int, max: int) -> Option<int> {
    if s.len() > 0 && s[0] == '-' {
        let d = s.skip(1);
        if d.len() > 0 && all_digits(d) && -digits_value(d) >= min {
            Some(-digits_value(d))
        } else {
            None
        }
    } else {
        parse_unsigned(s, max)
    }
}

/// Digits never lose value when more digits follow.
proof fn lemma_digits_grow(s: Seq<char>, k: int)
    requires
        0 <= k <= s.len(),
        all_digits(s),
    ensures
        digits_value(s.take(k)) <= digits_value(s),
        0 <= digits_value(s.take(k)),
    decreases s.len() - k,
{
    if k < s.len() {
        lemma_digits_grow(s, k + 1);
        assert(s.take(k + 1).drop_last() =~= s.take(k));
        assert(is_digit(s[k]));
        lemma_digits_nonneg(s.take(k));
    } else {
        assert(s.take(k) =~= s);
        lemma_digits_nonneg(s);
    }
}

proof fn lemma_digits_nonneg(s: Seq<char>)
    requires
        all_digits(s),
    ensures
        0 <= digits_value(s),
    decreases s.len(),
{
    if s.len() > 0 {
        assert(all_digits(s.drop_last()));
        lemma_digits_nonneg(s.drop_last());
        assert(is_digit(s[s.len() - 1]));
    }
}

/// The value of the digits `v[start..]` if they are at least one digit, only digits,
/// and no more than `max`.
fn digits_upto(v: &Vec<char>, start: usize, max: u64) -> (r: Option<u64>)
    requires
        start <= v@.len(),
    ensures
        ({
            let d = v@.skip(start as int);
            match r {
                Some(x) => d.len() > 0 && all_digits(d) && digits_value(d) <= max && x
                    == digits_value(d),
                None => !(d.len() > 0 && all_digits(d) && digits_value(d) <= max),
            }
        }),
{
    let ghost d = v@.skip(start as int);
    if start == v.len() {
        return None;
    }
    let mut value: u64 = 0;
    let mut i = start;
    while i < v.len()
        invariant
            start <= i <= v@.len(),
            d == v@.skip(start as int),
            all_digits(d.take(i - start)),
            value == digits_value(d.take(i - start)),
            value <= max,
        decreases v@.len() - i,
    {
        let c = v[i];
        assert(d[i - start] == c);
        if c < '0' || c > '9' {
            assert(!is_digit(d[i - start]));
            return None;
        }
        let digit = (c as u32 - '0' as u32) as u64;
        assert(d.take(i - start + 1).drop_last() =~= d.take(i - start));
        assert(all_digits(d.take(i - start + 1)));
        let next = match value.checked_mul(10) {
            Some(x) => x.checked_add(digit),
            None => None,
        };
        match next {
            Some(x) if x <= max => {
                value = x;
            },
            _ => {
                proof {
                    if all_digits(d) {
                        lemma_digits_grow(d, i - start + 1);
                    }
                }
                return None;
            },
        }
        i = i + 1;
    }
    assert(d.take(i - start) =~= d);
    Some(value)
}

/// Parses an unsigned number, like `s.parse::<u64>().ok()`.
pub fn parse_u64(s: &str) -> (r: Option<u64>)
    ensures
        match parse_unsigned(s@, u64::MAX as int) {
            Some(x) => r == Some(x as u64),
            None => r is None,
        },
        r matches Some(x) ==> parse_unsigned(s@, u64::MAX as int) == Some(x as int),
{
    let v = chars_of(s);
    let start: usize = if v.len() > 0 && v[0] == '+' { 1 } else { 0 };
    assert(start == 0 ==> v@.skip(0) =~= v@);
    digits_upto(&v, start, 18446744073709551615)
}

/// Parses an unsigned number, like `s.parse::<u8>().ok()`.
pub fn parse_u8(s: &str) -> (r: Option<u8>)
    ensures
        match parse_unsigned(s@, u8::MAX as int) {
            Some(x) => r == Some(x as u8),
            None => r is None,
        },
        r matches Some(x) ==> parse_unsigned(s@, u8::MAX as int) == Some(x as int),
{
    let v = chars_of(s);
    let start: usize = if v.len() > 0 && v[0] == '+' { 1 } else { 0 };
    assert(start == 0 ==> v@.skip(0) =~= v@);
    match digits_upto(&v, start, 255) {
        Some(x) => Some(x as u8),
        None => None,
    }
}

/// Parses a signed number, like `s.parse::<i64>().ok()`.
pub fn parse_i64(s: &str) -> (r: Option<i64>)
    ensures
        match parse_signed(s@, i64::MIN as int, i64::MAX as int) {
            Some(x) => r == Some(x as i64),
            None => r is None,
        },
        r matches Some(x) ==> parse_signed(s@, i64::MIN as int, i64::MAX as int) == Some(x as int),
{
    let v = chars_of(s);
    if v.len() > 0 && v[0] == '-' {
        match digits_upto(&v, 1, 9223372036854775808) {
            Some(m) => if m == 9223372036854775808 {
                Some(-9223372036854775807i64 - 1)
            } else {
                Some(-(m as i64))
            },
            None => None,
        }
    } else {
        let start: usize = if v.len() > 0 && v[0] == '+' { 1 } else { 0 };
        assert(start == 0 ==> v@.skip(0) =~= v@);
        match digits_upto(&v, start, 9223372036854775807) {
            Some(m) => Some(m as i64),
            None => None,
        }
    }
}

} // verus!
