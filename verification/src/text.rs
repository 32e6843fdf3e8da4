//! Byte-level helpers shared by the parsers: searching for ASCII delimiters,
//! slicing a `str` at byte offsets, and comparing strings.
//!
//! All parsers in this crate locate ASCII delimiters (` `, `@`, `!`, `;`, `=`,
//! `#`, `:`) in the UTF-8 encoding of their input. Positions at or directly
//! after such a delimiter are always character boundaries, which is what makes
//! slicing at them safe.
use vstd::prelude::*;
use vstd::utf8::*;

verus! {

broadcast use vstd::utf8::group_utf8_lib;

/// The UTF-8 encoding of a character sequence; this is `s.as_bytes()` for a `str` `s`.
pub open spec fn bytes_of(s: Seq<char>) -> Seq<u8> {
    encode_utf8(s)
}

/// The characters encoded by the bytes `b[start..end]`.
pub open spec fn text_at(b: Seq<u8>, start: int, end: int) -> Seq<char> {
    decode_utf8(b.subrange(start, end))
}

/// Index of the first occurrence of `x` in `b[from..to]`.
pub open spec fn index_of(b: Seq<u8>, from: int, to: int, x: u8) -> Option<int>
    decreases to - from,
{
    if from >= to {
        None
    } else if b[from] == x {
        Some(from)
    } else {
        index_of(b, from + 1, to, x)
    }
}

/// Index of the last occurrence of `x` in `b[from..to]`.
pub open spec fn last_index_of(b: Seq<u8>, from: int, to: int, x: u8) -> Option<int>
    decreases to - from,
{
    if from >= to {
        None
    } else if b[to - 1] == x {
        Some(to - 1)
    } else {
        last_index_of(b, from, to - 1, x)
    }
}

/// A position found in a sequence, as an executable index.
pub open spec fn to_index(o: Option<int>) -> Option<usize> {
    match o {
        Some(i) => Some(i as usize),
        None => None,
    }
}

/// `x` does not occur in `b[from..to]`.
pub open spec fn absent(b: Seq<u8>, from: int, to: int, x: u8) -> bool {
    forall|k: int| from <= k < to ==> b[k] != x
}

/// What `index_of` returns, stated directly.
pub proof fn lemma_index_of(b: Seq<u8>, from: int, to: int, x: u8)
    requires
        0 <= from,
        to <= b.len(),
    ensures
        match index_of(b, from, to, x) {
            Some(i) => from <= i < to && b[i] == x && absent(b, from, i, x),
            None => absent(b, from, to, x),
        },
    decreases to - from,
{
    if from < to && b[from] != x {
        lemma_index_of(b, from + 1, to, x);
    }
}

/// `index_of` is determined by the characterization of `lemma_index_of`.
pub proof fn lemma_index_of_unique(b: Seq<u8>, from: int, to: int, x: u8, i: int)
    requires
        0 <= from <= i < to <= b.len(),
        b[i] == x,
        absent(b, from, i, x),
    ensures
        index_of(b, from, to, x) == Some(i),
    decreases i - from,
{
    if from < i {
        lemma_index_of_unique(b, from + 1, to, x, i);
    }
}

/// `index_of` returns `None` exactly when `x` is absent.
pub proof fn lemma_index_of_none(b: Seq<u8>, from: int, to: int, x: u8)
    requires
        0 <= from,
        to <= b.len(),
        absent(b, from, to, x),
    ensures
        index_of(b, from, to, x) == None::<int>,
    decreases to - from,
{
    if from < to {
        lemma_index_of_none(b, from + 1, to, x);
    }
}

/// The last occurrence of `x` in `b[from..to]` is at `i` where `b[i]` is `x` and `x`
/// does not occur after it.
pub proof fn lemma_last_index_of_unique(b: Seq<u8>, from: int, to: int, x: u8, i: int)
    requires
        0 <= from <= i < to <= b.len(),
        b[i] == x,
        absent(b, i + 1, to, x),
    ensures
        last_index_of(b, from, to, x) == Some(i),
    decreases to - i,
{
    if i < to - 1 {
        lemma_last_index_of_unique(b, from, to - 1, x, i);
    }
}

/// `last_index_of` finds nothing where `x` does not occur.
pub proof fn lemma_last_index_of_none(b: Seq<u8>, from: int, to: int, x: u8)
    requires
        0 <= from,
        to <= b.len(),
        absent(b, from, to, x),
    ensures
        last_index_of(b, from, to, x) == None::<int>,
    decreases to - from,
{
    if from < to {
        lemma_last_index_of_none(b, from, to - 1, x);
    }
}

/// What `last_index_of` returns, stated directly.
pub proof fn lemma_last_index_of(b: Seq<u8>, from: int, to: int, x: u8)
    requires
        0 <= from,
        to <= b.len(),
    ensures
        match last_index_of(b, from, to, x) {
            Some(i) => from <= i < to && b[i] == x && absent(b, i + 1, to, x),
            None => absent(b, from, to, x),
        },
    decreases to - from,
{
    if from < to && b[to - 1] != x {
        lemma_last_index_of(b, from, to - 1, x);
    }
}

/// Searches `b[from..to]` for the first occurrence of `x`.
pub fn find_byte(b: &[u8], from: usize, to: usize, x: u8) -> (r: Option<usize>)
    requires
        from <= to <= b@.len(),
    ensures
        r == to_index(index_of(b@, from as int, to as int, x)),
{
    let mut i = from;
    while i < to
        invariant
            from <= i <= to <= b@.len(),
            index_of(b@, from as int, to as int, x) == index_of(b@, i as int, to as int, x),
        decreases to - i,
    {
        if b[i] == x {
            return Some(i);
        }
        i = i + 1;
    }
    None
}

/// Searches `b[from..to]` for the last occurrence of `x`.
pub fn rfind_byte(b: &[u8], from: usize, to: usize, x: u8) -> (r: Option<usize>)
    requires
        from <= to <= b@.len(),
    ensures
        r == to_index(last_index_of(b@, from as int, to as int, x)),
{
    let mut j = to;
    while j > from
        invariant
            from <= j <= to <= b@.len(),
            last_index_of(b@, from as int, to as int, x) == last_index_of(
                b@,
                from as int,
                j as int,
                x,
            ),
        decreases j - from,
    {
        if b[j - 1] == x {
            return Some(j - 1);
        }
        j = j - 1;
    }
    None
}

/// A position holding an ASCII byte is a character boundary, and so is the position after it.
pub proof fn lemma_ascii_boundary(b: Seq<u8>, i: int)
    requires
        valid_utf8(b),
        0 <= i < b.len(),
        b[i] < 0x80,
    ensures
        is_char_boundary(b, i),
        is_char_boundary(b, i + 1),
    decreases b.len(),
{
    is_char_boundary_iff_not_is_continuation_byte(b, i);
    let l = length_of_first_scalar(b);
    if i < l {
        if i > 0 {
            assert(is_continuation_byte(b[i]));
        }
        reveal_with_fuel(is_char_boundary, 2);
        assert(pop_first_scalar(b).len() == b.len() - 1);
    } else {
        let p = pop_first_scalar(b);
        assert(p[i - l] == b[i]);
        lemma_ascii_boundary(p, i - l);
    }
}

/// Both ends of a valid encoding are character boundaries.
pub proof fn lemma_ends_boundary(b: Seq<u8>)
    requires
        valid_utf8(b),
    ensures
        is_char_boundary(b, 0),
        is_char_boundary(b, b.len() as int),
{
    is_char_boundary_start_end_of_seq(b);
}

/// A boundary of `b` at or before `end` is a boundary of `b[..end]`.
pub proof fn lemma_prefix_boundary(b: Seq<u8>, start: int, end: int)
    requires
        valid_utf8(b),
        0 <= start <= end <= b.len(),
        is_char_boundary(b, start),
        is_char_boundary(b, end),
    ensures
        valid_utf8(b.subrange(0, end)),
        is_char_boundary(b.subrange(0, end), start),
{
    valid_utf8_split(b, end);
    let h = b.subrange(0, end);
    if start == end {
        is_char_boundary_start_end_of_seq(h);
    } else {
        is_char_boundary_iff_not_is_continuation_byte(b, start);
        is_char_boundary_iff_not_is_continuation_byte(h, start);
    }
}

/// The part of `s` between the byte offsets `start` and `end`.
pub fn substr<'a>(s: &'a str, start: usize, end: usize) -> (r: &'a str)
    requires
        start <= end <= bytes_of(s@).len(),
        is_char_boundary(bytes_of(s@), start as int),
        is_char_boundary(bytes_of(s@), end as int),
    ensures
        bytes_of(r@) == bytes_of(s@).subrange(start as int, end as int),
        r@ == text_at(bytes_of(s@), start as int, end as int),
{
    let ghost b = bytes_of(s@);
    proof {
        lemma_prefix_boundary(b, start as int, end as int);
    }
    let (head, _) = s.split_at(end);
    assert(bytes_of(head@) =~= b.subrange(0, end as int));
    let (_, r) = head.split_at(start);
    assert(bytes_of(r@) =~= b.subrange(start as int, end as int));
    proof {
        decode_utf8_encode_utf8(b.subrange(start as int, end as int));
        encode_utf8_decode_utf8(r@);
    }
    r
}

/// Equal encodings mean equal strings.
pub proof fn lemma_bytes_eq(a: Seq<char>, b: Seq<char>)
    requires
        bytes_of(a) == bytes_of(b),
    ensures
        a == b,
{
    encode_utf8_decode_utf8(a);
    encode_utf8_decode_utf8(b);
}

/// Compares two strings.
pub fn str_eq(a: &str, b: &str) -> (r: bool)
    ensures
        r == (a@ == b@),
{
    let x = a.as_bytes();
    let y = b.as_bytes();
    if x.len() != y.len() {
        return false;
    }
    let mut i: usize = 0;
    while i < x.len()
        invariant
            x@ == bytes_of(a@),
            y@ == bytes_of(b@),
            x@.len() == y@.len(),
            i <= x@.len(),
            forall|k: int| 0 <= k < i ==> x@[k] == y@[k],
        decreases x@.len() - i,
    {
        if x[i] != y[i] {
            return false;
        }
        i = i + 1;
    }
    proof {
        assert(x@ =~= y@);
        lemma_bytes_eq(a@, b@);
    }
    true
}

/// Appends `c` to `s`; this is [`String::push`].
#[verifier::external_body]
pub(crate) fn push_char(s: &mut String, c: char)
    ensures
        final(s)@ == old(s)@.push(c),
{
    s.push(c)
}

/// Tests whether `s` begins with the ASCII byte `c`.
pub fn starts_with_byte(s: &str, c: u8) -> (r: bool)
    ensures
        r == (bytes_of(s@).len() > 0 && bytes_of(s@)[0] == c),
{
    let b = s.as_bytes();
    b.len() > 0 && b[0] == c
}

/// No byte of the encoding of a character other than the ASCII character `c` is `c`:
/// every byte of a longer encoding has its high bit set.
proof fn lemma_scalar_avoids_ascii(x: u32, c: u8)
    requires
        c < 0x80,
        x != c as u32,
    ensures
        forall|j: int| 0 <= j < encode_scalar(x).len() ==> encode_scalar(x)[j] != c,
{
    assert(x <= 0x7F ==> (x & 0x7F) as u8 != c) by (bit_vector)
        requires
            c < 0x80,
            x != c as u32,
    ;
    assert((0xC0u8 | ((x >> 6) & 0x1F) as u8) >= 0x80u8) by (bit_vector);
    assert((0xE0u8 | ((x >> 12) & 0x0F) as u8) >= 0x80u8) by (bit_vector);
    assert((0xF0u8 | ((x >> 18) & 0x7) as u8) >= 0x80u8) by (bit_vector);
    assert((0x80u8 | (x & 0x3F) as u8) >= 0x80u8) by (bit_vector);
    assert((0x80u8 | ((x >> 6) & 0x3F) as u8) >= 0x80u8) by (bit_vector);
    assert((0x80u8 | ((x >> 12) & 0x3F) as u8) >= 0x80u8) by (bit_vector);
}

/// The encoding of an ASCII character is that character's byte.
proof fn lemma_scalar_ascii(c: u8)
    requires
        c < 0x80,
    ensures
        encode_scalar(c as u32) == seq![c],
{
    assert(((c as u32) & 0x7F) as u8 == c) by (bit_vector)
        requires
            c < 0x80,
    ;
    assert(encode_scalar(c as u32) =~= seq![c]);
}

/// The encoding of two strings one after the other is their encodings one after the other.
pub proof fn lemma_encode_concat(a: Seq<char>, b: Seq<char>)
    ensures
        bytes_of(a + b) == bytes_of(a) + bytes_of(b),
    decreases a.len(),
{
    if a.len() == 0 {
        assert(a + b =~= b);
        assert(bytes_of(a) + bytes_of(b) =~= bytes_of(b));
    } else {
        lemma_encode_concat(a.drop_first(), b);
        assert((a + b).drop_first() =~= a.drop_first() + b);
        assert((a + b)[0] == a[0]);
        assert(encode_scalar(a[0] as u32) + (bytes_of(a.drop_first()) + bytes_of(b)) =~= (encode_scalar(a[0] as u32)
            + bytes_of(a.drop_first())) + bytes_of(b));
    }
}

/// A search that starts inside a part of `a + b` without `x` finds what a search of `b` finds.
proof fn lemma_index_of_after(a: Seq<u8>, b: Seq<u8>, x: u8, from: int)
    requires
        0 <= from <= a.len() + b.len(),
        forall|j: int| from <= j < a.len() ==> a[j] != x,
    ensures
        index_of(a + b, from, (a.len() + b.len()) as int, x) == match index_of(b, if from <= a.len() { 0 } else { from - a.len() }, b.len() as int, x) {
            Some(i) => Some(i + a.len()),
            None => None,
        },
    decreases a.len() + b.len() - from,
{
    if from < a.len() + b.len() {
        lemma_index_of_after(a, b, x, from + 1);
    }
}

/// The first `c` in a string's characters and the first byte `c` in its encoding are at
/// the same place: the byte position is the length of the encoding before it.
pub proof fn lemma_first_ascii(s: Seq<char>, c: char)
    requires
        (c as u32) < 0x80,
    ensures
        index_of(bytes_of(s), 0, bytes_of(s).len() as int, c as u8) == match crate::strings::char_index(s, c, 0) {
            Some(k) => Some(bytes_of(s.take(k)).len() as int),
            None => None,
        },
    decreases s.len(),
{
    if s.len() > 0 {
        let x = s[0];
        let rest = s.drop_first();
        let head = encode_scalar(x as u32);
        assert(bytes_of(s) == head + bytes_of(rest));
        if x == c {
            lemma_scalar_ascii(c as u8);
            assert(bytes_of(s)[0] == c as u8);
            assert(s.take(0) =~= Seq::<char>::empty());
        } else {
            assert((c as u32) as u8 as u32 == c as u32);
            assert(x as u32 != c as u32) by {
                if x as u32 == c as u32 {
                    char_u32_cast(x, x as u32);
                    char_u32_cast(c, c as u32);
                }
            }
            lemma_scalar_avoids_ascii(x as u32, c as u8);
            lemma_first_ascii(rest, c);
            lemma_index_of_after(head, bytes_of(rest), c as u8, 0);
            lemma_char_index_shift(s, c, 0);
            match crate::strings::char_index(rest, c, 0) {
                Some(k) => {
                    crate::strings::lemma_char_index(rest, c, 0);
                    assert(s.take(k + 1) =~= seq![x] + rest.take(k));
                    lemma_encode_concat(seq![x], rest.take(k));
                    assert(seq![x].drop_first() =~= Seq::<char>::empty());
                    assert(bytes_of(Seq::<char>::empty()) =~= Seq::<u8>::empty());
                    assert(bytes_of(seq![x]) == encode_scalar(x as u32) + bytes_of(Seq::<char>::empty()));
                    assert(bytes_of(seq![x]) =~= head);
                },
                None => {},
            }
        }
    }
}

/// Searching a string for `c` from `from + 1` is searching the string without its first
/// character from `from`.
proof fn lemma_char_index_shift(s: Seq<char>, c: char, from: int)
    requires
        s.len() > 0,
        0 <= from,
    ensures
        crate::strings::char_index(s, c, from + 1) == match crate::strings::char_index(s.drop_first(), c, from) {
            Some(k) => Some(k + 1),
            None => None,
        },
    decreases s.len() - from,
{
    if from + 1 < s.len() {
        lemma_char_index_shift(s, c, from + 1);
    }
}

/// Searching a range of `b` is searching the same bytes cut out of `b`.
pub proof fn lemma_index_of_shift(b: Seq<u8>, s: int, e: int, x: u8, from: int)
    requires
        0 <= s <= from <= e <= b.len(),
    ensures
        index_of(b.subrange(s, e), from - s, e - s, x) == match index_of(b, from, e, x) {
            Some(i) => Some(i - s),
            None => None,
        },
    decreases e - from,
{
    if from < e {
        lemma_index_of_shift(b, s, e, x, from + 1);
    }
}

/// The encoding of one ASCII character is its byte.
pub proof fn lemma_ascii_char_bytes(c: char)
    requires
        (c as u32) < 0x80,
    ensures
        bytes_of(seq![c]) == seq![c as u8],
{
    assert(((c as u32) as u8) as u32 == c as u32);
    lemma_scalar_ascii(c as u8);
    assert(seq![c].drop_first() =~= Seq::<char>::empty());
    assert(bytes_of(Seq::<char>::empty()) =~= Seq::<u8>::empty());
    assert(bytes_of(seq![c]) == encode_scalar(c as u32) + bytes_of(Seq::<char>::empty()));
    assert(bytes_of(seq![c]) =~= seq![c as u8]);
}

} // verus!
