//! Twitch's escaping of tag values.
use vstd::prelude::*;
use vstd::string::StringExecFns;
use crate::text::push_char;

verus! {

broadcast use vstd::string::group_string_axioms;

/// What one character of escaped input produces, given whether the previous
/// character was an unescaped `\`; and whether the next one is escaped.
///
/// `\:` is `;`, `\s` is a space, `\\` is `\`, `\r` and `\n` are CR and LF,
/// and `⸝` stands for `,`. Twitch does not follow IRCv3 here.
pub open spec fn unescape_step(c: char, escape: bool) -> (Seq<char>, bool) {
    if escape && c == ':' {
        (seq![';'], false)
    } else if escape && c == 's' {
        (seq![' '], false)
    } else if escape && c == '\\' {
        (seq!['\\'], false)
    } else if escape && c == 'r' {
        (seq!['\r'], false)
    } else if escape && c == 'n' {
        (seq!['\n'], false)
    } else if c == '⸝' {
        (seq![','], escape)
    } else if c == '\\' {
        (Seq::<char>::empty(), true)
    } else {
        (seq![c], escape)
    }
}

/// The output and the final escape state after reading `s` from left to right.
pub open spec fn unescape_run(s: Seq<char>) -> (Seq<char>, bool)
    decreases s.len(),
{
    if s.len() == 0 {
        (Seq::<char>::empty(), false)
    } else {
        let (out, escape) = unescape_run(s.drop_last());
        let (more, next) = unescape_step(s.last(), escape);
        (out + more, next)
    }
}

/// `s` with Twitch's escapes replaced.
pub open spec fn unescaped(s: Seq<char>) -> Seq<char> {
    unescape_run(s).0
}

/// Appends the unescaped form of `input` to `out`.
pub fn unescape_into(out: &mut String, input: &str)
    ensures
        final(out)@ == old(out)@ + unescaped(input@),
{
    let ghost start = out@;
    let mut escape = false;
    assert(input@.len() == 0 ==> input@ =~= Seq::<char>::empty());
    for c in it: input.chars()
        invariant
            it.seq() == input@,
            out@ == start + unescape_run(it.seq().take(it.index() as int)).0,
            escape == unescape_run(it.seq().take(it.index() as int)).1,
            it.index() == input@.len() ==> out@ == start + unescaped(input@),
    {
        let ghost before = it.seq().take(it.index() as int);
        assert(it.seq().take(it.index() + 1).drop_last() =~= before);
        assert(it.seq().take(it.index() + 1).last() == c);
        if escape && c == ':' {
            push_char(out, ';');
            escape = false;
        } else if escape && c == 's' {
            push_char(out, ' ');
            escape = false;
        } else if escape && c == '\\' {
            push_char(out, '\\');
            escape = false;
        } else if escape && c == 'r' {
            push_char(out, '\r');
            escape = false;
        } else if escape && c == 'n' {
            push_char(out, '\n');
            escape = false;
        } else if c == '⸝' {
            push_char(out, ',');
        } else if c == '\\' {
            escape = true;
        } else {
            push_char(out, c);
        }
        assert(out@ =~= start + unescape_run(it.seq().take(it.index() + 1)).0);
        assert(it.index() + 1 == input@.len() ==> it.seq().take(it.index() + 1) =~= input@);
    }
}

/// Unescape a `value` according to the escaped characters that Twitch IRC supports.
///
/// Note that this is _not_ the same as IRCv3! Twitch doesn't follow the spec here.
pub fn unescape(value: &str) -> (r: String)
    ensures
        r@ == unescaped(value@),
{
    let mut out = String::new();
    unescape_into(&mut out, value);
    out
}

/// Reading `a` and then `b`, where reading `a` ends outside an escape, gives what
/// reading each gives, one after the other.
proof fn lemma_run_concat(a: Seq<char>, b: Seq<char>)
    requires
        !unescape_run(a).1,
    ensures
        unescape_run(a + b) == (unescape_run(a).0 + unescape_run(b).0, unescape_run(b).1),
    decreases b.len(),
{
    if b.len() == 0 {
        assert(a + b =~= a);
        assert(unescape_run(a).0 + Seq::<char>::empty() =~= unescape_run(a).0);
    } else {
        lemma_run_concat(a, b.drop_last());
        assert((a + b).drop_last() =~= a + b.drop_last());
        assert((a + b).last() == b.last());
        let (more, _) = unescape_step(b.last(), unescape_run(b.drop_last()).1);
        assert(unescape_run(a).0 + unescape_run(b.drop_last()).0 + more =~= unescape_run(a).0 + (
        unescape_run(b.drop_last()).0 + more));
    }
}

/// Text without `\` and `⸝` reads as itself, and ends outside an escape.
proof fn lemma_run_plain(a: Seq<char>)
    requires
        forall|i: int| 0 <= i < a.len() ==> a[i] != '\\' && a[i] != '⸝',
    ensures
        unescape_run(a) == (a, false),
    decreases a.len(),
{
    if a.len() > 0 {
        lemma_run_plain(a.drop_last());
        assert(a.drop_last() + seq![a.last()] =~= a);
    }
}

/// Text before the first `\` that holds no `⸝` is kept as it is: unescaping the
/// whole is that text followed by the unescaped rest.
pub proof fn lemma_unescape_plain_prefix(a: Seq<char>, b: Seq<char>)
    requires
        forall|i: int| 0 <= i < a.len() ==> a[i] != '\\' && a[i] != '⸝',
    ensures
        unescaped(a + b) == a + unescaped(b),
{
    lemma_run_plain(a);
    lemma_run_concat(a, b);
}

/// Reading `a`, then `e`, which ends outside an escape and gives `out`, then `b`.
proof fn lemma_plain_then(a: Seq<char>, e: Seq<char>, b: Seq<char>, out: Seq<char>)
    requires
        forall|i: int| 0 <= i < a.len() ==> a[i] != '\\' && a[i] != '⸝',
        unescape_run(e) == (out, false),
    ensures
        unescaped(a + e + b) == a + out + unescaped(b),
{
    lemma_run_plain(a);
    lemma_run_concat(e, b);
    lemma_run_concat(a, e + b);
    assert(a + e + b =~= a + (e + b));
    assert(a + (out + unescape_run(b).0) =~= a + out + unescape_run(b).0);
}

/// What reading the escape `\\c` gives, from outside an escape.
proof fn lemma_escape_pair(c: char)
    ensures
        unescape_run(seq!['\\', c]) == unescape_step(c, true),
{
    let e = seq!['\\', c];
    let one = seq!['\\'];
    let none = Seq::<char>::empty();
    assert(none.len() == 0);
    assert(unescape_run(none) == (none, false));
    assert(one.len() == 1);
    assert(one.drop_last() =~= none);
    assert(one.last() == '\\');
    assert(unescape_step('\\', false) == (none, true));
    assert(none + none =~= none);
    assert(unescape_run(one) == (none, true));
    assert(e.len() == 2);
    assert(e.drop_last() =~= one);
    assert(e.last() == c);
    assert(none + unescape_step(c, true).0 =~= unescape_step(c, true).0);
}

/// Twitch's escapes, each in any context that is not itself escaped: `\\:` is `;`,
/// `\\s` is a space, `\\\\` is `\\`, `\\r` is a carriage return, `\\n` is a line feed, and
/// `⸝` is `,`; text without `\\` and `⸝` is kept as it is.
pub proof fn lemma_unescape_escapes(a: Seq<char>, b: Seq<char>)
    requires
        forall|i: int| 0 <= i < a.len() ==> a[i] != '\\' && a[i] != '⸝',
    ensures
        unescaped(a) == a,
        unescaped(a + seq!['\\', ':'] + b) == a + seq![';'] + unescaped(b),
        unescaped(a + seq!['\\', 's'] + b) == a + seq![' '] + unescaped(b),
        unescaped(a + seq!['\\', '\\'] + b) == a + seq!['\\'] + unescaped(b),
        unescaped(a + seq!['\\', 'r'] + b) == a + seq!['\r'] + unescaped(b),
        unescaped(a + seq!['\\', 'n'] + b) == a + seq!['\n'] + unescaped(b),
        unescaped(a + seq!['⸝'] + b) == a + seq![','] + unescaped(b),
{
    lemma_run_plain(a);
    lemma_escape_pair(':');
    lemma_plain_then(a, seq!['\\', ':'], b, seq![';']);
    lemma_escape_pair('s');
    lemma_plain_then(a, seq!['\\', 's'], b, seq![' ']);
    lemma_escape_pair('\\');
    lemma_plain_then(a, seq!['\\', '\\'], b, seq!['\\']);
    lemma_escape_pair('r');
    lemma_plain_then(a, seq!['\\', 'r'], b, seq!['\r']);
    lemma_escape_pair('n');
    lemma_plain_then(a, seq!['\\', 'n'], b, seq!['\n']);
    let c = seq!['⸝'];
    let none = Seq::<char>::empty();
    assert(unescape_run(none) == (none, false));
    assert(c.len() == 1);
    assert(c.drop_last() =~= none);
    assert(c.last() == '⸝');
    assert(none + seq![','] =~= seq![',']);
    assert(unescape_run(c) == (seq![','], false));
    lemma_plain_then(a, c, b, seq![',']);
}

} // verus!
