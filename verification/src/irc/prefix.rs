//! Message prefix: `:nick!user@host `.
use vstd::prelude::*;
use vstd::utf8::is_char_boundary;
use vstd::string::StringExecFns;
use crate::common::{span, span_ok, span_text, Span};
use crate::text::{
    bytes_of, find_byte, index_of, last_index_of, lemma_ascii_boundary, lemma_index_of,
    lemma_index_of_unique, lemma_last_index_of, lemma_last_index_of_none, lemma_last_index_of_unique,
    rfind_byte, substr,
};

verus! {

broadcast use vstd::utf8::group_utf8_lib;

/// `':'`
pub const COLON: u8 = 58;
/// `'!'`
pub const BANG: u8 = 33;
/// `'@'`
pub const AT: u8 = 64;
/// `' '`
pub const SPACE: u8 = 32;

/// The ranges of the parts of a prefix.
#[derive(Debug, Clone, Copy)]
pub struct RawPrefix {
    /// The range of the `nick` part.
    pub nick: Option<Span>,
    /// The range of the `user` part.
    pub user: Option<Span>,
    /// The range of the `host` part.
    pub host: Span,
}

/// A message prefix.
///
/// ```text,ignore
/// :nick!user@host
/// ```
#[derive(Clone, Debug, Default, PartialEq, Eq)]
pub struct Prefix<'src> {
    /// The `nick` part of the prefix.
    pub nick: Option<&'src str>,
    /// The `user` part of the prefix.
    pub user: Option<&'src str>,
    /// The `host` part of the prefix.
    pub host: &'src str,
}

/// The characters of an optional string.
pub open spec fn opt_view(o: Option<&str>) -> Option<Seq<char>> {
    match o {
        Some(s) => Some(s@),
        None => None,
    }
}

/// The characters of an optional range of `b`.
pub open spec fn opt_text(b: Seq<u8>, o: Option<Span>) -> Option<Seq<char>> {
    match o {
        Some(sp) => Some(span_text(b, sp)),
        None => None,
    }
}

/// An optional range is well formed in `b`.
pub open spec fn opt_span_ok(b: Seq<u8>, o: Option<Span>) -> bool {
    match o {
        Some(sp) => span_ok(b, sp),
        None => true,
    }
}

impl<'src> Prefix<'src> {
    /// The parts as characters: `(nick, user, host)`.
    pub open spec fn parts(self) -> (Option<Seq<char>>, Option<Seq<char>>, Seq<char>) {
        (opt_view(self.nick), opt_view(self.user), self.host@)
    }

    /// Formats the prefix as `nick!user@host`, `nick@host` or `host`;
    /// a prefix with a user but no nick gives the empty string.
    pub fn to_string(&self) -> (r: String)
        ensures
            r@ == match (self.nick, self.user) {
                (Some(n), Some(u)) => n@ + "!"@ + u@ + "@"@ + self.host@,
                (Some(n), None) => n@ + "@"@ + self.host@,
                (None, None) => self.host@,
                (None, Some(_)) => Seq::<char>::empty(),
            },
    {
        match (self.nick, self.user) {
            (Some(n), Some(u)) => {
                let mut s = String::from_str(n);
                s.append("!");
                s.append(u);
                s.append("@");
                s.append(self.host);
                s
            },
            (Some(n), None) => {
                let mut s = String::from_str(n);
                s.append("@");
                s.append(self.host);
                s
            },
            (None, None) => String::from_str(self.host),
            (None, Some(_)) => String::new(),
        }
    }
}

impl RawPrefix {
    /// The ranges are well formed in `b`.
    pub open spec fn ok(self, b: Seq<u8>) -> bool {
        opt_span_ok(b, self.nick) && opt_span_ok(b, self.user) && span_ok(b, self.host)
    }

    /// The parts as characters of `b`: `(nick, user, host)`.
    pub open spec fn parts(self, b: Seq<u8>) -> (Option<Seq<char>>, Option<Seq<char>>, Seq<char>) {
        (opt_text(b, self.nick), opt_text(b, self.user), span_text(b, self.host))
    }

    /// The prefix, taken from the message `src` that it was parsed from.
    pub fn get<'src>(&self, src: &'src str) -> (r: Prefix<'src>)
        requires
            self.ok(bytes_of(src@)),
        ensures
            r.parts() == self.parts(bytes_of(src@)),
    {
        Prefix {
            nick: match self.nick {
                Some(sp) => Some(sp.get(src)),
                None => None,
            },
            user: match self.user {
                Some(sp) => Some(sp.get(src)),
                None => None,
            },
            host: self.host.get(src),
        }
    }
}

/// What [`parse`] finds at `pos`: a prefix `:<body> ` and the position after the space.
///
/// In the body, the host follows the last `@` (or is the whole body if there is none);
/// the nick runs up to the last `!`, or, without any `!`, up to the last `@`;
/// the user lies between the last `@` and the last `!` before it.
pub open spec fn spec_parse_prefix(b: Seq<u8>, pos: int) -> Option<(RawPrefix, int)> {
    if 0 <= pos < b.len() && b[pos] == COLON {
        let st = pos + 1;
        match index_of(b, st, b.len() as int, SPACE) {
            Some(sp) => {
                let at = last_index_of(b, st, sp, AT);
                let bang = last_index_of(b, st, sp, BANG);
                let nick = match bang {
                    Some(k) => Some(span(st, k)),
                    None => match at {
                        Some(a) => Some(span(st, a)),
                        None => None,
                    },
                };
                let user = match at {
                    Some(a) => match last_index_of(b, st, a, BANG) {
                        Some(k) => Some(span(k + 1, a)),
                        None => None,
                    },
                    None => None,
                };
                let host = match at {
                    Some(a) => span(a + 1, sp),
                    None => span(st, sp),
                };
                Some((RawPrefix { nick, user, host }, sp + 1))
            },
            None => None,
        }
    } else {
        None
    }
}

/// `:nick!user@host <rest>`
///
/// On success, `pos` moves past the space that ends the prefix.
pub fn parse(src: &str, pos: &mut usize) -> (r: Option<RawPrefix>)
    requires
        bytes_of(src@).len() <= u32::MAX,
        *old(pos) <= bytes_of(src@).len(),
        is_char_boundary(bytes_of(src@), *old(pos) as int),
    ensures
        match spec_parse_prefix(bytes_of(src@), *old(pos) as int) {
            Some((p, next)) => r == Some(p) && *final(pos) == next,
            None => r is None && *final(pos) == *old(pos),
        },
        r matches Some(p) ==> p.ok(bytes_of(src@)),
        is_char_boundary(bytes_of(src@), *final(pos) as int),
{
    let b = src.as_bytes();
    let ghost bs = b@;
    let p = *pos;
    if p >= b.len() || b[p] != COLON {
        return None;
    }
    let st = p + 1;
    let sp = match find_byte(b, st, b.len(), SPACE) {
        Some(sp) => sp,
        None => return None,
    };
    proof {
        lemma_index_of(bs, st as int, bs.len() as int, SPACE);
        lemma_ascii_boundary(bs, p as int);
        lemma_ascii_boundary(bs, sp as int);
        lemma_last_index_of(bs, st as int, sp as int, AT);
        lemma_last_index_of(bs, st as int, sp as int, BANG);
    }
    let at = rfind_byte(b, st, sp, AT);
    let bang = rfind_byte(b, st, sp, BANG);
    let nick = match bang {
        Some(k) => {
            proof {
                lemma_ascii_boundary(bs, k as int);
            }
            Some(Span::new(st as u32, k as u32))
        },
        None => match at {
            Some(a) => {
                proof {
                    lemma_ascii_boundary(bs, a as int);
                }
                Some(Span::new(st as u32, a as u32))
            },
            None => None,
        },
    };
    let user = match at {
        Some(a) => {
            proof {
                lemma_last_index_of(bs, st as int, a as int, BANG);
            }
            match rfind_byte(b, st, a, BANG) {
                Some(k) => {
                    proof {
                        lemma_ascii_boundary(bs, k as int);
                        lemma_ascii_boundary(bs, a as int);
                    }
                    Some(Span::new((k + 1) as u32, a as u32))
                },
                None => None,
            }
        },
        None => None,
    };
    let host = match at {
        Some(a) => {
            proof {
                lemma_ascii_boundary(bs, a as int);
            }
            Span::new((a + 1) as u32, sp as u32)
        },
        None => Span::new(st as u32, sp as u32),
    };
    *pos = sp + 1;
    Some(RawPrefix { nick, user, host })
}

/// A prefix `:nick!user@host ` at `pos`, where the user and the host hold no `!`, `@` or
/// space and the nick no space, reads as that nick, user and host, and parsing goes on
/// after the space.
pub proof fn lemma_prefix_full(b: Seq<u8>, pos: int, bang: int, at: int, sp: int)
    requires
        0 <= pos < bang < at < sp < b.len(),
        b[pos] == COLON,
        b[bang] == BANG,
        b[at] == AT,
        b[sp] == SPACE,
        forall|i: int| pos < i < sp ==> b[i] != SPACE,
        forall|i: int| bang < i < sp ==> b[i] != BANG,
        forall|i: int| at < i < sp ==> b[i] != AT,
    ensures
        spec_parse_prefix(b, pos) == Some(
            (
                RawPrefix {
                    nick: Some(span(pos + 1, bang)),
                    user: Some(span(bang + 1, at)),
                    host: span(at + 1, sp),
                },
                sp + 1,
            ),
        ),
{
    lemma_index_of_unique(b, pos + 1, b.len() as int, SPACE, sp);
    lemma_last_index_of_unique(b, pos + 1, sp, AT, at);
    lemma_last_index_of_unique(b, pos + 1, sp, BANG, bang);
    lemma_last_index_of_unique(b, pos + 1, at, BANG, bang);
}

/// A prefix `:nick@host ` at `pos`, with no `!` in it, no `@` in the host and no space,
/// reads as that nick and host, without a user.
pub proof fn lemma_prefix_nick_host(b: Seq<u8>, pos: int, at: int, sp: int)
    requires
        0 <= pos < at < sp < b.len(),
        b[pos] == COLON,
        b[at] == AT,
        b[sp] == SPACE,
        forall|i: int| pos < i < sp ==> b[i] != SPACE && b[i] != BANG,
        forall|i: int| at < i < sp ==> b[i] != AT,
    ensures
        spec_parse_prefix(b, pos) == Some(
            (RawPrefix { nick: Some(span(pos + 1, at)), user: None, host: span(at + 1, sp) }, sp + 1),
        ),
{
    lemma_index_of_unique(b, pos + 1, b.len() as int, SPACE, sp);
    lemma_last_index_of_unique(b, pos + 1, sp, AT, at);
    lemma_last_index_of_none(b, pos + 1, sp, BANG);
    lemma_last_index_of_none(b, pos + 1, at, BANG);
}

/// A prefix `:host ` at `pos`, with no `!`, `@` or space in the host, reads as that host
/// alone.
pub proof fn lemma_prefix_host(b: Seq<u8>, pos: int, sp: int)
    requires
        0 <= pos < sp < b.len(),
        b[pos] == COLON,
        b[sp] == SPACE,
        forall|i: int| pos < i < sp ==> b[i] != SPACE && b[i] != BANG && b[i] != AT,
    ensures
        spec_parse_prefix(b, pos) == Some((RawPrefix { nick: None, user: None, host: span(pos + 1, sp) }, sp + 1)),
{
    lemma_index_of_unique(b, pos + 1, b.len() as int, SPACE, sp);
    lemma_last_index_of_none(b, pos + 1, sp, AT);
    lemma_last_index_of_none(b, pos + 1, sp, BANG);
}

} // verus!
