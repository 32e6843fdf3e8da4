//! Parsing and composing of Twitch chat (IRC) messages.
use std::borrow::Cow;
use vstd::prelude::*;
use vstd::string::StringExecFns;
use crate::strings::{char_index, lemma_char_index};
use crate::text::{bytes_of, find_byte, index_of, lemma_ascii_boundary, lemma_encode_concat, lemma_ends_boundary, lemma_first_ascii, lemma_index_of, substr, text_at};
use crate::unescape::{lemma_unescape_plain_prefix, unescape_into, unescaped};

pub mod text;
pub mod common;
pub mod unescape;
pub mod irc;
pub mod strings;
pub mod msg;
pub mod client;
pub mod chat;
pub mod bot;

pub use irc::{Command, IrcMessage, IrcMessageRef, Prefix, Tag};
pub use client::Credentials;
pub use msg::{
    Badge, BadgeData, ClearChat, ClearMsg, FromIrc, GlobalUserState, Join, Message, MessageParseError, Notice,
    Part, Ping, Pong, Privmsg, RoomState, Subscriber, User, UserNotice, UserState, Whisper,
};

verus! {

broadcast use vstd::utf8::group_utf8_lib;

/// `'\\'`
pub const BACKSLASH: u8 = 92;

/// The first byte of `v`'s encoding that is a `\`.
pub open spec fn first_backslash(v: Seq<char>) -> Option<int> {
    index_of(bytes_of(v), 0, bytes_of(v).len() as int, BACKSLASH)
}

/// What [`maybe_unescape`] returns: `v` itself if it holds no `\`, else its part
/// before the first `\` followed by the unescaped rest.
pub open spec fn maybe_unescaped(v: Seq<char>) -> Seq<char> {
    match first_backslash(v) {
        Some(i) => text_at(bytes_of(v), 0, i) + unescaped(
            text_at(bytes_of(v), i, bytes_of(v).len() as int),
        ),
        None => v,
    }
}

/// Checks if `value` needs to be unescaped by looking for escaped characters.
///
/// If it must be unescaped, then it must reallocate and will return an owned string.
/// Otherwise, it returns a borrow of the original `value`.
pub fn maybe_unescape<'a>(value: Cow<'a, str>) -> (r: Cow<'a, str>)
    ensures
        r@ == maybe_unescaped(value@),
        first_backslash(value@) is None ==> r == value,
        first_backslash(value@) is Some ==> r is Owned,
{
    proof {
        lemma_index_of(bytes_of(value@), 0, bytes_of(value@).len() as int, BACKSLASH);
    }
    let found = match &value {
        Cow::Borrowed(s) => find_byte(s.as_bytes(), 0, s.as_bytes().len(), BACKSLASH),
        Cow::Owned(s) => find_byte(s.as_str().as_bytes(), 0, s.as_str().as_bytes().len(), BACKSLASH),
    };
    match found {
        Some(i) => {
            let out = match &value {
                Cow::Borrowed(s) => actually_unescape(s, i),
                Cow::Owned(s) => actually_unescape(s.as_str(), i),
            };
            Cow::Owned(out)
        },
        None => value,
    }
}

/// `input[..start]`, followed by the unescaped `input[start..]`.
fn actually_unescape(input: &str, start: usize) -> (r: String)
    requires
        first_backslash(input@) == Some(start as int),
    ensures
        r@ == maybe_unescaped(input@),
{
    let ghost b = bytes_of(input@);
    proof {
        lemma_index_of(b, 0, b.len() as int, BACKSLASH);
        lemma_ascii_boundary(b, start as int);
        lemma_ends_boundary(b);
    }
    let head = substr(input, 0, start);
    let tail = substr(input, start, input.as_bytes().len());
    let mut out = String::from_str(head);
    unescape_into(&mut out, tail);
    out
}

/// The characters of `v` before its first `\\`, or all of them where it has none.
pub open spec fn before_backslash(v: Seq<char>) -> Seq<char> {
    match char_index(v, '\\', 0) {
        Some(k) => v.take(k),
        None => v,
    }
}

/// Where no `⸝` comes before the first `\\`, [`maybe_unescape`] gives what unescaping
/// the whole value gives.
pub proof fn lemma_maybe_unescape_is_unescape(v: Seq<char>)
    requires
        !before_backslash(v).contains('⸝'),
    ensures
        maybe_unescaped(v) == unescaped(v),
{
    assert(('\\' as u32) as u8 == BACKSLASH);
    lemma_first_ascii(v, '\\');
    lemma_char_index(v, '\\', 0);
    match char_index(v, '\\', 0) {
        Some(k) => {
            let a = v.take(k);
            let b = v.skip(k);
            assert(v =~= a + b);
            lemma_encode_concat(a, b);
            let bytes = bytes_of(v);
            let i = bytes_of(a).len() as int;
            assert(bytes.subrange(0, i) =~= bytes_of(a));
            assert(bytes.subrange(i, bytes.len() as int) =~= bytes_of(b));
            vstd::utf8::encode_utf8_decode_utf8(a);
            vstd::utf8::encode_utf8_decode_utf8(b);
            assert forall|j: int| 0 <= j < a.len() implies a[j] != '\\' && a[j] != '⸝' by {
                if a[j] == '⸝' {
                    assert(a.contains('⸝'));
                }
            }
            lemma_unescape_plain_prefix(a, b);
        },
        None => {
            assert forall|j: int| 0 <= j < v.len() implies v[j] != '\\' && v[j] != '⸝' by {
                if v[j] == '⸝' {
                    assert(v.contains('⸝'));
                }
            }
            lemma_unescape_plain_prefix(v, Seq::<char>::empty());
            assert(v + Seq::<char>::empty() =~= v);
            assert(unescaped(Seq::<char>::empty()) =~= Seq::<char>::empty());
        },
    }
}

} // verus!
