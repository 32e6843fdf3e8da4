//! Message channel: `#channel `.
use vstd::prelude::*;
use vstd::utf8::is_char_boundary;
use crate::common::{span, span_ok, Span};
use crate::text::{
    bytes_of, find_byte, index_of, lemma_ascii_boundary, lemma_ends_boundary, lemma_index_of, lemma_index_of_none,
    lemma_index_of_unique,
};

verus! {

broadcast use vstd::utf8::group_utf8_lib;

/// `'#'`
pub const HASH: u8 = 35;
/// `' '`
pub const SPACE: u8 = 32;

/// What [`parse`] finds at `pos`: a word that begins with `#`, up to the next
/// space (or the end), and the position after it.
pub open spec fn spec_parse_channel(b: Seq<u8>, pos: int) -> Option<(Span, int)> {
    if 0 <= pos < b.len() && b[pos] == HASH {
        match index_of(b, pos, b.len() as int, SPACE) {
            Some(e) => Some((span(pos, e), e + 1)),
            None => Some((span(pos, b.len() as int), b.len() as int)),
        }
    } else {
        None
    }
}

/// `#channel <rest>`
///
/// On success, `pos` moves past the space that ends the channel name, or to the end.
pub fn parse(src: &str, pos: &mut usize) -> (r: Option<Span>)
    requires
        bytes_of(src@).len() <= u32::MAX,
        *old(pos) <= bytes_of(src@).len(),
        is_char_boundary(bytes_of(src@), *old(pos) as int),
    ensures
        match spec_parse_channel(bytes_of(src@), *old(pos) as int) {
            Some((sp, next)) => r == Some(sp) && *final(pos) == next,
            None => r is None && *final(pos) == *old(pos),
        },
        r matches Some(sp) ==> span_ok(bytes_of(src@), sp),
        is_char_boundary(bytes_of(src@), *final(pos) as int),
{
    let b = src.as_bytes();
    let ghost bs = b@;
    let start = *pos;
    if start >= b.len() || b[start] != HASH {
        return None;
    }
    proof {
        lemma_index_of(bs, start as int, bs.len() as int, SPACE);
        lemma_ends_boundary(bs);
    }
    match find_byte(b, start, b.len(), SPACE) {
        Some(end) => {
            proof {
                lemma_ascii_boundary(bs, end as int);
            }
            *pos = end + 1;
            Some(Span::new(start as u32, end as u32))
        },
        None => {
            let end = b.len();
            *pos = end;
            Some(Span::new(start as u32, end as u32))
        },
    }
}

/// A channel `#name` at `pos` runs up to the first space after it, which it consumes, or to
/// the end of the message where no space follows.
pub proof fn lemma_channel_word(b: Seq<u8>, pos: int, end: int)
    requires
        0 <= pos < end <= b.len(),
        b[pos] == HASH,
        forall|i: int| pos <= i < end ==> b[i] != SPACE,
        end < b.len() ==> b[end] == SPACE,
    ensures
        spec_parse_channel(b, pos) == Some(
            (span(pos, end), if end < b.len() {
                end + 1
            } else {
                end
            }),
        ),
{
    if end < b.len() {
        lemma_index_of_unique(b, pos, b.len() as int, SPACE, end);
    } else {
        lemma_index_of_none(b, pos, b.len() as int, SPACE);
    }
}

} // verus!
