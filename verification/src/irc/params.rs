//! Message params: everything after the command and the channel.
use vstd::prelude::*;
use vstd::utf8::is_char_boundary;
use crate::common::{span, span_ok, Span};
use crate::text::{bytes_of, lemma_ends_boundary};

verus! {

broadcast use vstd::utf8::group_utf8_lib;

/// What [`parse`] finds at `pos`: the rest of the message, unless it is empty.
pub open spec fn spec_parse_params(b: Seq<u8>, pos: int) -> Option<Span> {
    if 0 <= pos < b.len() {
        Some(span(pos, b.len() as int))
    } else {
        None
    }
}

/// The rest of the message from `pos`, if it is not empty.
pub fn parse(src: &str, pos: &usize) -> (r: Option<Span>)
    requires
        bytes_of(src@).len() <= u32::MAX,
        *pos <= bytes_of(src@).len(),
        is_char_boundary(bytes_of(src@), *pos as int),
    ensures
        r == spec_parse_params(bytes_of(src@), *pos as int),
        r matches Some(sp) ==> span_ok(bytes_of(src@), sp),
{
    let len = src.as_bytes().len();
    proof {
        lemma_ends_boundary(bytes_of(src@));
    }
    if *pos < len {
        Some(Span::new(*pos as u32, len as u32))
    } else {
        None
    }
}

} // verus!
