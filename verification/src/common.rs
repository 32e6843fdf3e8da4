//! Small types used throughout the library.
use vstd::prelude::*;
use vstd::utf8::is_char_boundary;
use vstd::string::StringExecFns;
use crate::strings::strs_view;
use crate::text::{bytes_of, substr, text_at};

pub mod channel;

pub use channel::{Channel, ChannelRef, InvalidChannelName};


verus! {

/// A byte range of a message, like a [`Range`][std::ops::Range] of `u32`.
#[derive(Debug, Clone, Copy, PartialEq, Eq, Structural, PartialOrd, Ord, Hash)]
pub struct Span {
    /// The start index, inclusive.
    pub start: u32,
    /// The end index, exclusive.
    pub end: u32,
}

/// The span from `start` to `end`.
pub open spec fn span(start: int, end: int) -> Span {
    Span { start: start as u32, end: end as u32 }
}

/// `sp` is an ordered range of `b` whose ends are character boundaries.
pub open spec fn span_ok(b: Seq<u8>, sp: Span) -> bool {
    &&& sp.start <= sp.end <= b.len()
    &&& is_char_boundary(b, sp.start as int)
    &&& is_char_boundary(b, sp.end as int)
}

/// The characters that `sp` covers in `b`.
pub open spec fn span_text(b: Seq<u8>, sp: Span) -> Seq<char> {
    text_at(b, sp.start as int, sp.end as int)
}

impl Span {
    /// Builds the span `start..end`.
    pub fn new(start: u32, end: u32) -> (r: Span)
        ensures
            r.start == start,
            r.end == end,
    {
        Span { start, end }
    }

    /// The part of `src` that this span covers.
    pub fn get<'src>(&self, src: &'src str) -> (r: &'src str)
        requires
            span_ok(bytes_of(src@), *self),
        ensures
            r@ == span_text(bytes_of(src@), *self),
    {
        substr(src, self.start as usize, self.end as usize)
    }
}

/// The strings of `v`, with `sep` between each two.
pub open spec fn joined(v: Seq<Seq<char>>, sep: Seq<char>) -> Seq<char>
    decreases v.len(),
{
    if v.len() == 0 {
        Seq::<char>::empty()
    } else if v.len() == 1 {
        v[0]
    } else {
        joined(v.drop_last(), sep) + sep + v.last()
    }
}

/// Strings to be written one after the other, with a separator between each two.
#[derive(Clone, Debug)]
pub struct Join<'a> {
    items: Vec<&'a str>,
    sep: &'a str,
}

impl<'a> Join<'a> {
    /// The strings.
    pub closed spec fn items(self) -> Seq<Seq<char>> {
        strs_view(self.items@)
    }

    /// The separator.
    pub closed spec fn sep(self) -> Seq<char> {
        self.sep@
    }

    /// The strings with the separator between each two.
    pub fn to_string(&self) -> (r: String)
        ensures
            r@ == joined(self.items(), self.sep()),
    {
        let ghost v = strs_view(self.items@);
        let mut s = String::new();
        let mut i: usize = 0;
        while i < self.items.len()
            invariant
                v == strs_view(self.items@),
                i <= self.items@.len(),
                s@ == joined(v.take(i as int), self.sep@),
            decreases self.items@.len() - i,
        {
            if i > 0 {
                s.append(self.sep);
            }
            s.append(self.items[i]);
            proof {
                assert(v.take(i + 1).drop_last() =~= v.take(i as int));
                assert(v.take(i + 1).last() == self.items@[i as int]@);
                if i == 0 {
                    assert(joined(v.take(0), self.sep@) =~= Seq::<char>::empty());
                }
            }
            i = i + 1;
            assert(s@ =~= joined(v.take(i as int), self.sep@));
        }
        assert(v.take(i as int) =~= v);
        s
    }
}

/// Joins strings with a separator.
pub trait JoinIter<'a>: Sized {
    /// The strings of `self`, to be written with `sep` between each two.
    fn join(self, sep: &'a str) -> Join<'a>;
}

impl<'a> JoinIter<'a> for Vec<&'a str> {
    fn join(self, sep: &'a str) -> (r: Join<'a>)
        ensures
            r.items() == strs_view(self@),
            r.sep() == sep@,
    {
        Join { items: self, sep }
    }
}

} // verus!
