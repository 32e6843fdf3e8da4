//! Channel names.
use vstd::prelude::*;
use vstd::string::*;

verus! {

/// A channel name is a string that begins with `#`.
pub open spec fn is_channel_name(s: Seq<char>) -> bool {
    s.len() > 0 && s[0] == '#'
}

/// Tests whether `s` begins with `c`.
pub fn starts_with_char(s: &str, c: char) -> (r: bool)
    ensures
        r == (s@.len() > 0 && s@[0] == c),
{
    broadcast use vstd::string::group_string_axioms;

    let mut it = s.chars();
    match it.next() {
        Some(first) => first == c,
        None => false,
    }
}

/// Channel name known to be prefixed by `#`, borrowed from a message.
#[derive(Debug, Clone, Copy, PartialEq, Eq, Hash)]
pub struct ChannelRef<'a> {
    inner: &'a str,
}

impl<'a> ChannelRef<'a> {
    /// The channel name.
    pub closed spec fn name(self) -> Seq<char> {
        self.inner@
    }

    /// Get the string value of the channel name.
    pub fn as_str(&self) -> (r: &'a str)
        ensures
            r@ == self.name(),
    {
        self.inner
    }

    /// Parse a string into a channel name.
    ///
    /// The channel name must begin with a `#` character.
    pub fn parse(s: &'a str) -> (r: Result<ChannelRef<'a>, InvalidChannelName>)
        ensures
            r is Ok <==> is_channel_name(s@),
            r matches Ok(c) ==> c.name() == s@,
    {
        if starts_with_char(s, '#') {
            Ok(ChannelRef { inner: s })
        } else {
            Err(InvalidChannelName)
        }
    }

    /// Wraps a string already known to be a channel name.
    pub(crate) fn from_unchecked(s: &'a str) -> (r: ChannelRef<'a>)
        ensures
            r.name() == s@,
    {
        ChannelRef { inner: s }
    }
}

/// Channel name known to be prefixed by `#`.
#[derive(Debug, PartialEq, Eq, Hash)]
pub struct Channel(String);

impl Channel {
    /// The channel name.
    pub closed spec fn name(self) -> Seq<char> {
        self.0@
    }

    /// Get the string value of the channel name.
    pub fn as_str(&self) -> (r: &str)
        ensures
            r@ == self.name(),
    {
        self.0.as_str()
    }

    /// Parse a string into a channel name.
    ///
    /// The channel name must begin with a `#` character.
    pub fn parse(s: String) -> (r: Result<Channel, InvalidChannelName>)
        ensures
            r is Ok <==> is_channel_name(s@),
            r matches Ok(c) ==> c.name() == s@,
    {
        if starts_with_char(s.as_str(), '#') {
            Ok(Channel(s))
        } else {
            Err(InvalidChannelName)
        }
    }

    /// Wraps a string already known to be a channel name.
    pub(crate) fn from_unchecked(s: String) -> (r: Channel)
        ensures
            r.name() == s@,
    {
        Channel(s)
    }

    /// Borrows this name as a [`ChannelRef`].
    pub fn as_channel_ref(&self) -> (r: ChannelRef<'_>)
        ensures
            r.name() == self.name(),
    {
        ChannelRef::from_unchecked(self.0.as_str())
    }
}

/// Failed to parse a channel name.
#[derive(Debug, Clone, Copy, PartialEq, Eq, Structural)]
pub struct InvalidChannelName;

impl InvalidChannelName {
    /// The error message.
    pub fn message(&self) -> (r: &'static str)
        ensures
            r@ == "channel name is missing \"#\" prefix"@,
    {
        "channel name is missing \"#\" prefix"
    }
}

} // verus!
