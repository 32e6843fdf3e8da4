//! Sent when a user leaves a channel.
use vstd::prelude::*;
use crate::common::ChannelRef;
use crate::irc::{Command, IrcMessageRef};
use crate::msg::MessageParseError;

verus! {

/// Sent when a user leaves a channel.
#[derive(Debug, Clone, Copy)]
pub struct Part<'src> {
    channel: ChannelRef<'src>,
    user: &'src str,
}

impl<'src> View for Part<'src> {
    type V = (Seq<char>, Seq<char>);

    closed spec fn view(&self) -> (Seq<char>, Seq<char>) {
        (self.channel.name(), self.user@)
    }
}

/// What a `PART` message says: the channel and the nick of its prefix.
pub open spec fn part_of(m: IrcMessageRef) -> Option<(Seq<char>, Seq<char>)> {
    if m.spec_command() is Part {
        match (m.spec_channel(), m.spec_nick()) {
            (Some(c), Some(u)) => Some((c, u)),
            _ => None,
        }
    } else {
        None
    }
}

impl<'src> Part<'src> {
    /// Parted channel name.
    pub fn channel(&self) -> (r: ChannelRef<'src>)
        ensures
            r.name() == self@.0,
    {
        self.channel
    }

    /// Login of the user.
    pub fn user(&self) -> (r: &'src str)
        ensures
            r@ == self@.1,
    {
        self.user
    }

    fn parse(message: &IrcMessageRef<'src>) -> (r: Option<Self>)
        ensures
            match part_of(*message) {
                Some(v) => r matches Some(x) && x@ == v,
                None => r is None,
            },
    {
        if !matches!(message.command(), Command::Part) {
            return None;
        }
        let channel = match message.channel() {
            Some(c) => c,
            None => return None,
        };
        let user = match message.prefix() {
            Some(p) => match p.nick {
                Some(n) => n,
                None => return None,
            },
            None => return None,
        };
        Some(Part { channel: ChannelRef::from_unchecked(channel), user })
    }
}

/// A `PART` reads exactly where it has a channel and a nick: the channel left and the
/// user who left.
pub proof fn lemma_part_fields(m: IrcMessageRef)
    ensures
        part_of(m) is Some <==> (m.spec_command() is Part && m.spec_channel() is Some && m.spec_nick() is Some),
        part_of(m) matches Some(v) ==> m.spec_channel() == Some(v.0) && m.spec_nick() == Some(v.1),
{
}

impl<'src> crate::msg::sealed::Sealed for Part<'src> {
}

impl<'src> crate::msg::FromIrc<'src> for Part<'src> {
    open spec fn accepts(message: IrcMessageRef<'src>) -> bool {
        true
    }

    fn from_irc(message: IrcMessageRef<'src>) -> (r: Result<Self, MessageParseError>)
        ensures
            match part_of(message) {
                Some(v) => r matches Ok(x) && x@ == v,
                None => r is Err,
            },
    {
        match Self::parse(&message) {
            Some(x) => Ok(x),
            None => Err(MessageParseError),
        }
    }
}

} // verus!
