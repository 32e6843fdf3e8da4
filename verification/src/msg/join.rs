//! Sent when a user joins a channel.
use std::borrow::Cow;
use vstd::prelude::*;
use crate::irc::{Command, IrcMessageRef};
use crate::msg::{cow_str, MessageParseError};

use crate::msg::{copy_cow};
verus! {

/// Sent when a user joins a channel.
#[derive(Debug, PartialEq, Eq)]
pub struct Join<'src> {
    channel: Cow<'src, str>,
    user: Cow<'src, str>,
}

impl<'src> View for Join<'src> {
    type V = (Seq<char>, Seq<char>);

    closed spec fn view(&self) -> (Seq<char>, Seq<char>) {
        (self.channel@, self.user@)
    }
}

/// What a `JOIN` message says: the channel and the nick of its prefix.
pub open spec fn join_of(m: IrcMessageRef) -> Option<(Seq<char>, Seq<char>)> {
    if m.spec_command() is Join {
        match (m.spec_channel(), m.spec_nick()) {
            (Some(c), Some(u)) => Some((c, u)),
            _ => None,
        }
    } else {
        None
    }
}

impl<'src> Join<'src> {
    /// Joined channel name.
    pub fn channel(&self) -> (r: &str)
        ensures
            r@ == self@.0,
    {
        cow_str(&self.channel)
    }

    /// Login of the user.
    pub fn user(&self) -> (r: &str)
        ensures
            r@ == self@.1,
    {
        cow_str(&self.user)
    }

    fn parse(message: &IrcMessageRef<'src>) -> (r: Option<Self>)
        ensures
            match join_of(*message) {
                Some(v) => r matches Some(x) && x@ == v,
                None => r is None,
            },
    {
        if !matches!(message.command(), Command::Join) {
            return None;
        }
        let channel = match message.channel() {
            Some(c) => c,
            None => return None,
        };
        let user = match message.prefix() {
            Some(p) => match p.nick {
                Some(n) => n,
                None => return None,
            },
            None => return None,
        };
        Some(Join { channel: Cow::Borrowed(channel), user: Cow::Borrowed(user) })
    }
}

/// A `JOIN` reads exactly where it has a channel and a nick: the channel joined and the
/// user who joined.
pub proof fn lemma_join_fields(m: IrcMessageRef)
    ensures
        join_of(m) is Some <==> (m.spec_command() is Join && m.spec_channel() is Some && m.spec_nick() is Some),
        join_of(m) matches Some(v) ==> m.spec_channel() == Some(v.0) && m.spec_nick() == Some(v.1),
{
}

impl<'src> crate::msg::sealed::Sealed for Join<'src> {
}

impl<'src> crate::msg::FromIrc<'src> for Join<'src> {
    open spec fn accepts(message: IrcMessageRef<'src>) -> bool {
        true
    }

    fn from_irc(message: IrcMessageRef<'src>) -> (r: Result<Self, MessageParseError>)
        ensures
            match join_of(message) {
                Some(v) => r matches Ok(x) && x@ == v,
                None => r is Err,
            },
    {
        match Self::parse(&message) {
            Some(x) => Ok(x),
            None => Err(MessageParseError),
        }
    }
}

impl<'src> Clone for Join<'src> {
    fn clone(&self) -> (r: Self)
        ensures
            r@ == self@,
    {
        Join {
            channel: copy_cow(&self.channel),
            user: copy_cow(&self.user),
        }
    }
}

} // verus!
