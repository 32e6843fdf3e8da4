//! The `PING` message.
use std::borrow::Cow;
use vstd::prelude::*;
use crate::irc::prefix::opt_view;
use crate::irc::{Command, IrcMessageRef};
use crate::msg::{opt_borrowed, opt_cow_str, opt_cow_view, MessageParseError};

use crate::msg::{copy_opt_cow};
verus! {

/// Sent regularly by TMI to ensure clients are still live.
/// You must respond to TMI pings with a [`Pong`](crate::msg::Pong).
///
/// TMI will also respond with a pong if you send it a ping,
/// combined with the [`Ping::nonce`], this can be useful
/// to measure round-trip latency.
#[derive(Debug, PartialEq, Eq)]
pub struct Ping<'src> {
    nonce: Option<Cow<'src, str>>,
}

impl<'src> View for Ping<'src> {
    type V = Option<Seq<char>>;

    closed spec fn view(&self) -> Option<Seq<char>> {
        opt_cow_view(self.nonce)
    }
}

/// What a `PING` message says: its text, if it has any, is the nonce.
pub open spec fn ping_of(m: IrcMessageRef) -> Option<Option<Seq<char>>> {
    if m.spec_command() is Ping {
        Some(m.spec_text())
    } else {
        None
    }
}

impl<'src> Ping<'src> {
    /// Unique string sent with this ping.
    pub fn nonce(&self) -> (r: Option<&str>)
        ensures
            opt_view(r) == self@,
    {
        opt_cow_str(&self.nonce)
    }

    fn parse(message: &IrcMessageRef<'src>) -> (r: Option<Self>)
        ensures
            match ping_of(*message) {
                Some(v) => r matches Some(x) && x@ == v,
                None => r is None,
            },
    {
        if !matches!(message.command(), Command::Ping) {
            return None;
        }
        Some(Ping { nonce: opt_borrowed(message.text()) })
    }
}

impl<'src> crate::msg::sealed::Sealed for Ping<'src> {
}

impl<'src> crate::msg::FromIrc<'src> for Ping<'src> {
    open spec fn accepts(message: IrcMessageRef<'src>) -> bool {
        true
    }

    fn from_irc(message: IrcMessageRef<'src>) -> (r: Result<Self, MessageParseError>)
        ensures
            match ping_of(message) {
                Some(v) => r matches Ok(x) && x@ == v,
                None => r is Err,
            },
    {
        match Self::parse(&message) {
            Some(x) => Ok(x),
            None => Err(MessageParseError),
        }
    }
}

impl<'src> Clone for Ping<'src> {
    fn clone(&self) -> (r: Self)
        ensures
            r@ == self@,
    {
        Ping {
            nonce: copy_opt_cow(&self.nonce),
        }
    }
}

} // verus!
