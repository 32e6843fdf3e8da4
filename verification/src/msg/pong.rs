//! The `PONG` message.
use std::borrow::Cow;
use vstd::prelude::*;
use crate::irc::prefix::opt_view;
use crate::irc::{Command, IrcMessageRef};
use crate::msg::{opt_borrowed, opt_cow_str, opt_cow_view, opt_owned_cow, MessageParseError};

use crate::msg::{copy_opt_cow};
verus! {

/// Sent by TMI as a response to a [`Ping`](crate::msg::Ping).
///
/// If the ping contained a nonce, the same nonce will be set to [`Pong::nonce`].
#[derive(Debug, PartialEq, Eq)]
pub struct Pong<'src> {
    nonce: Option<Cow<'src, str>>,
}

impl<'src> View for Pong<'src> {
    type V = Option<Seq<char>>;

    closed spec fn view(&self) -> Option<Seq<char>> {
        opt_cow_view(self.nonce)
    }
}

/// What a `PONG` message says: its text, if it has any, is the nonce.
pub open spec fn pong_of(m: IrcMessageRef) -> Option<Option<Seq<char>>> {
    if m.spec_command() is Pong {
        Some(m.spec_text())
    } else {
        None
    }
}

impl<'src> Pong<'src> {
    /// Unique string sent with this ping.
    pub fn nonce(&self) -> (r: Option<&str>)
        ensures
            opt_view(r) == self@,
    {
        opt_cow_str(&self.nonce)
    }

    /// Clone data to give the value a `'static` lifetime.
    pub fn into_owned(self) -> (r: Pong<'static>)
        ensures
            r@ == self@,
    {
        Pong { nonce: opt_owned_cow(self.nonce) }
    }

    fn parse(message: &IrcMessageRef<'src>) -> (r: Option<Self>)
        ensures
            match pong_of(*message) {
                Some(v) => r matches Some(x) && x@ == v,
                None => r is None,
            },
    {
        if !matches!(message.command(), Command::Pong) {
            return None;
        }
        Some(Pong { nonce: opt_borrowed(message.text()) })
    }
}

impl<'src> crate::msg::sealed::Sealed for Pong<'src> {
}

impl<'src> crate::msg::FromIrc<'src> for Pong<'src> {
    open spec fn accepts(message: IrcMessageRef<'src>) -> bool {
        true
    }

    fn from_irc(message: IrcMessageRef<'src>) -> (r: Result<Self, MessageParseError>)
        ensures
            match pong_of(message) {
                Some(v) => r matches Ok(x) && x@ == v,
                None => r is Err,
            },
    {
        match Self::parse(&message) {
            Some(x) => Ok(x),
            None => Err(MessageParseError),
        }
    }
}

impl<'src> Clone for Pong<'src> {
    fn clone(&self) -> (r: Self)
        ensures
            r@ == self@,
    {
        Pong {
            nonce: copy_opt_cow(&self.nonce),
        }
    }
}

} // verus!
