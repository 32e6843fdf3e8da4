//! Sent by Twitch for various reasons to notify the client about something,
//! usually in response to invalid actions.
use std::borrow::Cow;
use vstd::prelude::*;
use crate::irc::prefix::opt_view;
use crate::irc::{Command, IrcMessageRef, Tag};
use crate::msg::{cow_str, opt_borrowed, opt_cow_str, opt_cow_view, tag_value, MessageParseError};

use crate::msg::{copy_cow, copy_opt_cow};
verus! {

/// Sent by TMI for various reasons to notify the client about something,
/// usually in response to invalid actions.
#[derive(Debug, PartialEq, Eq)]
pub struct Notice<'src> {
    channel: Option<Cow<'src, str>>,
    text: Cow<'src, str>,
    id: Option<Cow<'src, str>>,
}

impl<'src> View for Notice<'src> {
    type V = (Option<Seq<char>>, Seq<char>, Option<Seq<char>>);

    closed spec fn view(&self) -> (Option<Seq<char>>, Seq<char>, Option<Seq<char>>) {
        (opt_cow_view(self.channel), self.text@, opt_cow_view(self.id))
    }
}

/// What a `NOTICE` message says: its channel if any, its text, and its `msg-id` tag if any.
pub open spec fn notice_of(m: IrcMessageRef) -> Option<(Option<Seq<char>>, Seq<char>, Option<Seq<char>>)> {
    if m.spec_command() is Notice {
        match m.spec_text() {
            Some(t) => Some((m.spec_channel(), t, tag_value(m, Tag::MsgId))),
            None => None,
        }
    } else {
        None
    }
}

impl<'src> Notice<'src> {
    /// Target channel name.
    ///
    /// This may be empty before successful login.
    pub fn channel(&self) -> (r: Option<&str>)
        ensures
            opt_view(r) == self@.0,
    {
        opt_cow_str(&self.channel)
    }

    /// Notice message.
    pub fn text(&self) -> (r: &str)
        ensures
            r@ == self@.1,
    {
        cow_str(&self.text)
    }

    /// Notice ID, see <https://dev.twitch.tv/docs/irc/msg-id/>.
    ///
    /// This will only be empty before successful login.
    pub fn id(&self) -> (r: Option<&str>)
        ensures
            opt_view(r) == self@.2,
    {
        opt_cow_str(&self.id)
    }

    fn parse(message: &IrcMessageRef<'src>) -> (r: Option<Self>)
        ensures
            match notice_of(*message) {
                Some(v) => r matches Some(x) && x@ == v,
                None => r is None,
            },
    {
        if !matches!(message.command(), Command::Notice) {
            return None;
        }
        let text = match message.text() {
            Some(t) => t,
            None => return None,
        };
        Some(Notice {
            channel: opt_borrowed(message.channel()),
            text: Cow::Borrowed(text),
            id: opt_borrowed(message.tag(Tag::MsgId)),
        })
    }
}

/// A `NOTICE` reads exactly where it has a text; its channel is the message's channel,
/// if any, and its id the `msg-id` tag.
pub proof fn lemma_notice_fields(m: IrcMessageRef)
    ensures
        notice_of(m) is Some <==> (m.spec_command() is Notice && m.spec_text() is Some),
        notice_of(m) matches Some(v) ==> v == (m.spec_channel(), m.spec_text()->0, m.spec_tag("msg-id"@)),
{
}

impl<'src> crate::msg::sealed::Sealed for Notice<'src> {
}

impl<'src> crate::msg::FromIrc<'src> for Notice<'src> {
    open spec fn accepts(message: IrcMessageRef<'src>) -> bool {
        true
    }

    fn from_irc(message: IrcMessageRef<'src>) -> (r: Result<Self, MessageParseError>)
        ensures
            match notice_of(message) {
                Some(v) => r matches Ok(x) && x@ == v,
                None => r is Err,
            },
    {
        match Self::parse(&message) {
            Some(x) => Ok(x),
            None => Err(MessageParseError),
        }
    }
}

impl<'src> Clone for Notice<'src> {
    fn clone(&self) -> (r: Self)
        ensures
            r@ == self@,
    {
        Notice {
            channel: copy_opt_cow(&self.channel),
            text: copy_cow(&self.text),
            id: copy_opt_cow(&self.id),
        }
    }
}

} // verus!
