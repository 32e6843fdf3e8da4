//! Sent when a single message is deleted.
use std::borrow::Cow;
use vstd::prelude::*;
use crate::irc::{Command, IrcMessageRef, Tag};
use crate::msg::time::{parse_opt_timestamp, timestamp_value};
use crate::msg::{cow_str, message_text, owned_cow, parse_message_text, tag_value, MessageParseError};

use crate::msg::{copy_cow};
verus! {

/// What a `CLEARMSG` message holds.
pub struct ClearMsgView {
    /// The channel.
    pub channel: Seq<char>,
    /// The `room-id` tag.
    pub channel_id: Seq<char>,
    /// The `login` tag.
    pub sender: Seq<char>,
    /// The `target-msg-id` tag.
    pub target_message_id: Seq<char>,
    /// The text, without the `/me` wrapping.
    pub text: Seq<char>,
    /// Whether the text was sent with `/me`.
    pub is_action: bool,
    /// The `tmi-sent-ts` tag, in milliseconds.
    pub timestamp: i64,
}

/// Sent when a single message is deleted.
#[derive(Debug, PartialEq, Eq)]
pub struct ClearMsg<'src> {
    channel: Cow<'src, str>,
    channel_id: Cow<'src, str>,
    sender: Cow<'src, str>,
    target_message_id: Cow<'src, str>,
    text: Cow<'src, str>,
    is_action: bool,
    timestamp: i64,
}

impl<'src> View for ClearMsg<'src> {
    type V = ClearMsgView;

    closed spec fn view(&self) -> ClearMsgView {
        ClearMsgView {
            channel: self.channel@,
            channel_id: self.channel_id@,
            sender: self.sender@,
            target_message_id: self.target_message_id@,
            text: self.text@,
            is_action: self.is_action,
            timestamp: self.timestamp,
        }
    }
}

/// What a `CLEARMSG` message says; it needs a text, a channel, and the `room-id`,
/// `login`, `target-msg-id` and `tmi-sent-ts` tags.
pub open spec fn clear_msg_of(m: IrcMessageRef) -> Option<ClearMsgView> {
    if m.spec_command() is Clearmsg {
        match (
            m.spec_text(),
            m.spec_channel(),
            tag_value(m, Tag::RoomId),
            tag_value(m, Tag::Login),
            tag_value(m, Tag::TargetMsgId),
            timestamp_value(tag_value(m, Tag::TmiSentTs)),
        ) {
            (Some(t), Some(channel), Some(channel_id), Some(sender), Some(target_message_id), Some(timestamp)) => Some(
                ClearMsgView {
                    channel,
                    channel_id,
                    sender,
                    target_message_id,
                    text: message_text(t).0,
                    is_action: message_text(t).1,
                    timestamp,
                },
            ),
            _ => None,
        }
    } else {
        None
    }
}

impl<'src> ClearMsg<'src> {
    /// Login of the channel in which the message was deleted.
    pub fn channel(&self) -> (r: &str)
        ensures
            r@ == self@.channel,
    {
        cow_str(&self.channel)
    }

    /// ID of the channel in which the message was deleted.
    pub fn channel_id(&self) -> (r: &str)
        ensures
            r@ == self@.channel_id,
    {
        cow_str(&self.channel_id)
    }

    /// Login of the user who sent the deleted message.
    pub fn sender(&self) -> (r: &str)
        ensures
            r@ == self@.sender,
    {
        cow_str(&self.sender)
    }

    /// Unique ID of the deleted message.
    pub fn target_message_id(&self) -> (r: &str)
        ensures
            r@ == self@.target_message_id,
    {
        cow_str(&self.target_message_id)
    }

    /// Text of the deleted message.
    pub fn text(&self) -> (r: &str)
        ensures
            r@ == self@.text,
    {
        cow_str(&self.text)
    }

    /// Whether the deleted message was sent with `/me`.
    pub fn is_action(&self) -> (r: bool)
        ensures
            r == self@.is_action,
    {
        self.is_action
    }

    /// Time at which the message was sent, in milliseconds since the Unix epoch.
    pub fn timestamp(&self) -> (r: i64)
        ensures
            r == self@.timestamp,
    {
        self.timestamp
    }

    /// Clone data to give the value a `'static` lifetime.
    pub fn into_owned(self) -> (r: ClearMsg<'static>)
        ensures
            r@ == self@,
    {
        ClearMsg {
            channel: owned_cow(self.channel),
            channel_id: owned_cow(self.channel_id),
            sender: owned_cow(self.sender),
            target_message_id: owned_cow(self.target_message_id),
            text: owned_cow(self.text),
            is_action: self.is_action,
            timestamp: self.timestamp,
        }
    }

    fn parse(message: &IrcMessageRef<'src>) -> (r: Option<Self>)
        ensures
            match clear_msg_of(*message) {
                Some(v) => r matches Some(x) && x@ == v,
                None => r is None,
            },
    {
        if !matches!(message.command(), Command::ClearMsg) {
            return None;
        }
        let (text, is_action) = match message.text() {
            Some(t) => parse_message_text(t),
            None => return None,
        };
        let channel = match message.channel() {
            Some(x) => x,
            None => return None,
        };
        let channel_id = match message.tag(Tag::RoomId) {
            Some(x) => x,
            None => return None,
        };
        let sender = match message.tag(Tag::Login) {
            Some(x) => x,
            None => return None,
        };
        let target_message_id = match message.tag(Tag::TargetMsgId) {
            Some(x) => x,
            None => return None,
        };
        let timestamp = match parse_opt_timestamp(message.tag(Tag::TmiSentTs)) {
            Some(x) => x,
            None => return None,
        };
        Some(ClearMsg {
            channel: Cow::Borrowed(channel),
            channel_id: Cow::Borrowed(channel_id),
            sender: Cow::Borrowed(sender),
            target_message_id: Cow::Borrowed(target_message_id),
            text: Cow::Borrowed(text),
            is_action,
            timestamp,
        })
    }
}

/// A `CLEARMSG` message reads exactly where it has a text, a channel, the `room-id`,
/// `login` and `target-msg-id` tags and a `tmi-sent-ts` timestamp; the sender is the
/// `login` tag and the deleted message the `target-msg-id` tag.
pub proof fn lemma_clear_msg_fields(m: IrcMessageRef)
    ensures
        clear_msg_of(m) is Some <==> (m.spec_command() is Clearmsg && m.spec_text() is Some
            && m.spec_channel() is Some && m.spec_tag("room-id"@) is Some && m.spec_tag("login"@) is Some
            && m.spec_tag("target-msg-id"@) is Some && timestamp_value(m.spec_tag("tmi-sent-ts"@)) is Some),
        clear_msg_of(m) matches Some(v) ==> {
            &&& m.spec_channel() == Some(v.channel)
            &&& m.spec_tag("room-id"@) == Some(v.channel_id)
            &&& m.spec_tag("login"@) == Some(v.sender)
            &&& m.spec_tag("target-msg-id"@) == Some(v.target_message_id)
            &&& timestamp_value(m.spec_tag("tmi-sent-ts"@)) == Some(v.timestamp)
            &&& (v.text, v.is_action) == message_text(m.spec_text()->0)
        },
{
}

impl<'src> crate::msg::sealed::Sealed for ClearMsg<'src> {
}

impl<'src> crate::msg::FromIrc<'src> for ClearMsg<'src> {
    open spec fn accepts(message: IrcMessageRef<'src>) -> bool {
        true
    }

    fn from_irc(message: IrcMessageRef<'src>) -> (r: Result<Self, MessageParseError>)
        ensures
            match clear_msg_of(message) {
                Some(v) => r matches Ok(x) && x@ == v,
                None => r is Err,
            },
    {
        match Self::parse(&message) {
            Some(x) => Ok(x),
            None => Err(MessageParseError),
        }
    }
}

impl<'src> Clone for ClearMsg<'src> {
    fn clone(&self) -> (r: Self)
        ensures
            r@ == self@,
    {
        ClearMsg {
            channel: copy_cow(&self.channel),
            channel_id: copy_cow(&self.channel_id),
            sender: copy_cow(&self.sender),
            target_message_id: copy_cow(&self.target_message_id),
            text: copy_cow(&self.text),
            is_action: self.is_action,
            timestamp: self.timestamp,
        }
    }
}

} // verus!
