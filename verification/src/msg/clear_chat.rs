//! Sent when the chat is cleared of a batch of messages.
use std::borrow::Cow;
use vstd::prelude::*;
use crate::common::ChannelRef;
use crate::irc::prefix::opt_view;
use crate::irc::tags::tag_name;
use crate::irc::{lookup, Command, IrcMessageRef, Layout, Tag};
use crate::msg::room_state::{duration_fits, MAX_DURATION_SECS};
use crate::msg::time::{parse_opt_timestamp, timestamp_value};
use crate::msg::{cow_str, parse_signed_number, signed_value, tag_value, MessageParseError};

use crate::msg::{copy_cow};
verus! {

/// What a [`ClearChat`] does.
pub enum ActionView {
    /// The whole chat is cleared.
    Clear,
    /// A user is banned: login and id.
    Ban(Seq<char>, Seq<char>),
    /// A user is timed out: login, id and seconds.
    TimeOut(Seq<char>, Seq<char>, i64),
}

/// What a `CLEARCHAT` message holds.
pub struct ClearChatView {
    /// The channel.
    pub channel: Seq<char>,
    /// The `room-id` tag.
    pub channel_id: Seq<char>,
    /// What was cleared.
    pub action: ActionView,
    /// The `tmi-sent-ts` tag, in milliseconds.
    pub timestamp: i64,
}

/// Sent when the chat is cleared of a batch of messages.
#[derive(Debug)]
pub struct ClearChat<'src> {
    channel: ChannelRef<'src>,
    channel_id: Cow<'src, str>,
    action: Action<'src>,
    timestamp: i64,
}

/// The specific kind of [`ClearChat`] event.
#[derive(Debug)]
pub enum Action<'src> {
    /// The entire chat was cleared.
    Clear,
    /// A single user was banned.
    Ban(Ban<'src>),
    /// A single user was timed out.
    TimeOut(TimeOut<'src>),
}

/// A single user was banned.
#[derive(Debug)]
pub struct Ban<'src> {
    user: Cow<'src, str>,
    id: Cow<'src, str>,
}

/// A single user was timed out.
#[derive(Debug)]
pub struct TimeOut<'src> {
    user: Cow<'src, str>,
    id: Cow<'src, str>,
    duration: i64,
}

impl<'src> View for Ban<'src> {
    type V = (Seq<char>, Seq<char>);

    closed spec fn view(&self) -> (Seq<char>, Seq<char>) {
        (self.user@, self.id@)
    }
}

impl<'src> View for TimeOut<'src> {
    type V = (Seq<char>, Seq<char>, i64);

    closed spec fn view(&self) -> (Seq<char>, Seq<char>, i64) {
        (self.user@, self.id@, self.duration)
    }
}

impl<'src> View for Action<'src> {
    type V = ActionView;

    open spec fn view(&self) -> ActionView {
        match self {
            Action::Clear => ActionView::Clear,
            Action::Ban(b) => ActionView::Ban(b@.0, b@.1),
            Action::TimeOut(t) => ActionView::TimeOut(t@.0, t@.1, t@.2),
        }
    }
}

impl<'src> View for ClearChat<'src> {
    type V = ClearChatView;

    closed spec fn view(&self) -> ClearChatView {
        ClearChatView {
            channel: self.channel.name(),
            channel_id: self.channel_id@,
            action: self.action@,
            timestamp: self.timestamp,
        }
    }
}

/// The action of a `CLEARCHAT` message: with no text the whole chat is cleared; with a
/// text (the login) and a `ban-duration` that reads as a signed number of seconds, a
/// time-out; with a text and no such duration, a ban. A ban or a time-out needs the
/// `target-user-id` tag.
pub open spec fn action_of(m: IrcMessageRef) -> Option<ActionView> {
    match m.spec_text() {
        Some(name) => match tag_value(m, Tag::TargetUserId) {
            Some(id) => match signed_value(tag_value(m, Tag::BanDuration)) {
                Some(d) => Some(ActionView::TimeOut(name, id, d)),
                None => Some(ActionView::Ban(name, id)),
            },
            None => None,
        },
        None => Some(ActionView::Clear),
    }
}

/// The `ban-duration` that the tag pairs `l.tags` of the message `b` give fits in a
/// `chrono` duration wherever it is read: a `CLEARCHAT` with a channel and a `room-id`
/// turns it into a duration, which fails outside `chrono`'s range.
pub open spec fn tags_ban_fits(b: Seq<u8>, l: Layout) -> bool {
    (l.channel is Some && lookup(b, l.tags, tag_name(Tag::RoomId)) is Some) ==> match signed_value(
        lookup(b, l.tags, tag_name(Tag::BanDuration)),
    ) {
        Some(n) => -MAX_DURATION_SECS <= n <= MAX_DURATION_SECS,
        None => true,
    }
}

/// The `ban-duration` of a `CLEARCHAT` message fits in a `chrono` duration.
pub open spec fn ban_duration_fits(m: IrcMessageRef) -> bool {
    tags_ban_fits(m.bytes(), m.layout())
}

/// What a `CLEARCHAT` message says; it needs a channel and the `room-id` and `tmi-sent-ts` tags.
pub open spec fn clear_chat_of(m: IrcMessageRef) -> Option<ClearChatView> {
    if m.spec_command() is Clearchat {
        match (m.spec_channel(), tag_value(m, Tag::RoomId), action_of(m), timestamp_value(tag_value(m, Tag::TmiSentTs))) {
            (Some(channel), Some(channel_id), Some(action), Some(timestamp)) => Some(
                ClearChatView { channel, channel_id, action, timestamp },
            ),
            _ => None,
        }
    } else {
        None
    }
}

impl<'src> Action<'src> {
    /// Whether the entire chat was cleared.
    pub fn is_clear(&self) -> (r: bool)
        ensures
            r == (self@ is Clear),
    {
        matches!(self, Action::Clear)
    }

    /// Whether a single user was banned.
    pub fn is_ban(&self) -> (r: bool)
        ensures
            r == (self@ is Ban),
    {
        matches!(self, Action::Ban(..))
    }

    /// Whether a single user was timed out.
    pub fn is_time_out(&self) -> (r: bool)
        ensures
            r == (self@ is TimeOut),
    {
        matches!(self, Action::TimeOut(..))
    }
}

impl<'src> Ban<'src> {
    /// Login of the banned user.
    pub fn user(&self) -> (r: &str)
        ensures
            r@ == self@.0,
    {
        cow_str(&self.user)
    }

    /// ID of the banned user.
    pub fn id(&self) -> (r: &str)
        ensures
            r@ == self@.1,
    {
        cow_str(&self.id)
    }
}

impl<'src> TimeOut<'src> {
    /// Login of the timed out user.
    pub fn user(&self) -> (r: &str)
        ensures
            r@ == self@.0,
    {
        cow_str(&self.user)
    }

    /// ID of the timed out user.
    pub fn id(&self) -> (r: &str)
        ensures
            r@ == self@.1,
    {
        cow_str(&self.id)
    }

    /// Duration of the time out, in seconds.
    pub fn duration(&self) -> (r: i64)
        ensures
            r == self@.2,
    {
        self.duration
    }
}

impl<'src> ClearChat<'src> {
    /// Tests whether the `ban-duration` of `message` fits; where it does not, a
    /// `CLEARCHAT` message cannot be read.
    pub fn ban_duration_fits(message: &IrcMessageRef<'src>) -> (r: bool)
        ensures
            r == ban_duration_fits(*message),
    {
        if message.channel().is_none() || message.tag(Tag::RoomId).is_none() {
            return true;
        }
        match parse_signed_number(message.tag(Tag::BanDuration)) {
            Some(n) => duration_fits(n),
            None => true,
        }
    }

    /// Name of the affected channel.
    pub fn channel(&self) -> (r: ChannelRef<'src>)
        ensures
            r.name() == self@.channel,
    {
        self.channel
    }

    /// ID of the affected channel.
    pub fn channel_id(&self) -> (r: &str)
        ensures
            r@ == self@.channel_id,
    {
        cow_str(&self.channel_id)
    }

    /// The specific kind of event.
    pub fn action(&self) -> (r: &Action<'src>)
        ensures
            r@ == self@.action,
    {
        &self.action
    }

    /// Time at which the message was sent, in milliseconds since the Unix epoch.
    pub fn timestamp(&self) -> (r: i64)
        ensures
            r == self@.timestamp,
    {
        self.timestamp
    }

    /// Target of this event: the login of the banned or timed out user, or
    /// [`None`] where the whole chat was cleared.
    pub fn target(&self) -> (r: Option<&str>)
        ensures
            opt_view(r) == match self@.action {
                ActionView::Clear => None,
                ActionView::Ban(user, _) => Some(user),
                ActionView::TimeOut(user, _, _) => Some(user),
            },
    {
        match &self.action {
            Action::Clear => None,
            Action::Ban(b) => Some(b.user()),
            Action::TimeOut(t) => Some(t.user()),
        }
    }

    fn parse_action(message: &IrcMessageRef<'src>) -> (r: Option<Action<'src>>)
        ensures
            match action_of(*message) {
                Some(v) => r matches Some(x) && x@ == v,
                None => r is None,
            },
    {
        match message.text() {
            Some(name) => {
                let id = match message.tag(Tag::TargetUserId) {
                    Some(x) => x,
                    None => return None,
                };
                match parse_signed_number(message.tag(Tag::BanDuration)) {
                    Some(duration) => Some(
                        Action::TimeOut(TimeOut { user: Cow::Borrowed(name), id: Cow::Borrowed(id), duration }),
                    ),
                    None => Some(Action::Ban(Ban { user: Cow::Borrowed(name), id: Cow::Borrowed(id) })),
                }
            },
            None => Some(Action::Clear),
        }
    }

    fn parse(message: &IrcMessageRef<'src>) -> (r: Option<Self>)
        ensures
            match clear_chat_of(*message) {
                Some(v) => r matches Some(x) && x@ == v,
                None => r is None,
            },
    {
        if !matches!(message.command(), Command::ClearChat) {
            return None;
        }
        let channel = match message.channel() {
            Some(x) => x,
            None => return None,
        };
        let channel_id = match message.tag(Tag::RoomId) {
            Some(x) => x,
            None => return None,
        };
        let action = match Self::parse_action(message) {
            Some(x) => x,
            None => return None,
        };
        let timestamp = match parse_opt_timestamp(message.tag(Tag::TmiSentTs)) {
            Some(x) => x,
            None => return None,
        };
        Some(ClearChat {
            channel: ChannelRef::from_unchecked(channel),
            channel_id: Cow::Borrowed(channel_id),
            action,
            timestamp,
        })
    }
}

/// A `CLEARCHAT` message reads exactly where it has a channel, a `room-id` tag, a
/// `tmi-sent-ts` timestamp and, where it names a user in its text, a `target-user-id` tag.
/// Without a text it clears the chat; with one, it bans that user, or times them out for
/// the seconds of the `ban-duration` tag where that tag holds a number.
pub proof fn lemma_clear_chat_fields(m: IrcMessageRef)
    ensures
        clear_chat_of(m) is Some <==> (m.spec_command() is Clearchat && m.spec_channel() is Some
            && m.spec_tag("room-id"@) is Some && timestamp_value(m.spec_tag("tmi-sent-ts"@)) is Some && (
        m.spec_text() is Some ==> m.spec_tag("target-user-id"@) is Some)),
        clear_chat_of(m) matches Some(v) ==> {
            &&& m.spec_channel() == Some(v.channel)
            &&& m.spec_tag("room-id"@) == Some(v.channel_id)
            &&& timestamp_value(m.spec_tag("tmi-sent-ts"@)) == Some(v.timestamp)
            &&& m.spec_text() is None ==> v.action == ActionView::Clear
            &&& m.spec_text() matches Some(name) ==> match signed_value(m.spec_tag("ban-duration"@)) {
                Some(d) => v.action == ActionView::TimeOut(name, m.spec_tag("target-user-id"@)->0, d),
                None => v.action == ActionView::Ban(name, m.spec_tag("target-user-id"@)->0),
            }
        },
{
}

impl<'src> crate::msg::sealed::Sealed for ClearChat<'src> {
}

impl<'src> crate::msg::FromIrc<'src> for ClearChat<'src> {
    open spec fn accepts(message: IrcMessageRef<'src>) -> bool {
        ban_duration_fits(message)
    }

    fn from_irc(message: IrcMessageRef<'src>) -> (r: Result<Self, MessageParseError>)
        ensures
            match clear_chat_of(message) {
                Some(v) => r matches Ok(x) && x@ == v,
                None => r is Err,
            },
    {
        match Self::parse(&message) {
            Some(x) => Ok(x),
            None => Err(MessageParseError),
        }
    }
}

impl<'src> Clone for Ban<'src> {
    fn clone(&self) -> (r: Self)
        ensures
            r@ == self@,
    {
        Ban {
            user: copy_cow(&self.user),
            id: copy_cow(&self.id),
        }
    }
}

impl<'src> Clone for TimeOut<'src> {
    fn clone(&self) -> (r: Self)
        ensures
            r@ == self@,
    {
        TimeOut {
            user: copy_cow(&self.user),
            id: copy_cow(&self.id),
            duration: self.duration,
        }
    }
}

impl<'src> Clone for Action<'src> {
    fn clone(&self) -> (r: Self)
        ensures
            r@ == self@,
    {
        match self {
            Action::Clear => Action::Clear,
            Action::Ban(x) => Action::Ban(x.clone()),
            Action::TimeOut(x) => Action::TimeOut(x.clone()),
        }
    }
}

impl<'src> Clone for ClearChat<'src> {
    fn clone(&self) -> (r: Self)
        ensures
            r@ == self@,
    {
        ClearChat {
            channel: self.channel,
            channel_id: copy_cow(&self.channel_id),
            action: self.action.clone(),
            timestamp: self.timestamp,
        }
    }
}

} // verus!
