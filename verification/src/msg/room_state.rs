//! Sent when a channel's chat settings change, and when joining a channel.
use vstd::prelude::*;
use crate::irc::prefix::opt_view;
use crate::irc::tags::tag_name;
use crate::irc::{lookup, Command, IrcMessageRef, Tag, TagPair};
use crate::msg::{opt_flag, parse_opt_bool, parse_signed_number, signed_value, tag_value, MessageParseError};

verus! {

/// The longest duration that `chrono` holds, in whole seconds: `i64::MAX` milliseconds.
pub const MAX_DURATION_SECS: i64 = 9223372036854775;

/// Whether `chrono` holds a duration of `secs` seconds.
///
/// This is `chrono::TimeDelta::try_seconds(secs).is_some()`, which is `None` exactly when
/// `secs` is more than `i64::MAX / 1_000` or less than `-i64::MAX / 1_000`; there
/// `TimeDelta::seconds` panics.
#[verifier::external_body]
pub(crate) fn duration_fits(secs: i64) -> (r: bool)
    ensures
        r == (-MAX_DURATION_SECS <= secs <= MAX_DURATION_SECS),
{
    chrono::TimeDelta::try_seconds(secs).is_some()
}

/// The followers-only mode of a chat.
#[derive(Clone, Copy, Debug, PartialEq, Eq, Structural)]
pub enum FollowersOnly {
    /// Anyone may chat.
    Disabled,
    /// Only followers may chat; where a duration is given, in seconds, only those who
    /// have followed for at least that long.
    Enabled(Option<i64>),
}

/// Chat settings of a channel.
#[derive(Clone, Copy, Debug)]
pub struct RoomState<'src> {
    /// The channel.
    pub channel: &'src str,
    /// The `room-id` tag.
    pub channel_id: &'src str,
    /// The `emote-only` tag.
    pub emote_only: Option<bool>,
    /// The `followers-only` tag: minutes of following needed, `0` for none, `-1` for disabled.
    pub followers_only: Option<FollowersOnly>,
    /// The `r9k` tag.
    pub r9k: Option<bool>,
    /// The `slow` tag, in seconds.
    pub slow: Option<i64>,
    /// The `subs-only` tag.
    pub subs_only: Option<bool>,
}

/// What a `ROOMSTATE` message holds.
pub struct RoomStateView {
    /// The channel.
    pub channel: Seq<char>,
    /// The `room-id` tag.
    pub channel_id: Seq<char>,
    /// The `emote-only` tag.
    pub emote_only: Option<bool>,
    /// The `followers-only` tag.
    pub followers_only: Option<FollowersOnly>,
    /// The `r9k` tag.
    pub r9k: Option<bool>,
    /// The `slow` tag, in seconds.
    pub slow: Option<i64>,
    /// The `subs-only` tag.
    pub subs_only: Option<bool>,
}

impl<'src> View for RoomState<'src> {
    type V = RoomStateView;

    open spec fn view(&self) -> RoomStateView {
        RoomStateView {
            channel: self.channel@,
            channel_id: self.channel_id@,
            emote_only: self.emote_only,
            followers_only: self.followers_only,
            r9k: self.r9k,
            slow: self.slow,
            subs_only: self.subs_only,
        }
    }
}

/// The followers-only mode that a number of minutes gives: positive, followers of that
/// long; zero, any follower; negative, disabled.
pub open spec fn followers_only_of(o: Option<Seq<char>>) -> Option<FollowersOnly> {
    match signed_value(o) {
        Some(n) => Some(
            if n > 0 {
                FollowersOnly::Enabled(Some((n * 60) as i64))
            } else if n == 0 {
                FollowersOnly::Enabled(None)
            } else {
                FollowersOnly::Disabled
            },
        ),
        None => None,
    }
}

/// The durations that the tag pairs `tags` of the message `b` give fit in a `chrono`
/// duration; the minutes of `followers-only` and the seconds of `slow` are turned into
/// durations, which fails outside `chrono`'s range.
pub open spec fn tags_durations_fit(b: Seq<u8>, tags: Seq<TagPair>) -> bool {
    &&& match signed_value(lookup(b, tags, tag_name(Tag::FollowersOnly))) {
        Some(n) => n > 0 ==> n * 60 <= MAX_DURATION_SECS,
        None => true,
    }
    &&& match signed_value(lookup(b, tags, tag_name(Tag::Slow))) {
        Some(n) => -MAX_DURATION_SECS <= n <= MAX_DURATION_SECS,
        None => true,
    }
}

/// The durations of a `ROOMSTATE` message fit in a `chrono` duration.
pub open spec fn durations_fit(m: IrcMessageRef) -> bool {
    tags_durations_fit(m.bytes(), m.layout().tags)
}

/// What a `ROOMSTATE` message says; it needs a channel and the `room-id` tag.
pub open spec fn room_state_of(m: IrcMessageRef) -> Option<RoomStateView> {
    if m.spec_command() is RoomState {
        match (m.spec_channel(), tag_value(m, Tag::RoomId)) {
            (Some(channel), Some(channel_id)) => Some(
                RoomStateView {
                    channel,
                    channel_id,
                    emote_only: opt_flag(tag_value(m, Tag::EmoteOnly)),
                    followers_only: followers_only_of(tag_value(m, Tag::FollowersOnly)),
                    r9k: opt_flag(tag_value(m, Tag::R9K)),
                    slow: signed_value(tag_value(m, Tag::Slow)),
                    subs_only: opt_flag(tag_value(m, Tag::SubsOnly)),
                },
            ),
            _ => None,
        }
    } else {
        None
    }
}

impl<'src> RoomState<'src> {
    /// Tests whether the durations of `message` fit; where they do not, a `ROOMSTATE`
    /// message cannot be read.
    pub fn durations_fit(message: &IrcMessageRef<'src>) -> (r: bool)
        ensures
            r == durations_fit(*message),
    {
        let followers = match parse_signed_number(message.tag(Tag::FollowersOnly)) {
            Some(n) => n <= 0 || match n.checked_mul(60) {
                Some(secs) => duration_fits(secs),
                None => false,
            },
            None => true,
        };
        let slow = match parse_signed_number(message.tag(Tag::Slow)) {
            Some(n) => duration_fits(n),
            None => true,
        };
        followers && slow
    }

    fn parse(message: &IrcMessageRef<'src>) -> (r: Option<Self>)
        requires
            durations_fit(*message),
        ensures
            match room_state_of(*message) {
                Some(v) => r matches Some(x) && x@ == v,
                None => r is None,
            },
    {
        if !matches!(message.command(), Command::RoomState) {
            return None;
        }
        let channel = match message.channel() {
            Some(x) => x,
            None => return None,
        };
        let channel_id = match message.tag(Tag::RoomId) {
            Some(x) => x,
            None => return None,
        };
        let followers_only = match parse_signed_number(message.tag(Tag::FollowersOnly)) {
            Some(n) => Some(
                if n > 0 {
                    FollowersOnly::Enabled(Some(n * 60))
                } else if n == 0 {
                    FollowersOnly::Enabled(None)
                } else {
                    FollowersOnly::Disabled
                },
            ),
            None => None,
        };
        Some(RoomState {
            channel,
            channel_id,
            emote_only: parse_opt_bool(message.tag(Tag::EmoteOnly)),
            followers_only,
            r9k: parse_opt_bool(message.tag(Tag::R9K)),
            slow: parse_signed_number(message.tag(Tag::Slow)),
            subs_only: parse_opt_bool(message.tag(Tag::SubsOnly)),
        })
    }
}

/// A `ROOMSTATE` message reads exactly where it has a channel and a `room-id` tag; its
/// `emote_only`, `r9k` and `subs_only` are the flags of the `emote-only`, `r9k` and
/// `subs-only` tags, `slow` the number of the `slow` tag, and `followers_only` follows the
/// minutes of the `followers-only` tag: positive, that many minutes in seconds; zero, any
/// follower; negative, disabled.
pub proof fn lemma_room_state_fields(m: IrcMessageRef)
    ensures
        room_state_of(m) is Some <==> (m.spec_command() is RoomState && m.spec_channel() is Some
            && m.spec_tag("room-id"@) is Some),
        room_state_of(m) matches Some(v) ==> {
            &&& m.spec_channel() == Some(v.channel)
            &&& m.spec_tag("room-id"@) == Some(v.channel_id)
            &&& v.emote_only == opt_flag(m.spec_tag("emote-only"@))
            &&& v.r9k == opt_flag(m.spec_tag("r9k"@))
            &&& v.subs_only == opt_flag(m.spec_tag("subs-only"@))
            &&& v.slow == signed_value(m.spec_tag("slow"@))
            &&& match signed_value(m.spec_tag("followers-only"@)) {
                Some(n) => if n > 0 {
                    v.followers_only == Some(FollowersOnly::Enabled(Some((n * 60) as i64)))
                } else if n == 0 {
                    v.followers_only == Some(FollowersOnly::Enabled(None))
                } else {
                    v.followers_only == Some(FollowersOnly::Disabled)
                },
                None => v.followers_only is None,
            }
        },
{
}

impl<'src> crate::msg::sealed::Sealed for RoomState<'src> {
}

impl<'src> crate::msg::FromIrc<'src> for RoomState<'src> {
    /// The durations of the message must fit (see [`RoomState::durations_fit`]).
    open spec fn accepts(message: IrcMessageRef<'src>) -> bool {
        durations_fit(message)
    }

    fn from_irc(message: IrcMessageRef<'src>) -> (r: Result<Self, MessageParseError>)
        ensures
            match room_state_of(message) {
                Some(v) => r matches Ok(x) && x@ == v,
                None => r is Err,
            },
    {
        match Self::parse(&message) {
            Some(x) => Ok(x),
            None => Err(MessageParseError),
        }
    }
}

} // verus!
