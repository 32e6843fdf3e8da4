//! Sent when joining a channel and every time you send a message.
use std::borrow::Cow;
use vstd::prelude::*;
use crate::irc::prefix::opt_view;
use crate::irc::{Command, IrcMessageRef, Tag};
use crate::msg::badge::{badge_views, badges_into_owned, parse_tag_badges, tag_badges, Badge, BadgeView};
use crate::msg::{
    cow_str, cows_into_owned, cows_strs, cows_view, list_value, non_empty, non_empty_borrowed,
    opt_cow_str, opt_cow_view, opt_owned_cow, owned_cow, split_comma_opt, tag_value, MessageParseError,
};
use crate::strings::strs_view;

use crate::msg::{copy_cow, copy_cows, copy_opt_cow};
use crate::msg::badge::copy_badges;
verus! {

/// What a `USERSTATE` message holds.
pub struct UserStateView {
    /// The channel.
    pub channel: Seq<char>,
    /// The `display-name` tag.
    pub user_name: Seq<char>,
    /// The badges of the `badges` and `badge-info` tags.
    pub badges: Seq<BadgeView>,
    /// The `emote-sets` tag, split at commas.
    pub emote_sets: Seq<Seq<char>>,
    /// The `color` tag, where it is not empty.
    pub color: Option<Seq<char>>,
}

/// Sent when joining a channel and every time you send a message.
#[derive(Debug, PartialEq, Eq)]
pub struct UserState<'src> {
    channel: Cow<'src, str>,
    user_name: Cow<'src, str>,
    badges: Vec<Badge<'src>>,
    emote_sets: Vec<Cow<'src, str>>,
    color: Option<Cow<'src, str>>,
}

impl<'src> View for UserState<'src> {
    type V = UserStateView;

    closed spec fn view(&self) -> UserStateView {
        UserStateView {
            channel: self.channel@,
            user_name: self.user_name@,
            badges: badge_views(self.badges@),
            emote_sets: cows_view(self.emote_sets@),
            color: opt_cow_view(self.color),
        }
    }
}

/// What a `USERSTATE` message says; it needs a channel and the `display-name` tag.
pub open spec fn user_state_of(m: IrcMessageRef) -> Option<UserStateView> {
    if m.spec_command() is UserState {
        match (m.spec_channel(), tag_value(m, Tag::DisplayName)) {
            (Some(channel), Some(user_name)) => Some(
                UserStateView {
                    channel,
                    user_name,
                    badges: tag_badges(tag_value(m, Tag::Badges), tag_value(m, Tag::BadgeInfo)),
                    emote_sets: list_value(tag_value(m, Tag::EmoteSets)),
                    color: non_empty(tag_value(m, Tag::Color)),
                },
            ),
            _ => None,
        }
    } else {
        None
    }
}

impl<'src> UserState<'src> {
    /// Name of the channel in which this state applies to.
    pub fn channel(&self) -> (r: &str)
        ensures
            r@ == self@.channel,
    {
        cow_str(&self.channel)
    }

    /// Display name of the user.
    pub fn user_name(&self) -> (r: &str)
        ensures
            r@ == self@.user_name,
    {
        cow_str(&self.user_name)
    }

    /// Badges of the user in the channel.
    pub fn badges(&self) -> (r: &[Badge<'src>])
        ensures
            badge_views(r@) == self@.badges,
    {
        self.badges.as_slice()
    }

    /// Number of badges.
    pub fn num_badges(&self) -> (r: usize)
        ensures
            r == self@.badges.len(),
    {
        self.badges.len()
    }

    /// Emote sets available to the user in the channel.
    pub fn emote_sets(&self) -> (r: Vec<&str>)
        ensures
            strs_view(r@) == self@.emote_sets,
    {
        cows_strs(&self.emote_sets)
    }

    /// Number of emote sets.
    pub fn num_emote_sets(&self) -> (r: usize)
        ensures
            r == self@.emote_sets.len(),
    {
        self.emote_sets.len()
    }

    /// Chat name color.
    ///
    /// [`None`] means the user has not selected a color.
    /// To match the behavior of Twitch, users should be
    /// given a globally-consistent random color.
    pub fn color(&self) -> (r: Option<&str>)
        ensures
            opt_view(r) == self@.color,
    {
        opt_cow_str(&self.color)
    }

    /// Clone data to give the value a `'static` lifetime.
    pub fn into_owned(self) -> (r: UserState<'static>)
        ensures
            r@ == self@,
    {
        UserState {
            channel: owned_cow(self.channel),
            user_name: owned_cow(self.user_name),
            badges: badges_into_owned(self.badges),
            emote_sets: cows_into_owned(self.emote_sets),
            color: opt_owned_cow(self.color),
        }
    }

    fn parse(message: &IrcMessageRef<'src>) -> (r: Option<Self>)
        ensures
            match user_state_of(*message) {
                Some(v) => r matches Some(x) && x@ == v,
                None => r is None,
            },
    {
        if !matches!(message.command(), Command::UserState) {
            return None;
        }
        let channel = match message.channel() {
            Some(x) => x,
            None => return None,
        };
        let user_name = match message.tag(Tag::DisplayName) {
            Some(x) => x,
            None => return None,
        };
        let badges = parse_tag_badges(message.tag(Tag::Badges), message.tag(Tag::BadgeInfo));
        let emote_sets = split_comma_opt(message.tag(Tag::EmoteSets));
        let color = non_empty_borrowed(message.tag(Tag::Color));
        Some(UserState {
            channel: Cow::Borrowed(channel),
            user_name: Cow::Borrowed(user_name),
            badges,
            emote_sets,
            color,
        })
    }
}

/// A `USERSTATE` message reads exactly where it has a channel and a `display-name` tag;
/// the user's name is that tag, the emote sets the comma-separated `emote-sets` tag and the
/// color the `color` tag where it is not empty.
pub proof fn lemma_user_state_fields(m: IrcMessageRef)
    ensures
        user_state_of(m) is Some <==> (m.spec_command() is UserState && m.spec_channel() is Some
            && m.spec_tag("display-name"@) is Some),
        user_state_of(m) matches Some(v) ==> {
            &&& m.spec_channel() == Some(v.channel)
            &&& m.spec_tag("display-name"@) == Some(v.user_name)
            &&& v.emote_sets == crate::msg::list_value(m.spec_tag("emote-sets"@))
            &&& v.color == crate::msg::non_empty(m.spec_tag("color"@))
            &&& v.badges == tag_badges(m.spec_tag("badges"@), m.spec_tag("badge-info"@))
        },
{
}

impl<'src> crate::msg::sealed::Sealed for UserState<'src> {
}

impl<'src> crate::msg::FromIrc<'src> for UserState<'src> {
    open spec fn accepts(message: IrcMessageRef<'src>) -> bool {
        true
    }

    fn from_irc(message: IrcMessageRef<'src>) -> (r: Result<Self, MessageParseError>)
        ensures
            match user_state_of(message) {
                Some(v) => r matches Ok(x) && x@ == v,
                None => r is Err,
            },
    {
        match Self::parse(&message) {
            Some(x) => Ok(x),
            None => Err(MessageParseError),
        }
    }
}

impl<'src> Clone for UserState<'src> {
    fn clone(&self) -> (r: Self)
        ensures
            r@ == self@,
    {
        UserState {
            channel: copy_cow(&self.channel),
            user_name: copy_cow(&self.user_name),
            badges: copy_badges(&self.badges),
            emote_sets: copy_cows(&self.emote_sets),
            color: copy_opt_cow(&self.color),
        }
    }
}

} // verus!
