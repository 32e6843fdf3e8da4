//! This command is sent once upon successful login to Twitch IRC.
use std::borrow::Cow;
use vstd::prelude::*;
use crate::irc::prefix::opt_view;
use crate::irc::{Command, IrcMessageRef, Tag};
use crate::msg::badge::{badge_views, parse_tag_badges, tag_badges, Badge, BadgeView};
use crate::msg::{
    copy_cow, cow_str, cows_strs, cows_view, list_value, non_empty, non_empty_borrowed, opt_cow_str,
    opt_cow_view, split_comma_opt, tag_value, MessageParseError,
};
use crate::strings::strs_view;
use crate::{maybe_unescape, maybe_unescaped};

use crate::msg::{copy_cows, copy_opt_cow};
use crate::msg::badge::copy_badges;
verus! {

/// What a `GLOBALUSERSTATE` message holds.
pub struct GlobalUserStateView {
    /// The `user-id` tag.
    pub id: Seq<char>,
    /// The `display-name` tag.
    pub name: Seq<char>,
    /// The badges of the `badges` and `badge-info` tags.
    pub badges: Seq<BadgeView>,
    /// The `emote-sets` tag, split at commas.
    pub emote_sets: Seq<Seq<char>>,
    /// The `color` tag, where it is not empty.
    pub color: Option<Seq<char>>,
}

/// This command is sent once upon successful login to Twitch IRC.
#[derive(Debug, PartialEq, Eq)]
pub struct GlobalUserState<'src> {
    id: Cow<'src, str>,
    name: Cow<'src, str>,
    badges: Vec<Badge<'src>>,
    emote_sets: Vec<Cow<'src, str>>,
    color: Option<Cow<'src, str>>,
}

impl<'src> View for GlobalUserState<'src> {
    type V = GlobalUserStateView;

    closed spec fn view(&self) -> GlobalUserStateView {
        GlobalUserStateView {
            id: self.id@,
            name: self.name@,
            badges: badge_views(self.badges@),
            emote_sets: cows_view(self.emote_sets@),
            color: opt_cow_view(self.color),
        }
    }
}

/// What a `GLOBALUSERSTATE` message says; it needs the `user-id` and `display-name` tags.
pub open spec fn global_user_state_of(m: IrcMessageRef) -> Option<GlobalUserStateView> {
    if m.spec_command() is GlobalUserState {
        match (tag_value(m, Tag::UserId), tag_value(m, Tag::DisplayName)) {
            (Some(id), Some(name)) => Some(
                GlobalUserStateView {
                    id,
                    name,
                    badges: tag_badges(tag_value(m, Tag::Badges), tag_value(m, Tag::BadgeInfo)),
                    emote_sets: list_value(tag_value(m, Tag::EmoteSets)),
                    color: non_empty(tag_value(m, Tag::Color)),
                },
            ),
            _ => None,
        }
    } else {
        None
    }
}

impl<'src> GlobalUserState<'src> {
    /// ID of the logged in user.
    pub fn id(&self) -> (r: &str)
        ensures
            r@ == self@.id,
    {
        cow_str(&self.id)
    }

    /// Display name of the logged in user.
    ///
    /// This is the name which appears in chat, and may contain arbitrary unicode characters.
    /// It is separate from the user login, which is always only ASCII.
    ///
    /// ⚠ This call will allocate and return a String if it needs to be unescaped.
    pub fn name(&self) -> (r: Cow<'src, str>)
        ensures
            r@ == maybe_unescaped(self@.name),
    {
        maybe_unescape(copy_cow(&self.name))
    }

    /// Global badges.
    pub fn badges(&self) -> (r: &[Badge<'src>])
        ensures
            badge_views(r@) == self@.badges,
    {
        self.badges.as_slice()
    }

    /// Number of global badges.
    pub fn num_badges(&self) -> (r: usize)
        ensures
            r == self@.badges.len(),
    {
        self.badges.len()
    }

    /// Emote sets which are available globally.
    pub fn emote_sets(&self) -> (r: Vec<&str>)
        ensures
            strs_view(r@) == self@.emote_sets,
    {
        cows_strs(&self.emote_sets)
    }

    /// Number of emote sets which are available globally.
    pub fn num_emote_sets(&self) -> (r: usize)
        ensures
            r == self@.emote_sets.len(),
    {
        self.emote_sets.len()
    }

    /// Chat name color.
    ///
    /// [`None`] means the user has not selected a color.
    /// To match the behavior of Twitch, users should be
    /// given a globally-consistent random color.
    pub fn color(&self) -> (r: Option<&str>)
        ensures
            opt_view(r) == self@.color,
    {
        opt_cow_str(&self.color)
    }

    fn parse(message: &IrcMessageRef<'src>) -> (r: Option<Self>)
        ensures
            match global_user_state_of(*message) {
                Some(v) => r matches Some(x) && x@ == v,
                None => r is None,
            },
    {
        if !matches!(message.command(), Command::GlobalUserState) {
            return None;
        }
        let id = match message.tag(Tag::UserId) {
            Some(x) => x,
            None => return None,
        };
        let name = match message.tag(Tag::DisplayName) {
            Some(x) => x,
            None => return None,
        };
        let badges = parse_tag_badges(message.tag(Tag::Badges), message.tag(Tag::BadgeInfo));
        let emote_sets = split_comma_opt(message.tag(Tag::EmoteSets));
        let color = non_empty_borrowed(message.tag(Tag::Color));
        Some(GlobalUserState { id: Cow::Borrowed(id), name: Cow::Borrowed(name), badges, emote_sets, color })
    }
}

/// A `GLOBALUSERSTATE` message reads exactly where it has the `user-id` and
/// `display-name` tags, which are the user's id and name; the emote sets are the
/// comma-separated `emote-sets` tag and the color the `color` tag where it is not empty.
pub proof fn lemma_global_user_state_fields(m: IrcMessageRef)
    ensures
        global_user_state_of(m) is Some <==> (m.spec_command() is GlobalUserState && m.spec_tag("user-id"@)
            is Some && m.spec_tag("display-name"@) is Some),
        global_user_state_of(m) matches Some(v) ==> {
            &&& m.spec_tag("user-id"@) == Some(v.id)
            &&& m.spec_tag("display-name"@) == Some(v.name)
            &&& v.emote_sets == crate::msg::list_value(m.spec_tag("emote-sets"@))
            &&& v.color == crate::msg::non_empty(m.spec_tag("color"@))
            &&& v.badges == tag_badges(m.spec_tag("badges"@), m.spec_tag("badge-info"@))
        },
{
}

impl<'src> crate::msg::sealed::Sealed for GlobalUserState<'src> {
}

impl<'src> crate::msg::FromIrc<'src> for GlobalUserState<'src> {
    open spec fn accepts(message: IrcMessageRef<'src>) -> bool {
        true
    }

    fn from_irc(message: IrcMessageRef<'src>) -> (r: Result<Self, MessageParseError>)
        ensures
            match global_user_state_of(message) {
                Some(v) => r matches Ok(x) && x@ == v,
                None => r is Err,
            },
    {
        match Self::parse(&message) {
            Some(x) => Ok(x),
            None => Err(MessageParseError),
        }
    }
}

impl<'src> Clone for GlobalUserState<'src> {
    fn clone(&self) -> (r: Self)
        ensures
            r@ == self@,
    {
        GlobalUserState {
            id: copy_cow(&self.id),
            name: copy_cow(&self.name),
            badges: copy_badges(&self.badges),
            emote_sets: copy_cows(&self.emote_sets),
            color: copy_opt_cow(&self.color),
        }
    }
}

} // verus!
