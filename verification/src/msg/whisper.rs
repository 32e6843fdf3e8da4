//! A private message between users.
use std::borrow::Cow;
use vstd::prelude::*;
use crate::irc::prefix::opt_view;
use crate::irc::{Command, IrcMessageRef, Tag};
use crate::msg::badge::{badge_views, badges_into_owned, parse_tag_badges, tag_badges, Badge, BadgeView};
use crate::msg::{
    cow_str, non_empty, non_empty_borrowed, opt_cow_str, opt_cow_view, opt_owned_cow, opt_user,
    or_empty, or_empty_value, owned_cow, tag_value, user_of, MessageParseError, User,
};
use crate::strings::{split_once_pattern, split_once_str};

use crate::msg::{copy_cow, copy_opt_cow};
use crate::msg::badge::copy_badges;
verus! {

/// What a `WHISPER` message holds.
pub struct WhisperView {
    /// Login of the recipient.
    pub recipient: Seq<char>,
    /// The sender: `user-id` tag, nick of the prefix, `display-name` tag.
    pub sender: (Seq<char>, Seq<char>, Seq<char>),
    /// The text.
    pub text: Seq<char>,
    /// The badges of the `badges` and `badge-info` tags.
    pub badges: Seq<BadgeView>,
    /// The `emotes` tag, or nothing.
    pub emotes: Seq<char>,
    /// The `color` tag, where it is not empty.
    pub color: Option<Seq<char>>,
}

/// A private message between users.
#[derive(Debug, PartialEq, Eq)]
pub struct Whisper<'src> {
    recipient: Cow<'src, str>,
    sender: User<'src>,
    text: Cow<'src, str>,
    badges: Vec<Badge<'src>>,
    emotes: Cow<'src, str>,
    color: Option<Cow<'src, str>>,
}

impl<'src> View for Whisper<'src> {
    type V = WhisperView;

    closed spec fn view(&self) -> WhisperView {
        WhisperView {
            recipient: self.recipient@,
            sender: self.sender@,
            text: self.text@,
            badges: badge_views(self.badges@),
            emotes: self.emotes@,
            color: opt_cow_view(self.color),
        }
    }
}

/// What a `WHISPER` message says: its params are the recipient, `" :"` and the text,
/// and the sender needs the `user-id` tag, a nick and the `display-name` tag.
pub open spec fn whisper_of(m: IrcMessageRef) -> Option<WhisperView> {
    if m.spec_command() is Whisper {
        match m.spec_params() {
            Some(p) => match split_once_pattern(p, " :"@) {
                Some((recipient, text)) => match user_of(
                    tag_value(m, Tag::UserId),
                    m.spec_nick(),
                    tag_value(m, Tag::DisplayName),
                ) {
                    Some(sender) => Some(
                        WhisperView {
                            recipient,
                            sender,
                            text,
                            badges: tag_badges(tag_value(m, Tag::Badges), tag_value(m, Tag::BadgeInfo)),
                            emotes: or_empty_value(tag_value(m, Tag::Emotes)),
                            color: non_empty(tag_value(m, Tag::Color)),
                        },
                    ),
                    None => None,
                },
                None => None,
            },
            None => None,
        }
    } else {
        None
    }
}

impl<'src> Whisper<'src> {
    /// Login of the recipient.
    pub fn recipient(&self) -> (r: &str)
        ensures
            r@ == self@.recipient,
    {
        cow_str(&self.recipient)
    }

    /// Login of the sender.
    pub fn sender(&self) -> (r: User<'src>)
        ensures
            r@ == self@.sender,
    {
        self.sender.clone()
    }

    /// Text content of the message.
    pub fn text(&self) -> (r: &str)
        ensures
            r@ == self@.text,
    {
        cow_str(&self.text)
    }

    /// Badges of the sender.
    pub fn badges(&self) -> (r: &[Badge<'src>])
        ensures
            badge_views(r@) == self@.badges,
    {
        self.badges.as_slice()
    }

    /// Number of badges of the sender.
    pub fn num_badges(&self) -> (r: usize)
        ensures
            r == self@.badges.len(),
    {
        self.badges.len()
    }

    /// The emote raw emote ranges present in this message.
    pub fn raw_emotes(&self) -> (r: &str)
        ensures
            r@ == self@.emotes,
    {
        cow_str(&self.emotes)
    }

    /// The user's selected name color.
    ///
    /// [`None`] means the user has not selected a color.
    pub fn color(&self) -> (r: Option<&str>)
        ensures
            opt_view(r) == self@.color,
    {
        opt_cow_str(&self.color)
    }

    /// Clone data to give the value a `'static` lifetime.
    pub fn into_owned(self) -> (r: Whisper<'static>)
        ensures
            r@ == self@,
    {
        Whisper {
            recipient: owned_cow(self.recipient),
            sender: self.sender.into_owned(),
            text: owned_cow(self.text),
            badges: badges_into_owned(self.badges),
            emotes: owned_cow(self.emotes),
            color: opt_owned_cow(self.color),
        }
    }

    fn parse(message: &IrcMessageRef<'src>) -> (r: Option<Self>)
        ensures
            match whisper_of(*message) {
                Some(v) => r matches Some(x) && x@ == v,
                None => r is None,
            },
    {
        if !matches!(message.command(), Command::Whisper) {
            return None;
        }
        let params = match message.params() {
            Some(p) => p,
            None => return None,
        };
        let (recipient, text) = match split_once_str(params, " :") {
            Some(x) => x,
            None => return None,
        };
        let nick = match message.prefix() {
            Some(p) => p.nick,
            None => None,
        };
        let sender = match opt_user(message.tag(Tag::UserId), nick, message.tag(Tag::DisplayName)) {
            Some(u) => u,
            None => return None,
        };
        Some(Whisper {
            recipient: Cow::Borrowed(recipient),
            sender,
            text: Cow::Borrowed(text),
            badges: parse_tag_badges(message.tag(Tag::Badges), message.tag(Tag::BadgeInfo)),
            emotes: or_empty(message.tag(Tag::Emotes)),
            color: non_empty_borrowed(message.tag(Tag::Color)),
        })
    }
}

/// A whisper reads exactly where its parameters split at the first ` :` and it has a nick
/// and the `user-id` and `display-name` tags: the recipient comes before the split, the
/// text after it, and the sender is the `user-id` tag, the nick and the `display-name` tag.
pub proof fn lemma_whisper_fields(m: IrcMessageRef)
    ensures
        whisper_of(m) is Some <==> (m.spec_command() is Whisper && m.spec_params() is Some
            && split_once_pattern(m.spec_params()->0, " :"@) is Some && m.spec_tag("user-id"@) is Some
            && m.spec_nick() is Some && m.spec_tag("display-name"@) is Some),
        whisper_of(m) matches Some(v) ==> {
            &&& split_once_pattern(m.spec_params()->0, " :"@) == Some((v.recipient, v.text))
            &&& m.spec_tag("user-id"@) == Some(v.sender.0)
            &&& m.spec_nick() == Some(v.sender.1)
            &&& m.spec_tag("display-name"@) == Some(v.sender.2)
            &&& v.color == crate::msg::non_empty(m.spec_tag("color"@))
            &&& v.emotes == crate::msg::or_empty_value(m.spec_tag("emotes"@))
            &&& v.badges == tag_badges(m.spec_tag("badges"@), m.spec_tag("badge-info"@))
        },
{
}

impl<'src> crate::msg::sealed::Sealed for Whisper<'src> {
}

impl<'src> crate::msg::FromIrc<'src> for Whisper<'src> {
    open spec fn accepts(message: IrcMessageRef<'src>) -> bool {
        true
    }

    fn from_irc(message: IrcMessageRef<'src>) -> (r: Result<Self, MessageParseError>)
        ensures
            match whisper_of(message) {
                Some(v) => r matches Ok(x) && x@ == v,
                None => r is Err,
            },
    {
        match Self::parse(&message) {
            Some(x) => Ok(x),
            None => Err(MessageParseError),
        }
    }
}

impl<'src> Clone for Whisper<'src> {
    fn clone(&self) -> (r: Self)
        ensures
            r@ == self@,
    {
        Whisper {
            recipient: copy_cow(&self.recipient),
            sender: self.sender.clone(),
            text: copy_cow(&self.text),
            badges: copy_badges(&self.badges),
            emotes: copy_cow(&self.emotes),
            color: copy_opt_cow(&self.color),
        }
    }
}

} // verus!
