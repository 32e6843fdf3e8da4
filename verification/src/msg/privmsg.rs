//! Represents a basic Twitch chat message sent by some user to a specific channel.
use std::borrow::Cow;
use vstd::prelude::*;
use crate::irc::prefix::opt_view;
use crate::irc::{Command, IrcMessageRef, Tag};
use crate::msg::badge::{badge_views, badges_into_owned, parse_tag_badges, tag_badges, Badge, BadgeView};
use crate::msg::time::{parse_opt_timestamp, timestamp_value};
use crate::msg::{
    copy_cow, cow_str, flag_value, message_text, non_empty, non_empty_borrowed, number_value,
    opt_borrowed, opt_cow_str, opt_cow_view, opt_owned_cow, opt_user, or_empty, or_empty_value,
    owned_cow, parse_bool, parse_message_text, parse_number, signed_value, tag_value, user_of, MessageParseError, User,
};
use crate::strings::{lemma_chars_differ, lemma_lengths_differ, parse_i64};
use crate::text::str_eq;
use crate::{maybe_unescape, maybe_unescaped};

use crate::msg::{copy_opt_cow};
use crate::msg::badge::copy_badges;
verus! {

/// The level of the Hype Chat.
#[allow(non_camel_case_types)]
#[derive(Clone, Copy, Debug, PartialEq, Eq, Structural)]
pub enum PinnedChatLevel {
    ONE,
    TWO,
    THREE,
    FOUR,
    FIVE,
    SIX,
    SEVEN,
    EIGHT,
    NINE,
    TEN,
}

/// The name of a Hype Chat level, in capitals.
pub open spec fn level_name(l: PinnedChatLevel) -> Seq<char> {
    match l {
        PinnedChatLevel::ONE => "ONE"@,
        PinnedChatLevel::TWO => "TWO"@,
        PinnedChatLevel::THREE => "THREE"@,
        PinnedChatLevel::FOUR => "FOUR"@,
        PinnedChatLevel::FIVE => "FIVE"@,
        PinnedChatLevel::SIX => "SIX"@,
        PinnedChatLevel::SEVEN => "SEVEN"@,
        PinnedChatLevel::EIGHT => "EIGHT"@,
        PinnedChatLevel::NINE => "NINE"@,
        PinnedChatLevel::TEN => "TEN"@,
    }
}

/// The Hype Chat level that the name `s` names.
pub open spec fn level_of(s: Seq<char>) -> Option<PinnedChatLevel> {
    if s == "ONE"@ {
        Some(PinnedChatLevel::ONE)
    } else if s == "TWO"@ {
        Some(PinnedChatLevel::TWO)
    } else if s == "THREE"@ {
        Some(PinnedChatLevel::THREE)
    } else if s == "FOUR"@ {
        Some(PinnedChatLevel::FOUR)
    } else if s == "FIVE"@ {
        Some(PinnedChatLevel::FIVE)
    } else if s == "SIX"@ {
        Some(PinnedChatLevel::SIX)
    } else if s == "SEVEN"@ {
        Some(PinnedChatLevel::SEVEN)
    } else if s == "EIGHT"@ {
        Some(PinnedChatLevel::EIGHT)
    } else if s == "NINE"@ {
        Some(PinnedChatLevel::NINE)
    } else if s == "TEN"@ {
        Some(PinnedChatLevel::TEN)
    } else {
        None
    }
}

/// The number of a Hype Chat level, from 0 for `ONE` to 9 for `TEN`.
pub open spec fn level_number(l: PinnedChatLevel) -> u8 {
    match l {
        PinnedChatLevel::ONE => 0,
        PinnedChatLevel::TWO => 1,
        PinnedChatLevel::THREE => 2,
        PinnedChatLevel::FOUR => 3,
        PinnedChatLevel::FIVE => 4,
        PinnedChatLevel::SIX => 5,
        PinnedChatLevel::SEVEN => 6,
        PinnedChatLevel::EIGHT => 7,
        PinnedChatLevel::NINE => 8,
        PinnedChatLevel::TEN => 9,
    }
}

impl PinnedChatLevel {
    /// The name of the level, in capitals.
    pub fn as_str(&self) -> (r: &'static str)
        ensures
            r@ == level_name(*self),
    {
        match self {
            PinnedChatLevel::ONE => "ONE",
            PinnedChatLevel::TWO => "TWO",
            PinnedChatLevel::THREE => "THREE",
            PinnedChatLevel::FOUR => "FOUR",
            PinnedChatLevel::FIVE => "FIVE",
            PinnedChatLevel::SIX => "SIX",
            PinnedChatLevel::SEVEN => "SEVEN",
            PinnedChatLevel::EIGHT => "EIGHT",
            PinnedChatLevel::NINE => "NINE",
            PinnedChatLevel::TEN => "TEN",
        }
    }

    /// Reads a level from its name, like `PinnedChatLevel::from_str`.
    pub fn parse(s: &str) -> (r: Result<PinnedChatLevel, ()>)
        ensures
            match level_of(s@) {
                Some(l) => r == Ok::<PinnedChatLevel, ()>(l),
                None => r is Err,
            },
    {
        if str_eq(s, "ONE") {
            Ok(PinnedChatLevel::ONE)
        } else if str_eq(s, "TWO") {
            Ok(PinnedChatLevel::TWO)
        } else if str_eq(s, "THREE") {
            Ok(PinnedChatLevel::THREE)
        } else if str_eq(s, "FOUR") {
            Ok(PinnedChatLevel::FOUR)
        } else if str_eq(s, "FIVE") {
            Ok(PinnedChatLevel::FIVE)
        } else if str_eq(s, "SIX") {
            Ok(PinnedChatLevel::SIX)
        } else if str_eq(s, "SEVEN") {
            Ok(PinnedChatLevel::SEVEN)
        } else if str_eq(s, "EIGHT") {
            Ok(PinnedChatLevel::EIGHT)
        } else if str_eq(s, "NINE") {
            Ok(PinnedChatLevel::NINE)
        } else if str_eq(s, "TEN") {
            Ok(PinnedChatLevel::TEN)
        } else {
            Err(())
        }
    }

    /// The number of the level, from 0 for `ONE` to 9 for `TEN`; this is `u8::from(level)`.
    pub fn to_u8(&self) -> (r: u8)
        ensures
            r == level_number(*self),
    {
        match self {
            PinnedChatLevel::ONE => 0,
            PinnedChatLevel::TWO => 1,
            PinnedChatLevel::THREE => 2,
            PinnedChatLevel::FOUR => 3,
            PinnedChatLevel::FIVE => 4,
            PinnedChatLevel::SIX => 5,
            PinnedChatLevel::SEVEN => 6,
            PinnedChatLevel::EIGHT => 7,
            PinnedChatLevel::NINE => 8,
            PinnedChatLevel::TEN => 9,
        }
    }

    /// The level of a number from 0 to 9; this is `PinnedChatLevel::try_from(value)`.
    pub fn try_from_u8(value: u8) -> (r: Result<PinnedChatLevel, ()>)
        ensures
            value <= 9 <==> r is Ok,
            r matches Ok(l) ==> level_number(l) == value,
    {
        match value {
            0 => Ok(PinnedChatLevel::ONE),
            1 => Ok(PinnedChatLevel::TWO),
            2 => Ok(PinnedChatLevel::THREE),
            3 => Ok(PinnedChatLevel::FOUR),
            4 => Ok(PinnedChatLevel::FIVE),
            5 => Ok(PinnedChatLevel::SIX),
            6 => Ok(PinnedChatLevel::SEVEN),
            7 => Ok(PinnedChatLevel::EIGHT),
            8 => Ok(PinnedChatLevel::NINE),
            9 => Ok(PinnedChatLevel::TEN),
            _ => Err(()),
        }
    }
}

/// Reading the name of a level gives the level back.
pub proof fn lemma_level_name_roundtrip(l: PinnedChatLevel)
    ensures
        level_of(level_name(l)) == Some(l),
{
    reveal_strlit("ONE");
    reveal_strlit("TWO");
    reveal_strlit("THREE");
    reveal_strlit("FOUR");
    reveal_strlit("FIVE");
    reveal_strlit("SIX");
    reveal_strlit("SEVEN");
    reveal_strlit("EIGHT");
    reveal_strlit("NINE");
    reveal_strlit("TEN");
    let s = level_name(l);
    match l {
        PinnedChatLevel::ONE => {
        },
        PinnedChatLevel::TWO => {
            lemma_chars_differ("TWO", "ONE", 0);
        },
        PinnedChatLevel::THREE => {
            lemma_lengths_differ("THREE", "ONE");
            lemma_lengths_differ("THREE", "TWO");
        },
        PinnedChatLevel::FOUR => {
            lemma_lengths_differ("FOUR", "ONE");
            lemma_lengths_differ("FOUR", "TWO");
            lemma_lengths_differ("FOUR", "THREE");
        },
        PinnedChatLevel::FIVE => {
            lemma_lengths_differ("FIVE", "ONE");
            lemma_lengths_differ("FIVE", "TWO");
            lemma_lengths_differ("FIVE", "THREE");
            lemma_chars_differ("FIVE", "FOUR", 1);
        },
        PinnedChatLevel::SIX => {
            lemma_chars_differ("SIX", "ONE", 0);
            lemma_chars_differ("SIX", "TWO", 0);
            lemma_lengths_differ("SIX", "THREE");
            lemma_lengths_differ("SIX", "FOUR");
            lemma_lengths_differ("SIX", "FIVE");
        },
        PinnedChatLevel::SEVEN => {
            lemma_lengths_differ("SEVEN", "ONE");
            lemma_lengths_differ("SEVEN", "TWO");
            lemma_chars_differ("SEVEN", "THREE", 0);
            lemma_lengths_differ("SEVEN", "FOUR");
            lemma_lengths_differ("SEVEN", "FIVE");
            lemma_lengths_differ("SEVEN", "SIX");
        },
        PinnedChatLevel::EIGHT => {
            lemma_lengths_differ("EIGHT", "ONE");
            lemma_lengths_differ("EIGHT", "TWO");
            lemma_chars_differ("EIGHT", "THREE", 0);
            lemma_lengths_differ("EIGHT", "FOUR");
            lemma_lengths_differ("EIGHT", "FIVE");
            lemma_lengths_differ("EIGHT", "SIX");
            lemma_chars_differ("EIGHT", "SEVEN", 0);
        },
        PinnedChatLevel::NINE => {
            lemma_lengths_differ("NINE", "ONE");
            lemma_lengths_differ("NINE", "TWO");
            lemma_lengths_differ("NINE", "THREE");
            lemma_chars_differ("NINE", "FOUR", 0);
            lemma_chars_differ("NINE", "FIVE", 0);
            lemma_lengths_differ("NINE", "SIX");
            lemma_lengths_differ("NINE", "SEVEN");
            lemma_lengths_differ("NINE", "EIGHT");
        },
        PinnedChatLevel::TEN => {
            lemma_chars_differ("TEN", "ONE", 0);
            lemma_chars_differ("TEN", "TWO", 1);
            lemma_lengths_differ("TEN", "THREE");
            lemma_lengths_differ("TEN", "FOUR");
            lemma_lengths_differ("TEN", "FIVE");
            lemma_chars_differ("TEN", "SIX", 0);
            lemma_lengths_differ("TEN", "SEVEN");
            lemma_lengths_differ("TEN", "EIGHT");
            lemma_lengths_differ("TEN", "NINE");
        },
    }
}

/// A level's number gives the level back.
pub proof fn lemma_level_number_roundtrip(l: PinnedChatLevel)
    ensures
        level_number(l) <= 9,
        forall|r: PinnedChatLevel| level_number(r) == level_number(l) ==> r == l,
{
}

/// What the Hype Chat tags of a message hold.
pub struct PinnedChatView {
    /// The `pinned-chat-paid-amount` tag.
    pub paid_amount: i64,
    /// The `pinned-chat-paid-currency` tag.
    pub paid_currency: Seq<char>,
    /// The `pinned-chat-paid-exponent` tag.
    pub paid_exponent: i64,
    /// The `pinned-chat-paid-level` tag.
    pub paid_level: PinnedChatLevel,
    /// The `pinned-chat-paid-is-system-message` tag.
    pub is_system_message: bool,
}

/// Information about the pinned message.
///
/// If someone sent a Hype Chat, `pinned-chat-paid-*` tags would be set to reflect that.
///
/// In the case of the United States dollar, $2 USD will be represented as 200 in
/// `pinned-chat-paid-amount` with the pinned-chat-paid-exponent of 2.
#[derive(Debug, PartialEq, Eq)]
pub struct PinnedChat<'src> {
    paid_amount: i64,
    paid_currency: Cow<'src, str>,
    paid_exponent: i64,
    paid_level: PinnedChatLevel,
    is_system_message: bool,
}

impl<'src> View for PinnedChat<'src> {
    type V = PinnedChatView;

    closed spec fn view(&self) -> PinnedChatView {
        PinnedChatView {
            paid_amount: self.paid_amount,
            paid_currency: self.paid_currency@,
            paid_exponent: self.paid_exponent,
            paid_level: self.paid_level,
            is_system_message: self.is_system_message,
        }
    }
}

/// A Hype Chat level in an optional tag value.
pub open spec fn level_value(o: Option<Seq<char>>) -> Option<PinnedChatLevel> {
    match o {
        Some(s) => level_of(s),
        None => None,
    }
}

/// The Hype Chat of a message: present where it has the `pinned-chat-paid-amount` tag,
/// and then only where every `pinned-chat-paid-*` tag is present and reads.
pub open spec fn pinned_chat_of(m: IrcMessageRef) -> Option<PinnedChatView> {
    match tag_value(m, Tag::PinnedChatPaidAmount) {
        Some(amount) => match (
            signed_value(Some(amount)),
            tag_value(m, Tag::PinnedChatPaidCurrency),
            signed_value(tag_value(m, Tag::PinnedChatPaidExponent)),
            level_value(tag_value(m, Tag::PinnedChatPaidLevel)),
            tag_value(m, Tag::PinnedChatPaidIsSystemMessage),
        ) {
            (Some(paid_amount), Some(paid_currency), Some(paid_exponent), Some(paid_level), Some(system)) => Some(
                PinnedChatView {
                    paid_amount,
                    paid_currency,
                    paid_exponent,
                    paid_level,
                    is_system_message: flag_value(system),
                },
            ),
            _ => None,
        },
        None => None,
    }
}

impl<'src> PinnedChat<'src> {
    /// The value of the Hype Chat sent by the user.
    pub fn paid_amount(&self) -> (r: i64)
        ensures
            r == self@.paid_amount,
    {
        self.paid_amount
    }

    /// The ISO 4217 alphabetic currency code the user has sent the Hype Chat in.
    pub fn paid_currency(&self) -> (r: &str)
        ensures
            r@ == self@.paid_currency,
    {
        cow_str(&self.paid_currency)
    }

    /// Indicates how many decimal points this currency represents partial amounts in.
    pub fn paid_exponent(&self) -> (r: i64)
        ensures
            r == self@.paid_exponent,
    {
        self.paid_exponent
    }

    /// The level of the Hype Chat, in English.
    pub fn paid_level(&self) -> (r: PinnedChatLevel)
        ensures
            r == self@.paid_level,
    {
        self.paid_level
    }

    /// Whether the message sent with the Hype Chat was filled in by the system.
    pub fn is_system_message(&self) -> (r: bool)
        ensures
            r == self@.is_system_message,
    {
        self.is_system_message
    }

    /// Clone data to give the value a `'static` lifetime.
    pub fn into_owned(self) -> (r: PinnedChat<'static>)
        ensures
            r@ == self@,
    {
        PinnedChat {
            paid_amount: self.paid_amount,
            paid_currency: owned_cow(self.paid_currency),
            paid_exponent: self.paid_exponent,
            paid_level: self.paid_level,
            is_system_message: self.is_system_message,
        }
    }

    fn parse(message: &IrcMessageRef<'src>) -> (r: Option<Self>)
        ensures
            match pinned_chat_of(*message) {
                Some(v) => r matches Some(x) && x@ == v,
                None => r is None,
            },
    {
        let amount = match message.tag(Tag::PinnedChatPaidAmount) {
            Some(x) => x,
            None => return None,
        };
        let paid_amount = match parse_i64(amount) {
            Some(x) => x,
            None => return None,
        };
        let paid_currency = match message.tag(Tag::PinnedChatPaidCurrency) {
            Some(x) => x,
            None => return None,
        };
        let paid_exponent = match message.tag(Tag::PinnedChatPaidExponent) {
            Some(x) => match parse_i64(x) {
                Some(n) => n,
                None => return None,
            },
            None => return None,
        };
        let paid_level = match message.tag(Tag::PinnedChatPaidLevel) {
            Some(x) => match PinnedChatLevel::parse(x) {
                Ok(l) => l,
                Err(_) => return None,
            },
            None => return None,
        };
        let is_system_message = match message.tag(Tag::PinnedChatPaidIsSystemMessage) {
            Some(x) => parse_bool(x),
            None => return None,
        };
        Some(PinnedChat {
            paid_amount,
            paid_currency: Cow::Borrowed(paid_currency),
            paid_exponent,
            paid_level,
            is_system_message,
        })
    }
}

/// What the reply tags of a message hold.
pub struct ReplyView {
    /// The `reply-thread-parent-msg-id` tag.
    pub thread_parent_message_id: Seq<char>,
    /// The `reply-thread-parent-user-login` tag.
    pub thread_parent_user_login: Seq<char>,
    /// The `reply-parent-msg-id` tag.
    pub message_id: Seq<char>,
    /// The `reply-parent-user-id`, `reply-parent-user-login` and `reply-parent-display-name` tags.
    pub sender: (Seq<char>, Seq<char>, Seq<char>),
    /// The `reply-parent-msg-body` tag.
    pub text: Seq<char>,
}

/// Information about the reply parent message.
#[derive(Debug, PartialEq, Eq)]
pub struct Reply<'src> {
    thread_parent_message_id: Cow<'src, str>,
    thread_parent_user_login: Cow<'src, str>,
    message_id: Cow<'src, str>,
    sender: User<'src>,
    text: Cow<'src, str>,
}

impl<'src> View for Reply<'src> {
    type V = ReplyView;

    closed spec fn view(&self) -> ReplyView {
        ReplyView {
            thread_parent_message_id: self.thread_parent_message_id@,
            thread_parent_user_login: self.thread_parent_user_login@,
            message_id: self.message_id@,
            sender: self.sender@,
            text: self.text@,
        }
    }
}

/// The reply of a message: present where it has the `reply-parent-msg-id` tag,
/// and then only where every other reply tag is present.
pub open spec fn reply_of(m: IrcMessageRef) -> Option<ReplyView> {
    match tag_value(m, Tag::ReplyParentMsgId) {
        Some(message_id) => match (
            tag_value(m, Tag::ReplyThreadParentMsgId),
            tag_value(m, Tag::ReplyThreadParentUserLogin),
            user_of(
                tag_value(m, Tag::ReplyParentUserId),
                tag_value(m, Tag::ReplyParentUserLogin),
                tag_value(m, Tag::ReplyParentDisplayName),
            ),
            tag_value(m, Tag::ReplyParentMsgBody),
        ) {
            (Some(thread_parent_message_id), Some(thread_parent_user_login), Some(sender), Some(text)) => Some(
                ReplyView { thread_parent_message_id, thread_parent_user_login, message_id, sender, text },
            ),
            _ => None,
        },
        None => None,
    }
}

impl<'src> Reply<'src> {
    /// Root message ID of the thread the user replied to.
    pub fn thread_parent_message_id(&self) -> (r: &str)
        ensures
            r@ == self@.thread_parent_message_id,
    {
        cow_str(&self.thread_parent_message_id)
    }

    /// Login of the user who posted the root message in the thread the user replied to.
    pub fn thread_parent_user_login(&self) -> (r: &str)
        ensures
            r@ == self@.thread_parent_user_login,
    {
        cow_str(&self.thread_parent_user_login)
    }

    /// ID of the message the user replied to directly.
    pub fn message_id(&self) -> (r: &str)
        ensures
            r@ == self@.message_id,
    {
        cow_str(&self.message_id)
    }

    /// Sender of the message the user replied to directly.
    pub fn sender(&self) -> (r: User<'src>)
        ensures
            r@ == self@.sender,
    {
        self.sender.clone()
    }

    /// Text of the message the user replied to directly.
    ///
    /// ⚠ This call will allocate and return a String if it needs to be unescaped.
    pub fn text(&self) -> (r: Cow<'src, str>)
        ensures
            r@ == maybe_unescaped(self@.text),
    {
        maybe_unescape(copy_cow(&self.text))
    }

    /// Clone data to give the value a `'static` lifetime.
    pub fn into_owned(self) -> (r: Reply<'static>)
        ensures
            r@ == self@,
    {
        Reply {
            thread_parent_message_id: owned_cow(self.thread_parent_message_id),
            thread_parent_user_login: owned_cow(self.thread_parent_user_login),
            message_id: owned_cow(self.message_id),
            sender: self.sender.into_owned(),
            text: owned_cow(self.text),
        }
    }

    fn parse(message: &IrcMessageRef<'src>) -> (r: Option<Self>)
        ensures
            match reply_of(*message) {
                Some(v) => r matches Some(x) && x@ == v,
                None => r is None,
            },
    {
        let message_id = match message.tag(Tag::ReplyParentMsgId) {
            Some(x) => x,
            None => return None,
        };
        let thread_parent_message_id = match message.tag(Tag::ReplyThreadParentMsgId) {
            Some(x) => x,
            None => return None,
        };
        let thread_parent_user_login = match message.tag(Tag::ReplyThreadParentUserLogin) {
            Some(x) => x,
            None => return None,
        };
        let sender = match opt_user(
            message.tag(Tag::ReplyParentUserId),
            message.tag(Tag::ReplyParentUserLogin),
            message.tag(Tag::ReplyParentDisplayName),
        ) {
            Some(u) => u,
            None => return None,
        };
        let text = match message.tag(Tag::ReplyParentMsgBody) {
            Some(x) => x,
            None => return None,
        };
        Some(Reply {
            thread_parent_message_id: Cow::Borrowed(thread_parent_message_id),
            thread_parent_user_login: Cow::Borrowed(thread_parent_user_login),
            message_id: Cow::Borrowed(message_id),
            sender,
            text: Cow::Borrowed(text),
        })
    }
}

/// What a `PRIVMSG` message holds.
pub struct PrivmsgView {
    /// The channel.
    pub channel: Seq<char>,
    /// The `room-id` tag.
    pub channel_id: Seq<char>,
    /// The `msg-id` tag.
    pub msg_id: Option<Seq<char>>,
    /// The `id` tag.
    pub id: Seq<char>,
    /// The sender: `user-id` tag, nick of the prefix, `display-name` tag.
    pub sender: (Seq<char>, Seq<char>, Seq<char>),
    /// The reply, where there is one.
    pub reply_to: Option<ReplyView>,
    /// The Hype Chat, where there is one.
    pub pinned_chat: Option<PinnedChatView>,
    /// The text, without the `/me` wrapping.
    pub text: Seq<char>,
    /// Whether the text was sent with `/me`.
    pub is_action: bool,
    /// The badges of the `badges` and `badge-info` tags.
    pub badges: Seq<BadgeView>,
    /// The `color` tag, where it is not empty.
    pub color: Option<Seq<char>>,
    /// The `custom-reward-id` tag, where it is not empty.
    pub custom_reward_id: Option<Seq<char>>,
    /// The `bits` tag, where it reads as a number.
    pub bits: Option<u64>,
    /// The `emotes` tag, or nothing.
    pub emotes: Seq<char>,
    /// The `tmi-sent-ts` tag, in milliseconds.
    pub timestamp: i64,
}

/// Represents a basic Twitch chat message sent by some user to a specific channel.
#[derive(Debug, PartialEq, Eq)]
pub struct Privmsg<'src> {
    channel: Cow<'src, str>,
    channel_id: Cow<'src, str>,
    msg_id: Option<Cow<'src, str>>,
    id: Cow<'src, str>,
    sender: User<'src>,
    reply_to: Option<Reply<'src>>,
    pinned_chat: Option<PinnedChat<'src>>,
    text: Cow<'src, str>,
    is_action: bool,
    badges: Vec<Badge<'src>>,
    color: Option<Cow<'src, str>>,
    custom_reward_id: Option<Cow<'src, str>>,
    bits: Option<u64>,
    emotes: Cow<'src, str>,
    timestamp: i64,
}

/// The view of an optional reply.
pub open spec fn opt_reply_view(o: Option<Reply>) -> Option<ReplyView> {
    match o {
        Some(r) => Some(r@),
        None => None,
    }
}

/// The view of an optional Hype Chat.
pub open spec fn opt_pinned_view(o: Option<PinnedChat>) -> Option<PinnedChatView> {
    match o {
        Some(p) => Some(p@),
        None => None,
    }
}

impl<'src> View for Privmsg<'src> {
    type V = PrivmsgView;

    closed spec fn view(&self) -> PrivmsgView {
        PrivmsgView {
            channel: self.channel@,
            channel_id: self.channel_id@,
            msg_id: opt_cow_view(self.msg_id),
            id: self.id@,
            sender: self.sender@,
            reply_to: opt_reply_view(self.reply_to),
            pinned_chat: opt_pinned_view(self.pinned_chat),
            text: self.text@,
            is_action: self.is_action,
            badges: badge_views(self.badges@),
            color: opt_cow_view(self.color),
            custom_reward_id: opt_cow_view(self.custom_reward_id),
            bits: self.bits,
            emotes: self.emotes@,
            timestamp: self.timestamp,
        }
    }
}

/// What a `PRIVMSG` message says; it needs a text, a channel, a nick, and the `room-id`,
/// `id`, `user-id`, `display-name` and `tmi-sent-ts` tags.
pub open spec fn privmsg_of(m: IrcMessageRef) -> Option<PrivmsgView> {
    if m.spec_command() is Privmsg {
        match (
            m.spec_text(),
            m.spec_channel(),
            tag_value(m, Tag::RoomId),
            tag_value(m, Tag::Id),
            user_of(tag_value(m, Tag::UserId), m.spec_nick(), tag_value(m, Tag::DisplayName)),
            timestamp_value(tag_value(m, Tag::TmiSentTs)),
        ) {
            (Some(t), Some(channel), Some(channel_id), Some(id), Some(sender), Some(timestamp)) => Some(
                PrivmsgView {
                    channel,
                    channel_id,
                    msg_id: tag_value(m, Tag::MsgId),
                    id,
                    sender,
                    reply_to: reply_of(m),
                    pinned_chat: pinned_chat_of(m),
                    text: message_text(t).0,
                    is_action: message_text(t).1,
                    badges: tag_badges(tag_value(m, Tag::Badges), tag_value(m, Tag::BadgeInfo)),
                    color: non_empty(tag_value(m, Tag::Color)),
                    custom_reward_id: non_empty(tag_value(m, Tag::CustomRewardId)),
                    bits: number_value(tag_value(m, Tag::Bits)),
                    emotes: or_empty_value(tag_value(m, Tag::Emotes)),
                    timestamp,
                },
            ),
            _ => None,
        }
    } else {
        None
    }
}

impl<'src> Privmsg<'src> {
    /// Unique ID of the message.
    pub fn id(&self) -> (r: &str)
        ensures
            r@ == self@.id,
    {
        cow_str(&self.id)
    }

    /// Channel in which this message was sent.
    pub fn channel(&self) -> (r: &str)
        ensures
            r@ == self@.channel,
    {
        cow_str(&self.channel)
    }

    /// ID of the channel in which this message was sent.
    pub fn channel_id(&self) -> (r: &str)
        ensures
            r@ == self@.channel_id,
    {
        cow_str(&self.channel_id)
    }

    /// The `msg-id` tag, representing the type of message.
    pub fn msg_id(&self) -> (r: Option<&str>)
        ensures
            opt_view(r) == self@.msg_id,
    {
        opt_cow_str(&self.msg_id)
    }

    /// Basic info about the user who sent this message.
    pub fn sender(&self) -> (r: &User<'src>)
        ensures
            r@ == self@.sender,
    {
        &self.sender
    }

    /// Info about the parent message this message is a reply.
    pub fn reply_to(&self) -> (r: Option<&Reply<'src>>)
        ensures
            match r {
                Some(x) => self@.reply_to == Some(x@),
                None => self@.reply_to is None,
            },
    {
        match &self.reply_to {
            Some(x) => Some(x),
            None => None,
        }
    }

    /// Info about the pinned message this message is pinned to.
    pub fn pinned_chat(&self) -> (r: Option<&PinnedChat<'src>>)
        ensures
            match r {
                Some(x) => self@.pinned_chat == Some(x@),
                None => self@.pinned_chat is None,
            },
    {
        match &self.pinned_chat {
            Some(x) => Some(x),
            None => None,
        }
    }

    /// Text content of the message.
    ///
    /// This strips the action prefix/suffix bytes if the message was sent with `/me`.
    pub fn text(&self) -> (r: &str)
        ensures
            r@ == self@.text,
    {
        cow_str(&self.text)
    }

    /// Whether the message was sent with `/me`.
    pub fn is_action(&self) -> (r: bool)
        ensures
            r == self@.is_action,
    {
        self.is_action
    }

    /// The channel badges enabled by the user in the [channel][`Privmsg::channel`].
    pub fn badges(&self) -> (r: &[Badge<'src>])
        ensures
            badge_views(r@) == self@.badges,
    {
        self.badges.as_slice()
    }

    /// Number of channel badges enabled by the user in the [channel][`Privmsg::channel`].
    pub fn num_badges(&self) -> (r: usize)
        ensures
            r == self@.badges.len(),
    {
        self.badges.len()
    }

    /// The user's selected name color.
    ///
    /// [`None`] means the user has not selected a color.
    pub fn color(&self) -> (r: Option<&str>)
        ensures
            opt_view(r) == self@.color,
    {
        opt_cow_str(&self.color)
    }

    /// ID of the custom reward/redeem
    ///
    /// Note: This is only provided for redeems with a message.
    pub fn custom_reward_id(&self) -> (r: Option<&str>)
        ensures
            opt_view(r) == self@.custom_reward_id,
    {
        opt_cow_str(&self.custom_reward_id)
    }

    /// The number of bits gifted with this message.
    pub fn bits(&self) -> (r: Option<u64>)
        ensures
            r == self@.bits,
    {
        self.bits
    }

    /// The emote raw emote ranges present in this message.
    pub fn raw_emotes(&self) -> (r: &str)
        ensures
            r@ == self@.emotes,
    {
        cow_str(&self.emotes)
    }

    /// The time at which the message was sent, in milliseconds since the Unix epoch.
    pub fn timestamp(&self) -> (r: i64)
        ensures
            r == self@.timestamp,
    {
        self.timestamp
    }

    /// Clone data to give the value a `'static` lifetime.
    pub fn into_owned(self) -> (r: Privmsg<'static>)
        ensures
            r@ == self@,
    {
        Privmsg {
            channel: owned_cow(self.channel),
            channel_id: owned_cow(self.channel_id),
            msg_id: opt_owned_cow(self.msg_id),
            id: owned_cow(self.id),
            sender: self.sender.into_owned(),
            reply_to: match self.reply_to {
                Some(x) => Some(x.into_owned()),
                None => None,
            },
            pinned_chat: match self.pinned_chat {
                Some(x) => Some(x.into_owned()),
                None => None,
            },
            text: owned_cow(self.text),
            is_action: self.is_action,
            badges: badges_into_owned(self.badges),
            color: opt_owned_cow(self.color),
            custom_reward_id: opt_owned_cow(self.custom_reward_id),
            bits: self.bits,
            emotes: owned_cow(self.emotes),
            timestamp: self.timestamp,
        }
    }

    #[verifier::rlimit(40)]
    fn parse(message: &IrcMessageRef<'src>) -> (r: Option<Self>)
        ensures
            match privmsg_of(*message) {
                Some(v) => r matches Some(x) && x@ == v,
                None => r is None,
            },
    {
        if !matches!(message.command(), Command::Privmsg) {
            return None;
        }
        let (text, is_action) = match message.text() {
            Some(t) => parse_message_text(t),
            None => return None,
        };
        let channel = match message.channel() {
            Some(x) => x,
            None => return None,
        };
        let channel_id = match message.tag(Tag::RoomId) {
            Some(x) => x,
            None => return None,
        };
        let msg_id = opt_borrowed(message.tag(Tag::MsgId));
        let id = match message.tag(Tag::Id) {
            Some(x) => x,
            None => return None,
        };
        let nick = match message.prefix() {
            Some(p) => p.nick,
            None => None,
        };
        let sender = match opt_user(message.tag(Tag::UserId), nick, message.tag(Tag::DisplayName)) {
            Some(u) => u,
            None => return None,
        };
        let reply_to = Reply::parse(message);
        let pinned_chat = PinnedChat::parse(message);
        let badges = parse_tag_badges(message.tag(Tag::Badges), message.tag(Tag::BadgeInfo));
        let color = non_empty_borrowed(message.tag(Tag::Color));
        let custom_reward_id = non_empty_borrowed(message.tag(Tag::CustomRewardId));
        let bits = parse_number(message.tag(Tag::Bits));
        let emotes = or_empty(message.tag(Tag::Emotes));
        let timestamp = match parse_opt_timestamp(message.tag(Tag::TmiSentTs)) {
            Some(x) => x,
            None => return None,
        };
        Some(Privmsg {
            channel: Cow::Borrowed(channel),
            channel_id: Cow::Borrowed(channel_id),
            msg_id,
            id: Cow::Borrowed(id),
            sender,
            reply_to,
            pinned_chat,
            text: Cow::Borrowed(text),
            is_action,
            badges,
            color,
            custom_reward_id,
            bits,
            emotes,
            timestamp,
        })
    }
}

/// Every chat message that reads carries its reply exactly where all seven reply tags are
/// present, and then the reply's message id is the `reply-parent-msg-id` tag, its thread
/// parent message id the `reply-thread-parent-msg-id` tag, its thread parent login the
/// `reply-thread-parent-user-login` tag, its sender the `reply-parent-user-id`,
/// `reply-parent-user-login` and `reply-parent-display-name` tags, and its text the
/// `reply-parent-msg-body` tag. Its Hype Chat is read from the `pinned-chat-paid-*` tags,
/// and its channel id, id, sender id, display name, message kind and timestamp are those of
/// the `room-id`, `id`, `user-id`, `display-name`, `msg-id` and `tmi-sent-ts` tags.
pub proof fn lemma_privmsg_fields(m: IrcMessageRef)
    requires
        privmsg_of(m) is Some,
    ensures
        ({
            let v = privmsg_of(m)->0;
            let tag = |name: Seq<char>| m.spec_tag(name);
            &&& v.reply_to is Some <==> (tag("reply-parent-msg-id"@) is Some && tag(
                "reply-thread-parent-msg-id"@,
            ) is Some && tag("reply-thread-parent-user-login"@) is Some && tag("reply-parent-user-id"@) is Some
                && tag("reply-parent-user-login"@) is Some && tag("reply-parent-display-name"@) is Some && tag(
                "reply-parent-msg-body"@,
            ) is Some)
            &&& v.reply_to is Some ==> {
                let r = v.reply_to->0;
                &&& tag("reply-parent-msg-id"@) == Some(r.message_id)
                &&& tag("reply-thread-parent-msg-id"@) == Some(r.thread_parent_message_id)
                &&& tag("reply-thread-parent-user-login"@) == Some(r.thread_parent_user_login)
                &&& tag("reply-parent-user-id"@) == Some(r.sender.0)
                &&& tag("reply-parent-user-login"@) == Some(r.sender.1)
                &&& tag("reply-parent-display-name"@) == Some(r.sender.2)
                &&& tag("reply-parent-msg-body"@) == Some(r.text)
            }
            &&& v.pinned_chat is Some ==> {
                let p = v.pinned_chat->0;
                &&& signed_value(tag("pinned-chat-paid-amount"@)) == Some(p.paid_amount)
                &&& tag("pinned-chat-paid-currency"@) == Some(p.paid_currency)
                &&& signed_value(tag("pinned-chat-paid-exponent"@)) == Some(p.paid_exponent)
                &&& level_value(tag("pinned-chat-paid-level"@)) == Some(p.paid_level)
                &&& tag("pinned-chat-paid-is-system-message"@) matches Some(s) && flag_value(s)
                    == p.is_system_message
            }
            &&& tag("pinned-chat-paid-amount"@) is None ==> v.pinned_chat is None
            &&& tag("room-id"@) == Some(v.channel_id)
            &&& tag("id"@) == Some(v.id)
            &&& tag("user-id"@) == Some(v.sender.0)
            &&& m.spec_nick() == Some(v.sender.1)
            &&& tag("display-name"@) == Some(v.sender.2)
            &&& v.msg_id == tag("msg-id"@)
            &&& timestamp_value(tag("tmi-sent-ts"@)) == Some(v.timestamp)
            &&& v.color == non_empty(tag("color"@))
            &&& v.custom_reward_id == non_empty(tag("custom-reward-id"@))
            &&& v.bits == number_value(tag("bits"@))
            &&& v.emotes == or_empty_value(tag("emotes"@))
            &&& v.badges == tag_badges(tag("badges"@), tag("badge-info"@))
            &&& (v.text, v.is_action) == message_text(m.spec_text()->0)
            &&& m.spec_channel() == Some(v.channel)
        }),
{
}

impl<'src> crate::msg::sealed::Sealed for Privmsg<'src> {
}

impl<'src> crate::msg::FromIrc<'src> for Privmsg<'src> {
    open spec fn accepts(message: IrcMessageRef<'src>) -> bool {
        true
    }

    fn from_irc(message: IrcMessageRef<'src>) -> (r: Result<Self, MessageParseError>)
        ensures
            match privmsg_of(message) {
                Some(v) => r matches Ok(x) && x@ == v,
                None => r is Err,
            },
    {
        match Self::parse(&message) {
            Some(x) => Ok(x),
            None => Err(MessageParseError),
        }
    }
}

impl<'src> Clone for PinnedChat<'src> {
    fn clone(&self) -> (r: Self)
        ensures
            r@ == self@,
    {
        PinnedChat {
            paid_amount: self.paid_amount,
            paid_currency: copy_cow(&self.paid_currency),
            paid_exponent: self.paid_exponent,
            paid_level: self.paid_level,
            is_system_message: self.is_system_message,
        }
    }
}

impl<'src> Clone for Reply<'src> {
    fn clone(&self) -> (r: Self)
        ensures
            r@ == self@,
    {
        Reply {
            thread_parent_message_id: copy_cow(&self.thread_parent_message_id),
            thread_parent_user_login: copy_cow(&self.thread_parent_user_login),
            message_id: copy_cow(&self.message_id),
            sender: self.sender.clone(),
            text: copy_cow(&self.text),
        }
    }
}

impl<'src> Clone for Privmsg<'src> {
    fn clone(&self) -> (r: Self)
        ensures
            r@ == self@,
    {
        Privmsg {
            channel: copy_cow(&self.channel),
            channel_id: copy_cow(&self.channel_id),
            msg_id: copy_opt_cow(&self.msg_id),
            id: copy_cow(&self.id),
            sender: self.sender.clone(),
            reply_to: match &self.reply_to {
                Some(x) => Some(x.clone()),
                None => None,
            },
            pinned_chat: match &self.pinned_chat {
                Some(x) => Some(x.clone()),
                None => None,
            },
            text: copy_cow(&self.text),
            is_action: self.is_action,
            badges: copy_badges(&self.badges),
            color: copy_opt_cow(&self.color),
            custom_reward_id: copy_opt_cow(&self.custom_reward_id),
            bits: self.bits,
            emotes: copy_cow(&self.emotes),
            timestamp: self.timestamp,
        }
    }
}

} // verus!
