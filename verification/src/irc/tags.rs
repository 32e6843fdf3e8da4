//! Message tags: `@key=value;key=value `.
use vstd::prelude::*;
use vstd::string::StrSliceExecFns;
use vstd::utf8::is_char_boundary;
use crate::common::{span, span_ok, span_text, Span};
use crate::strings::{char_index, lemma_char_index, lemma_chars_differ};
use crate::irc::wide::find_in;
use crate::text::{bytes_of, index_of, lemma_ascii_char_bytes, lemma_encode_concat, lemma_first_ascii, lemma_index_of_shift, lemma_ascii_boundary, lemma_index_of, str_eq, substr, text_at};

verus! {

broadcast use vstd::utf8::group_utf8_lib;

/// A tag key.
#[derive(Clone, Copy, Debug, Hash, PartialEq, Eq, PartialOrd, Ord)]
#[non_exhaustive]
pub enum Tag<'src> {
    /// The `msg-id` tag.
    MsgId,
    /// The `badges` tag.
    Badges,
    /// The `badge-info` tag.
    BadgeInfo,
    /// The `display-name` tag.
    DisplayName,
    /// The `emote-only` tag.
    EmoteOnly,
    /// The `emotes` tag.
    Emotes,
    /// The `flags` tag.
    Flags,
    /// The `id` tag.
    Id,
    /// The `mod` tag.
    Mod,
    /// The `room-id` tag.
    RoomId,
    /// The `subscriber` tag.
    Subscriber,
    /// The `tmi-sent-ts` tag.
    TmiSentTs,
    /// The `turbo` tag.
    Turbo,
    /// The `user-id` tag.
    UserId,
    /// The `user-type` tag.
    UserType,
    /// The `client-nonce` tag.
    ClientNonce,
    /// The `first-msg` tag.
    FirstMsg,
    /// The `reply-parent-display-name` tag.
    ReplyParentDisplayName,
    /// The `reply-parent-msg-body` tag.
    ReplyParentMsgBody,
    /// The `reply-parent-msg-id` tag. The message that was replied to directly; unlike `reply-thread-parent-msg-id`, not the first message of the thread.
    ReplyParentMsgId,
    /// The `reply-parent-user-id` tag.
    ReplyParentUserId,
    /// The `reply-parent-user-login` tag.
    ReplyParentUserLogin,
    /// The `reply-thread-parent-msg-id` tag. The first message of the thread that was replied to; the same for every reply in the thread.
    ReplyThreadParentMsgId,
    /// The `reply-thread-parent-user-login` tag. The login of the author of the first message of the thread that was replied to.
    ReplyThreadParentUserLogin,
    /// The `followers-only` tag.
    FollowersOnly,
    /// The `r9k` tag.
    R9K,
    /// The `rituals` tag.
    Rituals,
    /// The `slow` tag.
    Slow,
    /// The `subs-only` tag.
    SubsOnly,
    /// The `msg-param-cumulative-months` tag.
    MsgParamCumulativeMonths,
    /// The `msg-param-displayName` tag.
    MsgParamDisplayName,
    /// The `msg-param-login` tag.
    MsgParamLogin,
    /// The `msg-param-months` tag.
    MsgParamMonths,
    /// The `msg-param-promo-gift-total` tag.
    MsgParamPromoGiftTotal,
    /// The `msg-param-promo-name` tag.
    MsgParamPromoName,
    /// The `msg-param-recipient-display-name` tag.
    MsgParamRecipientDisplayName,
    /// The `msg-param-recipient-id` tag.
    MsgParamRecipientId,
    /// The `msg-param-recipient-user-name` tag.
    MsgParamRecipientUserName,
    /// The `msg-param-sender-login` tag.
    MsgParamSenderLogin,
    /// The `msg-param-sender-name` tag.
    MsgParamSenderName,
    /// The `msg-param-should-share-streak` tag.
    MsgParamShouldShareStreak,
    /// The `msg-param-streak-months` tag.
    MsgParamStreakMonths,
    /// The `msg-param-sub-plan` tag.
    MsgParamSubPlan,
    /// The `msg-param-sub-plan-name` tag.
    MsgParamSubPlanName,
    /// The `msg-param-viewerCount` tag.
    MsgParamViewerCount,
    /// The `msg-param-ritual-name` tag.
    MsgParamRitualName,
    /// The `msg-param-threshold` tag.
    MsgParamThreshold,
    /// The `msg-param-gift-months` tag.
    MsgParamGiftMonths,
    /// The `msg-param-color` tag.
    MsgParamColor,
    /// The `login` tag.
    Login,
    /// The `bits` tag.
    Bits,
    /// The `system-msg` tag.
    SystemMsg,
    /// The `emote-sets` tag.
    EmoteSets,
    /// The `thread-id` tag.
    ThreadId,
    /// The `message-id` tag.
    MessageId,
    /// The `returning-chatter` tag.
    ReturningChatter,
    /// The `color` tag.
    Color,
    /// The `vip` tag.
    Vip,
    /// The `target-user-id` tag.
    TargetUserId,
    /// The `target-msg-id` tag.
    TargetMsgId,
    /// The `ban-duration` tag.
    BanDuration,
    /// The `msg-param-multimonth-duration` tag.
    MsgParamMultimonthDuration,
    /// The `msg-param-was-gifted` tag.
    MsgParamWasGifted,
    /// The `msg-param-multimonth-tenure` tag.
    MsgParamMultimonthTenure,
    /// The `sent-ts` tag.
    SentTs,
    /// The `msg-param-origin-id` tag.
    MsgParamOriginId,
    /// The `msg-param-fun-string` tag.
    MsgParamFunString,
    /// The `msg-param-sender-count` tag.
    MsgParamSenderCount,
    /// The `msg-param-profileImageURL` tag.
    MsgParamProfileImageUrl,
    /// The `msg-param-mass-gift-count` tag.
    MsgParamMassGiftCount,
    /// The `msg-param-gift-month-being-redeemed` tag.
    MsgParamGiftMonthBeingRedeemed,
    /// The `msg-param-anon-gift` tag.
    MsgParamAnonGift,
    /// The `custom-reward-id` tag.
    CustomRewardId,
    /// The `pinned-chat-paid-amount` tag. What the user paid for the Hype Chat, in the smallest unit of the currency.
    PinnedChatPaidAmount,
    /// The `pinned-chat-paid-canonical-amount` tag. Twitch sends the same value as `pinned-chat-paid-amount` here.
    PinnedChatPaidCanonicalAmount,
    /// The `pinned-chat-paid-currency` tag. The currency of the Hype Chat, as an ISO 4217 code.
    PinnedChatPaidCurrency,
    /// The `pinned-chat-paid-exponent` tag. The number of decimal places of the currency of the Hype Chat.
    PinnedChatPaidExponent,
    /// The `pinned-chat-paid-level` tag. The level of the Hype Chat, one of `ONE` to `TEN`.
    PinnedChatPaidLevel,
    /// The `pinned-chat-paid-is-system-message` tag. `1` where Twitch wrote the message of the Hype Chat because the user left it empty, else `0`.
    PinnedChatPaidIsSystemMessage,
    /// A tag that this library does not name, by its key.
    Unknown(&'src str),
}

/// The string that [`Tag::as_str`] returns.
pub open spec fn tag_name(t: Tag) -> Seq<char> {
    match t {
        Tag::BadgeInfo => "badge-info"@,
        Tag::Badges => "badges"@,
        Tag::BanDuration => "ban-duration"@,
        Tag::Bits => "bits"@,
        Tag::ClientNonce => "client-nonce"@,
        Tag::Color => "color"@,
        Tag::CustomRewardId => "custom-reward-id"@,
        Tag::DisplayName => "display-name"@,
        Tag::EmoteOnly => "emote-only"@,
        Tag::EmoteSets => "emote-sets"@,
        Tag::Emotes => "emotes"@,
        Tag::FirstMsg => "first-msg"@,
        Tag::Flags => "flags"@,
        Tag::FollowersOnly => "followers-only"@,
        Tag::Id => "id"@,
        Tag::Login => "login"@,
        Tag::MessageId => "message-id"@,
        Tag::Mod => "mod"@,
        Tag::MsgId => "msg-id"@,
        Tag::MsgParamAnonGift => "msg-param-anon-gift"@,
        Tag::MsgParamColor => "msg-param-color"@,
        Tag::MsgParamCumulativeMonths => "msg-param-cumulative-months"@,
        Tag::MsgParamDisplayName => "msg-param-displayName"@,
        Tag::MsgParamFunString => "msg-param-fun-string"@,
        Tag::MsgParamGiftMonthBeingRedeemed => "msg-param-gift-month-being-redeemed"@,
        Tag::MsgParamGiftMonths => "msg-param-gift-months"@,
        Tag::MsgParamLogin => "msg-param-login"@,
        Tag::MsgParamMassGiftCount => "msg-param-mass-gift-count"@,
        Tag::MsgParamMonths => "msg-param-months"@,
        Tag::MsgParamMultimonthDuration => "msg-param-multimonth-duration"@,
        Tag::MsgParamMultimonthTenure => "msg-param-multimonth-tenure"@,
        Tag::MsgParamOriginId => "msg-param-origin-id"@,
        Tag::MsgParamProfileImageUrl => "msg-param-profileImageURL"@,
        Tag::MsgParamPromoGiftTotal => "msg-param-promo-gift-total"@,
        Tag::MsgParamPromoName => "msg-param-promo-name"@,
        Tag::MsgParamRecipientDisplayName => "msg-param-recipient-display-name"@,
        Tag::MsgParamRecipientId => "msg-param-recipient-id"@,
        Tag::MsgParamRecipientUserName => "msg-param-recipient-user-name"@,
        Tag::MsgParamRitualName => "msg-param-ritual-name"@,
        Tag::MsgParamSenderCount => "msg-param-sender-count"@,
        Tag::MsgParamSenderLogin => "msg-param-sender-login"@,
        Tag::MsgParamSenderName => "msg-param-sender-name"@,
        Tag::MsgParamShouldShareStreak => "msg-param-should-share-streak"@,
        Tag::MsgParamStreakMonths => "msg-param-streak-months"@,
        Tag::MsgParamSubPlan => "msg-param-sub-plan"@,
        Tag::MsgParamSubPlanName => "msg-param-sub-plan-name"@,
        Tag::MsgParamThreshold => "msg-param-threshold"@,
        Tag::MsgParamViewerCount => "msg-param-viewerCount"@,
        Tag::MsgParamWasGifted => "msg-param-was-gifted"@,
        Tag::PinnedChatPaidAmount => "pinned-chat-paid-amount"@,
        Tag::PinnedChatPaidCanonicalAmount => "pinned-chat-paid-canonical-amount"@,
        Tag::PinnedChatPaidCurrency => "pinned-chat-paid-currency"@,
        Tag::PinnedChatPaidExponent => "pinned-chat-paid-exponent"@,
        Tag::PinnedChatPaidIsSystemMessage => "pinned-chat-paid-is-system-message"@,
        Tag::PinnedChatPaidLevel => "pinned-chat-paid-level"@,
        Tag::R9K => "r9k"@,
        Tag::ReplyParentDisplayName => "reply-parent-display-name"@,
        Tag::ReplyParentMsgBody => "reply-parent-msg-body"@,
        Tag::ReplyParentMsgId => "reply-parent-msg-id"@,
        Tag::ReplyParentUserId => "reply-parent-user-id"@,
        Tag::ReplyParentUserLogin => "reply-parent-user-login"@,
        Tag::ReplyThreadParentMsgId => "reply-thread-parent-msg-id"@,
        Tag::ReplyThreadParentUserLogin => "reply-thread-parent-user-login"@,
        Tag::ReturningChatter => "returning-chatter"@,
        Tag::Rituals => "rituals"@,
        Tag::RoomId => "room-id"@,
        Tag::SentTs => "sent-ts"@,
        Tag::Slow => "slow"@,
        Tag::SubsOnly => "subs-only"@,
        Tag::Subscriber => "subscriber"@,
        Tag::SystemMsg => "system-msg"@,
        Tag::TargetMsgId => "target-msg-id"@,
        Tag::TargetUserId => "target-user-id"@,
        Tag::ThreadId => "thread-id"@,
        Tag::TmiSentTs => "tmi-sent-ts"@,
        Tag::Turbo => "turbo"@,
        Tag::UserId => "user-id"@,
        Tag::UserType => "user-type"@,
        Tag::Vip => "vip"@,
        Tag::Unknown(key) => key@,
    }
}

/// The tag that [`Tag::parse`] returns for `s`: the known tag named `s`, looked up among
/// the names of its length in alphabetical order, or else `Unknown(s)`.
pub open spec fn tag_of<'a>(s: &'a str) -> Tag<'a> {
    let n = s@.len();
    if n == 2 {
        if s@ == "id"@ {
            Tag::Id
        } else {
            Tag::Unknown(s)
        }
    } else if n == 3 {
        if s@ == "mod"@ {
            Tag::Mod
        } else if s@ == "r9k"@ {
            Tag::R9K
        } else if s@ == "vip"@ {
            Tag::Vip
        } else {
            Tag::Unknown(s)
        }
    } else if n == 4 {
        if s@ == "bits"@ {
            Tag::Bits
        } else if s@ == "slow"@ {
            Tag::Slow
        } else {
            Tag::Unknown(s)
        }
    } else if n == 5 {
        if s@ == "color"@ {
            Tag::Color
        } else if s@ == "flags"@ {
            Tag::Flags
        } else if s@ == "login"@ {
            Tag::Login
        } else if s@ == "turbo"@ {
            Tag::Turbo
        } else {
            Tag::Unknown(s)
        }
    } else if n == 6 {
        if s@ == "badges"@ {
            Tag::Badges
        } else if s@ == "emotes"@ {
            Tag::Emotes
        } else if s@ == "msg-id"@ {
            Tag::MsgId
        } else {
            Tag::Unknown(s)
        }
    } else if n == 7 {
        if s@ == "rituals"@ {
            Tag::Rituals
        } else if s@ == "room-id"@ {
            Tag::RoomId
        } else if s@ == "sent-ts"@ {
            Tag::SentTs
        } else if s@ == "user-id"@ {
            Tag::UserId
        } else {
            Tag::Unknown(s)
        }
    } else if n == 9 {
        if s@ == "first-msg"@ {
            Tag::FirstMsg
        } else if s@ == "subs-only"@ {
            Tag::SubsOnly
        } else if s@ == "thread-id"@ {
            Tag::ThreadId
        } else if s@ == "user-type"@ {
            Tag::UserType
        } else {
            Tag::Unknown(s)
        }
    } else if n == 10 {
        if s@ == "badge-info"@ {
            Tag::BadgeInfo
        } else if s@ == "emote-only"@ {
            Tag::EmoteOnly
        } else if s@ == "emote-sets"@ {
            Tag::EmoteSets
        } else if s@ == "message-id"@ {
            Tag::MessageId
        } else if s@ == "subscriber"@ {
            Tag::Subscriber
        } else if s@ == "system-msg"@ {
            Tag::SystemMsg
        } else {
            Tag::Unknown(s)
        }
    } else if n == 11 {
        if s@ == "tmi-sent-ts"@ {
            Tag::TmiSentTs
        } else {
            Tag::Unknown(s)
        }
    } else if n == 12 {
        if s@ == "ban-duration"@ {
            Tag::BanDuration
        } else if s@ == "client-nonce"@ {
            Tag::ClientNonce
        } else if s@ == "display-name"@ {
            Tag::DisplayName
        } else {
            Tag::Unknown(s)
        }
    } else if n == 13 {
        if s@ == "target-msg-id"@ {
            Tag::TargetMsgId
        } else {
            Tag::Unknown(s)
        }
    } else if n == 14 {
        if s@ == "followers-only"@ {
            Tag::FollowersOnly
        } else if s@ == "target-user-id"@ {
            Tag::TargetUserId
        } else {
            Tag::Unknown(s)
        }
    } else if n == 15 {
        if s@ == "msg-param-color"@ {
            Tag::MsgParamColor
        } else if s@ == "msg-param-login"@ {
            Tag::MsgParamLogin
        } else {
            Tag::Unknown(s)
        }
    } else if n == 16 {
        if s@ == "custom-reward-id"@ {
            Tag::CustomRewardId
        } else if s@ == "msg-param-months"@ {
            Tag::MsgParamMonths
        } else {
            Tag::Unknown(s)
        }
    } else if n == 17 {
        if s@ == "returning-chatter"@ {
            Tag::ReturningChatter
        } else {
            Tag::Unknown(s)
        }
    } else if n == 18 {
        if s@ == "msg-param-sub-plan"@ {
            Tag::MsgParamSubPlan
        } else {
            Tag::Unknown(s)
        }
    } else if n == 19 {
        if s@ == "msg-param-anon-gift"@ {
            Tag::MsgParamAnonGift
        } else if s@ == "msg-param-origin-id"@ {
            Tag::MsgParamOriginId
        } else if s@ == "msg-param-threshold"@ {
            Tag::MsgParamThreshold
        } else if s@ == "reply-parent-msg-id"@ {
            Tag::ReplyParentMsgId
        } else {
            Tag::Unknown(s)
        }
    } else if n == 20 {
        if s@ == "msg-param-fun-string"@ {
            Tag::MsgParamFunString
        } else if s@ == "msg-param-promo-name"@ {
            Tag::MsgParamPromoName
        } else if s@ == "msg-param-was-gifted"@ {
            Tag::MsgParamWasGifted
        } else if s@ == "reply-parent-user-id"@ {
            Tag::ReplyParentUserId
        } else {
            Tag::Unknown(s)
        }
    } else if n == 21 {
        if s@ == "msg-param-displayName"@ {
            Tag::MsgParamDisplayName
        } else if s@ == "msg-param-gift-months"@ {
            Tag::MsgParamGiftMonths
        } else if s@ == "msg-param-ritual-name"@ {
            Tag::MsgParamRitualName
        } else if s@ == "msg-param-sender-name"@ {
            Tag::MsgParamSenderName
        } else if s@ == "msg-param-viewerCount"@ {
            Tag::MsgParamViewerCount
        } else if s@ == "reply-parent-msg-body"@ {
            Tag::ReplyParentMsgBody
        } else {
            Tag::Unknown(s)
        }
    } else if n == 22 {
        if s@ == "msg-param-recipient-id"@ {
            Tag::MsgParamRecipientId
        } else if s@ == "msg-param-sender-count"@ {
            Tag::MsgParamSenderCount
        } else if s@ == "msg-param-sender-login"@ {
            Tag::MsgParamSenderLogin
        } else if s@ == "pinned-chat-paid-level"@ {
            Tag::PinnedChatPaidLevel
        } else {
            Tag::Unknown(s)
        }
    } else if n == 23 {
        if s@ == "msg-param-streak-months"@ {
            Tag::MsgParamStreakMonths
        } else if s@ == "msg-param-sub-plan-name"@ {
            Tag::MsgParamSubPlanName
        } else if s@ == "pinned-chat-paid-amount"@ {
            Tag::PinnedChatPaidAmount
        } else if s@ == "reply-parent-user-login"@ {
            Tag::ReplyParentUserLogin
        } else {
            Tag::Unknown(s)
        }
    } else if n == 25 {
        if s@ == "msg-param-mass-gift-count"@ {
            Tag::MsgParamMassGiftCount
        } else if s@ == "msg-param-profileImageURL"@ {
            Tag::MsgParamProfileImageUrl
        } else if s@ == "pinned-chat-paid-currency"@ {
            Tag::PinnedChatPaidCurrency
        } else if s@ == "pinned-chat-paid-exponent"@ {
            Tag::PinnedChatPaidExponent
        } else if s@ == "reply-parent-display-name"@ {
            Tag::ReplyParentDisplayName
        } else {
            Tag::Unknown(s)
        }
    } else if n == 26 {
        if s@ == "msg-param-promo-gift-total"@ {
            Tag::MsgParamPromoGiftTotal
        } else if s@ == "reply-thread-parent-msg-id"@ {
            Tag::ReplyThreadParentMsgId
        } else {
            Tag::Unknown(s)
        }
    } else if n == 27 {
        if s@ == "msg-param-cumulative-months"@ {
            Tag::MsgParamCumulativeMonths
        } else if s@ == "msg-param-multimonth-tenure"@ {
            Tag::MsgParamMultimonthTenure
        } else {
            Tag::Unknown(s)
        }
    } else if n == 29 {
        if s@ == "msg-param-multimonth-duration"@ {
            Tag::MsgParamMultimonthDuration
        } else if s@ == "msg-param-recipient-user-name"@ {
            Tag::MsgParamRecipientUserName
        } else if s@ == "msg-param-should-share-streak"@ {
            Tag::MsgParamShouldShareStreak
        } else {
            Tag::Unknown(s)
        }
    } else if n == 30 {
        if s@ == "reply-thread-parent-user-login"@ {
            Tag::ReplyThreadParentUserLogin
        } else {
            Tag::Unknown(s)
        }
    } else if n == 32 {
        if s@ == "msg-param-recipient-display-name"@ {
            Tag::MsgParamRecipientDisplayName
        } else {
            Tag::Unknown(s)
        }
    } else if n == 33 {
        if s@ == "pinned-chat-paid-canonical-amount"@ {
            Tag::PinnedChatPaidCanonicalAmount
        } else {
            Tag::Unknown(s)
        }
    } else if n == 34 {
        if s@ == "pinned-chat-paid-is-system-message"@ {
            Tag::PinnedChatPaidIsSystemMessage
        } else {
            Tag::Unknown(s)
        }
    } else if n == 35 {
        if s@ == "msg-param-gift-month-being-redeemed"@ {
            Tag::MsgParamGiftMonthBeingRedeemed
        } else {
            Tag::Unknown(s)
        }
    } else {
        Tag::Unknown(s)
    }
}

impl<'src> Tag<'src> {
    /// Get the string value of the [`Tag`].
    pub fn as_str(&self) -> (r: &'src str)
        ensures
            r@ == tag_name(*self),
    {
        match self {
            Tag::BadgeInfo => "badge-info",
            Tag::Badges => "badges",
            Tag::BanDuration => "ban-duration",
            Tag::Bits => "bits",
            Tag::ClientNonce => "client-nonce",
            Tag::Color => "color",
            Tag::CustomRewardId => "custom-reward-id",
            Tag::DisplayName => "display-name",
            Tag::EmoteOnly => "emote-only",
            Tag::EmoteSets => "emote-sets",
            Tag::Emotes => "emotes",
            Tag::FirstMsg => "first-msg",
            Tag::Flags => "flags",
            Tag::FollowersOnly => "followers-only",
            Tag::Id => "id",
            Tag::Login => "login",
            Tag::MessageId => "message-id",
            Tag::Mod => "mod",
            Tag::MsgId => "msg-id",
            Tag::MsgParamAnonGift => "msg-param-anon-gift",
            Tag::MsgParamColor => "msg-param-color",
            Tag::MsgParamCumulativeMonths => "msg-param-cumulative-months",
            Tag::MsgParamDisplayName => "msg-param-displayName",
            Tag::MsgParamFunString => "msg-param-fun-string",
            Tag::MsgParamGiftMonthBeingRedeemed => "msg-param-gift-month-being-redeemed",
            Tag::MsgParamGiftMonths => "msg-param-gift-months",
            Tag::MsgParamLogin => "msg-param-login",
            Tag::MsgParamMassGiftCount => "msg-param-mass-gift-count",
            Tag::MsgParamMonths => "msg-param-months",
            Tag::MsgParamMultimonthDuration => "msg-param-multimonth-duration",
            Tag::MsgParamMultimonthTenure => "msg-param-multimonth-tenure",
            Tag::MsgParamOriginId => "msg-param-origin-id",
            Tag::MsgParamProfileImageUrl => "msg-param-profileImageURL",
            Tag::MsgParamPromoGiftTotal => "msg-param-promo-gift-total",
            Tag::MsgParamPromoName => "msg-param-promo-name",
            Tag::MsgParamRecipientDisplayName => "msg-param-recipient-display-name",
            Tag::MsgParamRecipientId => "msg-param-recipient-id",
            Tag::MsgParamRecipientUserName => "msg-param-recipient-user-name",
            Tag::MsgParamRitualName => "msg-param-ritual-name",
            Tag::MsgParamSenderCount => "msg-param-sender-count",
            Tag::MsgParamSenderLogin => "msg-param-sender-login",
            Tag::MsgParamSenderName => "msg-param-sender-name",
            Tag::MsgParamShouldShareStreak => "msg-param-should-share-streak",
            Tag::MsgParamStreakMonths => "msg-param-streak-months",
            Tag::MsgParamSubPlan => "msg-param-sub-plan",
            Tag::MsgParamSubPlanName => "msg-param-sub-plan-name",
            Tag::MsgParamThreshold => "msg-param-threshold",
            Tag::MsgParamViewerCount => "msg-param-viewerCount",
            Tag::MsgParamWasGifted => "msg-param-was-gifted",
            Tag::PinnedChatPaidAmount => "pinned-chat-paid-amount",
            Tag::PinnedChatPaidCanonicalAmount => "pinned-chat-paid-canonical-amount",
            Tag::PinnedChatPaidCurrency => "pinned-chat-paid-currency",
            Tag::PinnedChatPaidExponent => "pinned-chat-paid-exponent",
            Tag::PinnedChatPaidIsSystemMessage => "pinned-chat-paid-is-system-message",
            Tag::PinnedChatPaidLevel => "pinned-chat-paid-level",
            Tag::R9K => "r9k",
            Tag::ReplyParentDisplayName => "reply-parent-display-name",
            Tag::ReplyParentMsgBody => "reply-parent-msg-body",
            Tag::ReplyParentMsgId => "reply-parent-msg-id",
            Tag::ReplyParentUserId => "reply-parent-user-id",
            Tag::ReplyParentUserLogin => "reply-parent-user-login",
            Tag::ReplyThreadParentMsgId => "reply-thread-parent-msg-id",
            Tag::ReplyThreadParentUserLogin => "reply-thread-parent-user-login",
            Tag::ReturningChatter => "returning-chatter",
            Tag::Rituals => "rituals",
            Tag::RoomId => "room-id",
            Tag::SentTs => "sent-ts",
            Tag::Slow => "slow",
            Tag::SubsOnly => "subs-only",
            Tag::Subscriber => "subscriber",
            Tag::SystemMsg => "system-msg",
            Tag::TargetMsgId => "target-msg-id",
            Tag::TargetUserId => "target-user-id",
            Tag::ThreadId => "thread-id",
            Tag::TmiSentTs => "tmi-sent-ts",
            Tag::Turbo => "turbo",
            Tag::UserId => "user-id",
            Tag::UserType => "user-type",
            Tag::Vip => "vip",
            Tag::Unknown(key) => key,
        }
    }

    /// Parse a [`Tag`] from a string.
    pub fn parse(src: &'src str) -> (r: Tag<'src>)
        ensures
            r == tag_of(src),
    {
        let n = src.unicode_len();
        if n == 2 {
            if str_eq(src, "id") {
                return Tag::Id;
            }
        } else if n == 3 {
            if str_eq(src, "mod") {
                return Tag::Mod;
            }
            if str_eq(src, "r9k") {
                return Tag::R9K;
            }
            if str_eq(src, "vip") {
                return Tag::Vip;
            }
        } else if n == 4 {
            if str_eq(src, "bits") {
                return Tag::Bits;
            }
            if str_eq(src, "slow") {
                return Tag::Slow;
            }
        } else if n == 5 {
            if str_eq(src, "color") {
                return Tag::Color;
            }
            if str_eq(src, "flags") {
                return Tag::Flags;
            }
            if str_eq(src, "login") {
                return Tag::Login;
            }
            if str_eq(src, "turbo") {
                return Tag::Turbo;
            }
        } else if n == 6 {
            if str_eq(src, "badges") {
                return Tag::Badges;
            }
            if str_eq(src, "emotes") {
                return Tag::Emotes;
            }
            if str_eq(src, "msg-id") {
                return Tag::MsgId;
            }
        } else if n == 7 {
            if str_eq(src, "rituals") {
                return Tag::Rituals;
            }
            if str_eq(src, "room-id") {
                return Tag::RoomId;
            }
            if str_eq(src, "sent-ts") {
                return Tag::SentTs;
            }
            if str_eq(src, "user-id") {
                return Tag::UserId;
            }
        } else if n == 9 {
            if str_eq(src, "first-msg") {
                return Tag::FirstMsg;
            }
            if str_eq(src, "subs-only") {
                return Tag::SubsOnly;
            }
            if str_eq(src, "thread-id") {
                return Tag::ThreadId;
            }
            if str_eq(src, "user-type") {
                return Tag::UserType;
            }
        } else if n == 10 {
            if str_eq(src, "badge-info") {
                return Tag::BadgeInfo;
            }
            if str_eq(src, "emote-only") {
                return Tag::EmoteOnly;
            }
            if str_eq(src, "emote-sets") {
                return Tag::EmoteSets;
            }
            if str_eq(src, "message-id") {
                return Tag::MessageId;
            }
            if str_eq(src, "subscriber") {
                return Tag::Subscriber;
            }
            if str_eq(src, "system-msg") {
                return Tag::SystemMsg;
            }
        } else if n == 11 {
            if str_eq(src, "tmi-sent-ts") {
                return Tag::TmiSentTs;
            }
        } else if n == 12 {
            if str_eq(src, "ban-duration") {
                return Tag::BanDuration;
            }
            if str_eq(src, "client-nonce") {
                return Tag::ClientNonce;
            }
            if str_eq(src, "display-name") {
                return Tag::DisplayName;
            }
        } else if n == 13 {
            if str_eq(src, "target-msg-id") {
                return Tag::TargetMsgId;
            }
        } else if n == 14 {
            if str_eq(src, "followers-only") {
                return Tag::FollowersOnly;
            }
            if str_eq(src, "target-user-id") {
                return Tag::TargetUserId;
            }
        } else if n == 15 {
            if str_eq(src, "msg-param-color") {
                return Tag::MsgParamColor;
            }
            if str_eq(src, "msg-param-login") {
                return Tag::MsgParamLogin;
            }
        } else if n == 16 {
            if str_eq(src, "custom-reward-id") {
                return Tag::CustomRewardId;
            }
            if str_eq(src, "msg-param-months") {
                return Tag::MsgParamMonths;
            }
        } else if n == 17 {
            if str_eq(src, "returning-chatter") {
                return Tag::ReturningChatter;
            }
        } else if n == 18 {
            if str_eq(src, "msg-param-sub-plan") {
                return Tag::MsgParamSubPlan;
            }
        } else if n == 19 {
            if str_eq(src, "msg-param-anon-gift") {
                return Tag::MsgParamAnonGift;
            }
            if str_eq(src, "msg-param-origin-id") {
                return Tag::MsgParamOriginId;
            }
            if str_eq(src, "msg-param-threshold") {
                return Tag::MsgParamThreshold;
            }
            if str_eq(src, "reply-parent-msg-id") {
                return Tag::ReplyParentMsgId;
            }
        } else if n == 20 {
            if str_eq(src, "msg-param-fun-string") {
                return Tag::MsgParamFunString;
            }
            if str_eq(src, "msg-param-promo-name") {
                return Tag::MsgParamPromoName;
            }
            if str_eq(src, "msg-param-was-gifted") {
                return Tag::MsgParamWasGifted;
            }
            if str_eq(src, "reply-parent-user-id") {
                return Tag::ReplyParentUserId;
            }
        } else if n == 21 {
            if str_eq(src, "msg-param-displayName") {
                return Tag::MsgParamDisplayName;
            }
            if str_eq(src, "msg-param-gift-months") {
                return Tag::MsgParamGiftMonths;
            }
            if str_eq(src, "msg-param-ritual-name") {
                return Tag::MsgParamRitualName;
            }
            if str_eq(src, "msg-param-sender-name") {
                return Tag::MsgParamSenderName;
            }
            if str_eq(src, "msg-param-viewerCount") {
                return Tag::MsgParamViewerCount;
            }
            if str_eq(src, "reply-parent-msg-body") {
                return Tag::ReplyParentMsgBody;
            }
        } else if n == 22 {
            if str_eq(src, "msg-param-recipient-id") {
                return Tag::MsgParamRecipientId;
            }
            if str_eq(src, "msg-param-sender-count") {
                return Tag::MsgParamSenderCount;
            }
            if str_eq(src, "msg-param-sender-login") {
                return Tag::MsgParamSenderLogin;
            }
            if str_eq(src, "pinned-chat-paid-level") {
                return Tag::PinnedChatPaidLevel;
            }
        } else if n == 23 {
            if str_eq(src, "msg-param-streak-months") {
                return Tag::MsgParamStreakMonths;
            }
            if str_eq(src, "msg-param-sub-plan-name") {
                return Tag::MsgParamSubPlanName;
            }
            if str_eq(src, "pinned-chat-paid-amount") {
                return Tag::PinnedChatPaidAmount;
            }
            if str_eq(src, "reply-parent-user-login") {
                return Tag::ReplyParentUserLogin;
            }
        } else if n == 25 {
            if str_eq(src, "msg-param-mass-gift-count") {
                return Tag::MsgParamMassGiftCount;
            }
            if str_eq(src, "msg-param-profileImageURL") {
                return Tag::MsgParamProfileImageUrl;
            }
            if str_eq(src, "pinned-chat-paid-currency") {
                return Tag::PinnedChatPaidCurrency;
            }
            if str_eq(src, "pinned-chat-paid-exponent") {
                return Tag::PinnedChatPaidExponent;
            }
            if str_eq(src, "reply-parent-display-name") {
                return Tag::ReplyParentDisplayName;
            }
        } else if n == 26 {
            if str_eq(src, "msg-param-promo-gift-total") {
                return Tag::MsgParamPromoGiftTotal;
            }
            if str_eq(src, "reply-thread-parent-msg-id") {
                return Tag::ReplyThreadParentMsgId;
            }
        } else if n == 27 {
            if str_eq(src, "msg-param-cumulative-months") {
                return Tag::MsgParamCumulativeMonths;
            }
            if str_eq(src, "msg-param-multimonth-tenure") {
                return Tag::MsgParamMultimonthTenure;
            }
        } else if n == 29 {
            if str_eq(src, "msg-param-multimonth-duration") {
                return Tag::MsgParamMultimonthDuration;
            }
            if str_eq(src, "msg-param-recipient-user-name") {
                return Tag::MsgParamRecipientUserName;
            }
            if str_eq(src, "msg-param-should-share-streak") {
                return Tag::MsgParamShouldShareStreak;
            }
        } else if n == 30 {
            if str_eq(src, "reply-thread-parent-user-login") {
                return Tag::ReplyThreadParentUserLogin;
            }
        } else if n == 32 {
            if str_eq(src, "msg-param-recipient-display-name") {
                return Tag::MsgParamRecipientDisplayName;
            }
        } else if n == 33 {
            if str_eq(src, "pinned-chat-paid-canonical-amount") {
                return Tag::PinnedChatPaidCanonicalAmount;
            }
        } else if n == 34 {
            if str_eq(src, "pinned-chat-paid-is-system-message") {
                return Tag::PinnedChatPaidIsSystemMessage;
            }
        } else if n == 35 {
            if str_eq(src, "msg-param-gift-month-being-redeemed") {
                return Tag::MsgParamGiftMonthBeingRedeemed;
            }
        }
        Tag::Unknown(src)
    }
}
/// A `key=value` pair of the tags section, as two byte ranges of the message.
#[derive(Clone, Copy, Debug)]
pub struct TagPair {
    /// The range of the key.
    pub key: Span,
    /// The range of the value.
    pub value: Span,
}

impl TagPair {
    /// The range of the key.
    pub fn key(&self) -> (r: Span)
        ensures
            r == self.key,
    {
        self.key
    }

    /// The range of the value.
    pub fn value(&self) -> (r: Span)
        ensures
            r == self.value,
    {
        self.value
    }

    /// The key and the value, taken from the message `src` that this pair was parsed from.
    pub fn get<'a>(&self, src: &'a str) -> (r: (&'a str, &'a str))
        requires
            span_ok(bytes_of(src@), self.key),
            span_ok(bytes_of(src@), self.value),
        ensures
            r.0@ == text_at(bytes_of(src@), self.key.start as int, self.key.end as int),
            r.1@ == text_at(bytes_of(src@), self.value.start as int, self.value.end as int),
    {
        (
            substr(src, self.key.start as usize, self.key.end as usize),
            substr(src, self.value.start as usize, self.value.end as usize),
        )
    }
}

/// The tag pairs of a message, in the order in which they appear.
#[derive(Debug)]
pub struct RawTags(pub Vec<TagPair>);

/// `' '`
pub const SPACE: u8 = 32;
/// `'@'`
pub const AT: u8 = 64;
/// `';'`
pub const SEMI: u8 = 59;
/// `'='`
pub const EQUALS: u8 = 61;

/// The pair for the segment `b[s..e]` of the tags section: the key ends at the
/// first `=` and the value is the rest, which may hold more `=`s. A segment without
/// `=` gives no pair.
pub open spec fn segment_pairs(b: Seq<u8>, s: int, e: int) -> Seq<TagPair> {
    match index_of(b, s, e, EQUALS) {
        Some(k) => seq![TagPair { key: span(s, k), value: span(k + 1, e) }],
        None => seq![],
    }
}

/// The pairs of the tags section `b[s..end]`: one for each segment between `;`s
/// that holds a `=`.
pub open spec fn tag_pairs(b: Seq<u8>, s: int, end: int) -> Seq<TagPair>
    decreases end - s,
{
    if s < 0 || end > b.len() || s > end {
        seq![]
    } else {
        match index_of(b, s, end, SEMI) {
            Some(e) => {
                proof {
                    lemma_index_of(b, s, end, SEMI);
                }
                segment_pairs(b, s, e) + tag_pairs(b, e + 1, end)
            },
            None => segment_pairs(b, s, end),
        }
    }
}

/// What [`parse`] finds at `pos`: the pairs of `@<tags> `, and the position after the space.
/// There is no tags section unless `b[pos]` is `@` and a space ends it; an empty
/// section has no pairs.
pub open spec fn spec_parse_tags(b: Seq<u8>, pos: int) -> Option<(Seq<TagPair>, int)> {
    if 0 <= pos < b.len() && b[pos] == AT {
        match index_of(b, pos + 1, b.len() as int, SPACE) {
            Some(sp) => Some((tag_pairs(b, pos + 1, sp), sp + 1)),
            None => None,
        }
    } else {
        None
    }
}

/// Every range of every pair is well formed in `b`.
pub open spec fn pairs_ok(b: Seq<u8>, pairs: Seq<TagPair>) -> bool {
    forall|i: int|
        0 <= i < pairs.len() ==> span_ok(b, #[trigger] pairs[i].key) && span_ok(
            b,
            pairs[i].value,
        )
}

/// Appends the pair of the segment `b[s..e]`, if it has one, to `pairs`.
fn push_segment(b: &[u8], s: usize, e: usize, pairs: &mut Vec<TagPair>)
    requires
        s <= e <= b@.len() <= u32::MAX,
        vstd::utf8::valid_utf8(b@),
        is_char_boundary(b@, s as int),
        is_char_boundary(b@, e as int),
        pairs_ok(b@, old(pairs)@),
    ensures
        final(pairs)@ == old(pairs)@ + segment_pairs(b@, s as int, e as int),
        pairs_ok(b@, final(pairs)@),
{
    proof {
        lemma_index_of(b@, s as int, e as int, EQUALS);
    }
    match find_in(b, s, e, EQUALS) {
        Some(k) => {
            proof {
                lemma_ascii_boundary(b@, k as int);
            }
            let ghost before = pairs@;
            pairs.push(TagPair { key: Span::new(s as u32, k as u32), value: Span::new((k + 1) as u32, e as u32) });
            assert(pairs@ =~= before + segment_pairs(b@, s as int, e as int));
        },
        None => {
            assert(pairs@ =~= pairs@ + segment_pairs(b@, s as int, e as int));
        },
    }
}

/// `@a=a;b=b;c= <rest>`
///
/// On success, `pos` moves past the space that ends the tags section.
pub fn parse(src: &str, pos: &mut usize) -> (r: Option<RawTags>)
    requires
        bytes_of(src@).len() <= u32::MAX,
        *old(pos) <= bytes_of(src@).len(),
    ensures
        match spec_parse_tags(bytes_of(src@), *old(pos) as int) {
            Some((pairs, next)) => r matches Some(t) && t.0@ == pairs && *final(pos) == next,
            None => r is None && *final(pos) == *old(pos),
        },
        r matches Some(t) ==> pairs_ok(bytes_of(src@), t.0@),
        is_char_boundary(bytes_of(src@), *old(pos) as int) ==> is_char_boundary(
            bytes_of(src@),
            *final(pos) as int,
        ),
{
    let b = src.as_bytes();
    let ghost bs = b@;
    let p = *pos;
    if p >= b.len() || b[p] != AT {
        return None;
    }
    let t = p + 1;
    let sp = match find_in(b, t, b.len(), SPACE) {
        Some(sp) => sp,
        None => return None,
    };
    proof {
        lemma_index_of(bs, t as int, bs.len() as int, SPACE);
        lemma_ascii_boundary(bs, p as int);
        lemma_ascii_boundary(bs, sp as int);
    }
    let mut pairs: Vec<TagPair> = Vec::new();
    let mut s = t;
    loop
        invariant_except_break
            t <= s <= sp < bs.len(),
            bs == b@,
            bs.len() <= u32::MAX,
            bs[sp as int] == SPACE,
            vstd::utf8::valid_utf8(bs),
            is_char_boundary(bs, s as int),
            is_char_boundary(bs, sp as int),
            pairs@ + tag_pairs(bs, s as int, sp as int) == tag_pairs(bs, t as int, sp as int),
            pairs_ok(bs, pairs@),
        ensures
            pairs@ == tag_pairs(bs, t as int, sp as int),
            pairs_ok(bs, pairs@),
        decreases sp - s,
    {
        proof {
            lemma_index_of(bs, s as int, sp as int, SEMI);
        }
        match find_in(b, s, sp, SEMI) {
            Some(e) => {
                proof {
                    lemma_ascii_boundary(bs, e as int);
                }
                let ghost before = pairs@;
                push_segment(b, s, e, &mut pairs);
                assert(pairs@ + tag_pairs(bs, e + 1, sp as int) =~= before + tag_pairs(
                    bs,
                    s as int,
                    sp as int,
                ));
                s = e + 1;
            },
            None => {
                let ghost before = pairs@;
                push_segment(b, s, sp, &mut pairs);
                assert(pairs@ =~= before + tag_pairs(bs, s as int, sp as int));
                break ;
            },
        }
    }
    *pos = sp + 1;
    Some(RawTags(pairs))
}

/// The tag read from a name has that name: [`Tag::as_str`] gives back what
/// [`Tag::parse`] read.
pub proof fn lemma_tag_of_name(s: &str)
    ensures
        tag_name(tag_of(s)) == s@,
{
}

/// Reading the name of a known tag gives the tag back.
pub proof fn lemma_tag_name_roundtrip(t: Tag, s: &str)
    requires
        s@ == tag_name(t),
        !(t is Unknown),
    ensures
        tag_of(s) == t,
{
    match t {
        Tag::PinnedChatPaidCanonicalAmount => reveal_strlit("pinned-chat-paid-canonical-amount"),
        Tag::Id => reveal_strlit("id"),
        Tag::Mod => reveal_strlit("mod"),
        Tag::R9K => {
            reveal_strlit("r9k");
            reveal_strlit("mod");
            lemma_chars_differ("r9k", "mod", 0);
        },
        Tag::Vip => {
            reveal_strlit("vip");
            reveal_strlit("mod");
            lemma_chars_differ("vip", "mod", 0);
            reveal_strlit("r9k");
            lemma_chars_differ("vip", "r9k", 0);
        },
        Tag::Bits => reveal_strlit("bits"),
        Tag::Slow => {
            reveal_strlit("slow");
            reveal_strlit("bits");
            lemma_chars_differ("slow", "bits", 0);
        },
        Tag::Color => reveal_strlit("color"),
        Tag::Flags => {
            reveal_strlit("flags");
            reveal_strlit("color");
            lemma_chars_differ("flags", "color", 0);
        },
        Tag::Login => {
            reveal_strlit("login");
            reveal_strlit("color");
            lemma_chars_differ("login", "color", 0);
            reveal_strlit("flags");
            lemma_chars_differ("login", "flags", 0);
        },
        Tag::Turbo => {
            reveal_strlit("turbo");
            reveal_strlit("color");
            lemma_chars_differ("turbo", "color", 0);
            reveal_strlit("flags");
            lemma_chars_differ("turbo", "flags", 0);
            reveal_strlit("login");
            lemma_chars_differ("turbo", "login", 0);
        },
        Tag::Badges => reveal_strlit("badges"),
        Tag::Emotes => {
            reveal_strlit("emotes");
            reveal_strlit("badges");
            lemma_chars_differ("emotes", "badges", 0);
        },
        Tag::MsgId => {
            reveal_strlit("msg-id");
            reveal_strlit("badges");
            lemma_chars_differ("msg-id", "badges", 0);
            reveal_strlit("emotes");
            lemma_chars_differ("msg-id", "emotes", 0);
        },
        Tag::Rituals => reveal_strlit("rituals"),
        Tag::RoomId => {
            reveal_strlit("room-id");
            reveal_strlit("rituals");
            lemma_chars_differ("room-id", "rituals", 1);
        },
        Tag::SentTs => {
            reveal_strlit("sent-ts");
            reveal_strlit("rituals");
            lemma_chars_differ("sent-ts", "rituals", 0);
            reveal_strlit("room-id");
            lemma_chars_differ("sent-ts", "room-id", 0);
        },
        Tag::UserId => {
            reveal_strlit("user-id");
            reveal_strlit("rituals");
            lemma_chars_differ("user-id", "rituals", 0);
            reveal_strlit("room-id");
            lemma_chars_differ("user-id", "room-id", 0);
            reveal_strlit("sent-ts");
            lemma_chars_differ("user-id", "sent-ts", 0);
        },
        Tag::FirstMsg => reveal_strlit("first-msg"),
        Tag::SubsOnly => {
            reveal_strlit("subs-only");
            reveal_strlit("first-msg");
            lemma_chars_differ("subs-only", "first-msg", 0);
        },
        Tag::ThreadId => {
            reveal_strlit("thread-id");
            reveal_strlit("first-msg");
            lemma_chars_differ("thread-id", "first-msg", 0);
            reveal_strlit("subs-only");
            lemma_chars_differ("thread-id", "subs-only", 0);
        },
        Tag::UserType => {
            reveal_strlit("user-type");
            reveal_strlit("first-msg");
            lemma_chars_differ("user-type", "first-msg", 0);
            reveal_strlit("subs-only");
            lemma_chars_differ("user-type", "subs-only", 0);
            reveal_strlit("thread-id");
            lemma_chars_differ("user-type", "thread-id", 0);
        },
        Tag::BadgeInfo => reveal_strlit("badge-info"),
        Tag::EmoteOnly => {
            reveal_strlit("emote-only");
            reveal_strlit("badge-info");
            lemma_chars_differ("emote-only", "badge-info", 0);
        },
        Tag::EmoteSets => {
            reveal_strlit("emote-sets");
            reveal_strlit("badge-info");
            lemma_chars_differ("emote-sets", "badge-info", 0);
            reveal_strlit("emote-only");
            lemma_chars_differ("emote-sets", "emote-only", 6);
        },
        Tag::MessageId => {
            reveal_strlit("message-id");
            reveal_strlit("badge-info");
            lemma_chars_differ("message-id", "badge-info", 0);
            reveal_strlit("emote-only");
            lemma_chars_differ("message-id", "emote-only", 0);
            reveal_strlit("emote-sets");
            lemma_chars_differ("message-id", "emote-sets", 0);
        },
        Tag::Subscriber => {
            reveal_strlit("subscriber");
            reveal_strlit("badge-info");
            lemma_chars_differ("subscriber", "badge-info", 0);
            reveal_strlit("emote-only");
            lemma_chars_differ("subscriber", "emote-only", 0);
            reveal_strlit("emote-sets");
            lemma_chars_differ("subscriber", "emote-sets", 0);
            reveal_strlit("message-id");
            lemma_chars_differ("subscriber", "message-id", 0);
        },
        Tag::SystemMsg => {
            reveal_strlit("system-msg");
            reveal_strlit("badge-info");
            lemma_chars_differ("system-msg", "badge-info", 0);
            reveal_strlit("emote-only");
            lemma_chars_differ("system-msg", "emote-only", 0);
            reveal_strlit("emote-sets");
            lemma_chars_differ("system-msg", "emote-sets", 0);
            reveal_strlit("message-id");
            lemma_chars_differ("system-msg", "message-id", 0);
            reveal_strlit("subscriber");
            lemma_chars_differ("system-msg", "subscriber", 1);
        },
        Tag::TmiSentTs => reveal_strlit("tmi-sent-ts"),
        Tag::BanDuration => reveal_strlit("ban-duration"),
        Tag::ClientNonce => {
            reveal_strlit("client-nonce");
            reveal_strlit("ban-duration");
            lemma_chars_differ("client-nonce", "ban-duration", 0);
        },
        Tag::DisplayName => {
            reveal_strlit("display-name");
            reveal_strlit("ban-duration");
            lemma_chars_differ("display-name", "ban-duration", 0);
            reveal_strlit("client-nonce");
            lemma_chars_differ("display-name", "client-nonce", 0);
        },
        Tag::TargetMsgId => reveal_strlit("target-msg-id"),
        Tag::FollowersOnly => reveal_strlit("followers-only"),
        Tag::TargetUserId => {
            reveal_strlit("target-user-id");
            reveal_strlit("followers-only");
            lemma_chars_differ("target-user-id", "followers-only", 0);
        },
        Tag::MsgParamColor => reveal_strlit("msg-param-color"),
        Tag::MsgParamLogin => {
            reveal_strlit("msg-param-login");
            reveal_strlit("msg-param-color");
            lemma_chars_differ("msg-param-login", "msg-param-color", 10);
        },
        Tag::CustomRewardId => reveal_strlit("custom-reward-id"),
        Tag::MsgParamMonths => {
            reveal_strlit("msg-param-months");
            reveal_strlit("custom-reward-id");
            lemma_chars_differ("msg-param-months", "custom-reward-id", 0);
        },
        Tag::ReturningChatter => reveal_strlit("returning-chatter"),
        Tag::MsgParamSubPlan => reveal_strlit("msg-param-sub-plan"),
        Tag::MsgParamAnonGift => reveal_strlit("msg-param-anon-gift"),
        Tag::MsgParamOriginId => {
            reveal_strlit("msg-param-origin-id");
            reveal_strlit("msg-param-anon-gift");
            lemma_chars_differ("msg-param-origin-id", "msg-param-anon-gift", 10);
        },
        Tag::MsgParamThreshold => {
            reveal_strlit("msg-param-threshold");
            reveal_strlit("msg-param-anon-gift");
            lemma_chars_differ("msg-param-threshold", "msg-param-anon-gift", 10);
            reveal_strlit("msg-param-origin-id");
            lemma_chars_differ("msg-param-threshold", "msg-param-origin-id", 10);
        },
        Tag::ReplyParentMsgId => {
            reveal_strlit("reply-parent-msg-id");
            reveal_strlit("msg-param-anon-gift");
            lemma_chars_differ("reply-parent-msg-id", "msg-param-anon-gift", 0);
            reveal_strlit("msg-param-origin-id");
            lemma_chars_differ("reply-parent-msg-id", "msg-param-origin-id", 0);
            reveal_strlit("msg-param-threshold");
            lemma_chars_differ("reply-parent-msg-id", "msg-param-threshold", 0);
        },
        Tag::MsgParamFunString => reveal_strlit("msg-param-fun-string"),
        Tag::MsgParamPromoName => {
            reveal_strlit("msg-param-promo-name");
            reveal_strlit("msg-param-fun-string");
            lemma_chars_differ("msg-param-promo-name", "msg-param-fun-string", 10);
        },
        Tag::MsgParamWasGifted => {
            reveal_strlit("msg-param-was-gifted");
            reveal_strlit("msg-param-fun-string");
            lemma_chars_differ("msg-param-was-gifted", "msg-param-fun-string", 10);
            reveal_strlit("msg-param-promo-name");
            lemma_chars_differ("msg-param-was-gifted", "msg-param-promo-name", 10);
        },
        Tag::ReplyParentUserId => {
            reveal_strlit("reply-parent-user-id");
            reveal_strlit("msg-param-fun-string");
            lemma_chars_differ("reply-parent-user-id", "msg-param-fun-string", 0);
            reveal_strlit("msg-param-promo-name");
            lemma_chars_differ("reply-parent-user-id", "msg-param-promo-name", 0);
            reveal_strlit("msg-param-was-gifted");
            lemma_chars_differ("reply-parent-user-id", "msg-param-was-gifted", 0);
        },
        Tag::MsgParamDisplayName => reveal_strlit("msg-param-displayName"),
        Tag::MsgParamGiftMonths => {
            reveal_strlit("msg-param-gift-months");
            reveal_strlit("msg-param-displayName");
            lemma_chars_differ("msg-param-gift-months", "msg-param-displayName", 10);
        },
        Tag::MsgParamRitualName => {
            reveal_strlit("msg-param-ritual-name");
            reveal_strlit("msg-param-displayName");
            lemma_chars_differ("msg-param-ritual-name", "msg-param-displayName", 10);
            reveal_strlit("msg-param-gift-months");
            lemma_chars_differ("msg-param-ritual-name", "msg-param-gift-months", 10);
        },
        Tag::MsgParamSenderName => {
            reveal_strlit("msg-param-sender-name");
            reveal_strlit("msg-param-displayName");
            lemma_chars_differ("msg-param-sender-name", "msg-param-displayName", 10);
            reveal_strlit("msg-param-gift-months");
            lemma_chars_differ("msg-param-sender-name", "msg-param-gift-months", 10);
            reveal_strlit("msg-param-ritual-name");
            lemma_chars_differ("msg-param-sender-name", "msg-param-ritual-name", 10);
        },
        Tag::MsgParamViewerCount => {
            reveal_strlit("msg-param-viewerCount");
            reveal_strlit("msg-param-displayName");
            lemma_chars_differ("msg-param-viewerCount", "msg-param-displayName", 10);
            reveal_strlit("msg-param-gift-months");
            lemma_chars_differ("msg-param-viewerCount", "msg-param-gift-months", 10);
            reveal_strlit("msg-param-ritual-name");
            lemma_chars_differ("msg-param-viewerCount", "msg-param-ritual-name", 10);
            reveal_strlit("msg-param-sender-name");
            lemma_chars_differ("msg-param-viewerCount", "msg-param-sender-name", 10);
        },
        Tag::ReplyParentMsgBody => {
            reveal_strlit("reply-parent-msg-body");
            reveal_strlit("msg-param-displayName");
            lemma_chars_differ("reply-parent-msg-body", "msg-param-displayName", 0);
            reveal_strlit("msg-param-gift-months");
            lemma_chars_differ("reply-parent-msg-body", "msg-param-gift-months", 0);
            reveal_strlit("msg-param-ritual-name");
            lemma_chars_differ("reply-parent-msg-body", "msg-param-ritual-name", 0);
            reveal_strlit("msg-param-sender-name");
            lemma_chars_differ("reply-parent-msg-body", "msg-param-sender-name", 0);
            reveal_strlit("msg-param-viewerCount");
            lemma_chars_differ("reply-parent-msg-body", "msg-param-viewerCount", 0);
        },
        Tag::MsgParamRecipientId => reveal_strlit("msg-param-recipient-id"),
        Tag::MsgParamSenderCount => {
            reveal_strlit("msg-param-sender-count");
            reveal_strlit("msg-param-recipient-id");
            lemma_chars_differ("msg-param-sender-count", "msg-param-recipient-id", 10);
        },
        Tag::MsgParamSenderLogin => {
            reveal_strlit("msg-param-sender-login");
            reveal_strlit("msg-param-recipient-id");
            lemma_chars_differ("msg-param-sender-login", "msg-param-recipient-id", 10);
            reveal_strlit("msg-param-sender-count");
            lemma_chars_differ("msg-param-sender-login", "msg-param-sender-count", 17);
        },
        Tag::PinnedChatPaidLevel => {
            reveal_strlit("pinned-chat-paid-level");
            reveal_strlit("msg-param-recipient-id");
            lemma_chars_differ("pinned-chat-paid-level", "msg-param-recipient-id", 0);
            reveal_strlit("msg-param-sender-count");
            lemma_chars_differ("pinned-chat-paid-level", "msg-param-sender-count", 0);
            reveal_strlit("msg-param-sender-login");
            lemma_chars_differ("pinned-chat-paid-level", "msg-param-sender-login", 0);
        },
        Tag::MsgParamStreakMonths => reveal_strlit("msg-param-streak-months"),
        Tag::MsgParamSubPlanName => {
            reveal_strlit("msg-param-sub-plan-name");
            reveal_strlit("msg-param-streak-months");
            lemma_chars_differ("msg-param-sub-plan-name", "msg-param-streak-months", 11);
        },
        Tag::PinnedChatPaidAmount => {
            reveal_strlit("pinned-chat-paid-amount");
            reveal_strlit("msg-param-streak-months");
            lemma_chars_differ("pinned-chat-paid-amount", "msg-param-streak-months", 0);
            reveal_strlit("msg-param-sub-plan-name");
            lemma_chars_differ("pinned-chat-paid-amount", "msg-param-sub-plan-name", 0);
        },
        Tag::ReplyParentUserLogin => {
            reveal_strlit("reply-parent-user-login");
            reveal_strlit("msg-param-streak-months");
            lemma_chars_differ("reply-parent-user-login", "msg-param-streak-months", 0);
            reveal_strlit("msg-param-sub-plan-name");
            lemma_chars_differ("reply-parent-user-login", "msg-param-sub-plan-name", 0);
            reveal_strlit("pinned-chat-paid-amount");
            lemma_chars_differ("reply-parent-user-login", "pinned-chat-paid-amount", 0);
        },
        Tag::MsgParamMassGiftCount => reveal_strlit("msg-param-mass-gift-count"),
        Tag::MsgParamProfileImageUrl => {
            reveal_strlit("msg-param-profileImageURL");
            reveal_strlit("msg-param-mass-gift-count");
            lemma_chars_differ("msg-param-profileImageURL", "msg-param-mass-gift-count", 10);
        },
        Tag::PinnedChatPaidCurrency => {
            reveal_strlit("pinned-chat-paid-currency");
            reveal_strlit("msg-param-mass-gift-count");
            lemma_chars_differ("pinned-chat-paid-currency", "msg-param-mass-gift-count", 0);
            reveal_strlit("msg-param-profileImageURL");
            lemma_chars_differ("pinned-chat-paid-currency", "msg-param-profileImageURL", 0);
        },
        Tag::PinnedChatPaidExponent => {
            reveal_strlit("pinned-chat-paid-exponent");
            reveal_strlit("msg-param-mass-gift-count");
            lemma_chars_differ("pinned-chat-paid-exponent", "msg-param-mass-gift-count", 0);
            reveal_strlit("msg-param-profileImageURL");
            lemma_chars_differ("pinned-chat-paid-exponent", "msg-param-profileImageURL", 0);
            reveal_strlit("pinned-chat-paid-currency");
            lemma_chars_differ("pinned-chat-paid-exponent", "pinned-chat-paid-currency", 17);
        },
        Tag::ReplyParentDisplayName => {
            reveal_strlit("reply-parent-display-name");
            reveal_strlit("msg-param-mass-gift-count");
            lemma_chars_differ("reply-parent-display-name", "msg-param-mass-gift-count", 0);
            reveal_strlit("msg-param-profileImageURL");
            lemma_chars_differ("reply-parent-display-name", "msg-param-profileImageURL", 0);
            reveal_strlit("pinned-chat-paid-currency");
            lemma_chars_differ("reply-parent-display-name", "pinned-chat-paid-currency", 0);
            reveal_strlit("pinned-chat-paid-exponent");
            lemma_chars_differ("reply-parent-display-name", "pinned-chat-paid-exponent", 0);
        },
        Tag::MsgParamPromoGiftTotal => reveal_strlit("msg-param-promo-gift-total"),
        Tag::ReplyThreadParentMsgId => {
            reveal_strlit("reply-thread-parent-msg-id");
            reveal_strlit("msg-param-promo-gift-total");
            lemma_chars_differ("reply-thread-parent-msg-id", "msg-param-promo-gift-total", 0);
        },
        Tag::MsgParamCumulativeMonths => reveal_strlit("msg-param-cumulative-months"),
        Tag::MsgParamMultimonthTenure => {
            reveal_strlit("msg-param-multimonth-tenure");
            reveal_strlit("msg-param-cumulative-months");
            lemma_chars_differ("msg-param-multimonth-tenure", "msg-param-cumulative-months", 10);
        },
        Tag::MsgParamMultimonthDuration => reveal_strlit("msg-param-multimonth-duration"),
        Tag::MsgParamRecipientUserName => {
            reveal_strlit("msg-param-recipient-user-name");
            reveal_strlit("msg-param-multimonth-duration");
            lemma_chars_differ("msg-param-recipient-user-name", "msg-param-multimonth-duration", 10);
        },
        Tag::MsgParamShouldShareStreak => {
            reveal_strlit("msg-param-should-share-streak");
            reveal_strlit("msg-param-multimonth-duration");
            lemma_chars_differ("msg-param-should-share-streak", "msg-param-multimonth-duration", 10);
            reveal_strlit("msg-param-recipient-user-name");
            lemma_chars_differ("msg-param-should-share-streak", "msg-param-recipient-user-name", 10);
        },
        Tag::ReplyThreadParentUserLogin => reveal_strlit("reply-thread-parent-user-login"),
        Tag::MsgParamRecipientDisplayName => reveal_strlit("msg-param-recipient-display-name"),
        Tag::PinnedChatPaidIsSystemMessage => reveal_strlit("pinned-chat-paid-is-system-message"),
        Tag::MsgParamGiftMonthBeingRedeemed => reveal_strlit("msg-param-gift-month-being-redeemed"),
        _ => {},
    }
}

/// The first ASCII `c` in a range of `b` that encodes `chars` is where `chars` has its
/// first `c`.
proof fn lemma_first_in_range(b: Seq<u8>, s: int, e: int, chars: Seq<char>, c: char)
    requires
        0 <= s <= e <= b.len(),
        b.subrange(s, e) == bytes_of(chars),
        (c as u32) < 0x80,
    ensures
        index_of(b, s, e, c as u8) == match char_index(chars, c, 0) {
            Some(k) => Some(s + bytes_of(chars.take(k)).len()),
            None => None,
        },
{
    lemma_first_ascii(chars, c);
    lemma_index_of_shift(b, s, e, c as u8, s);
}

/// A tag key: no `=` and no `;`.
pub open spec fn plain_key(k: Seq<char>) -> bool {
    forall|i: int| 0 <= i < k.len() ==> k[i] != '=' && k[i] != ';'
}

/// A tag value: no `;`; it may hold `=`.
pub open spec fn plain_value(v: Seq<char>) -> bool {
    forall|i: int| 0 <= i < v.len() ==> v[i] != ';'
}

/// The tags section `k0=v0;k1=v1;...` made of the keys `ks` and the values `vs`.
pub open spec fn section_text(ks: Seq<Seq<char>>, vs: Seq<Seq<char>>) -> Seq<char>
    decreases ks.len(),
{
    if ks.len() <= 1 {
        ks[0] + seq!['='] + vs[0]
    } else {
        ks[0] + seq!['='] + vs[0] + seq![';'] + section_text(ks.drop_first(), vs.drop_first())
    }
}

/// One segment `k=v` of a tags section, encoded in `b[s..e]`, gives the pair `(k, v)`.
proof fn lemma_tag_segment(b: Seq<u8>, s: int, e: int, k: Seq<char>, v: Seq<char>)
    requires
        0 <= s <= e <= b.len() <= u32::MAX,
        b.subrange(s, e) == bytes_of(k + seq!['='] + v),
        plain_key(k),
    ensures
        segment_pairs(b, s, e).len() == 1,
        span_text(b, segment_pairs(b, s, e)[0].key) == k,
        span_text(b, segment_pairs(b, s, e)[0].value) == v,
{
    let seg = k + seq!['='] + v;
    lemma_first_in_range(b, s, e, seg, '=');
    lemma_char_index(seg, '=', 0);
    assert(seg[k.len() as int] == '=');
    assert(seg.take(k.len() as int) =~= k);
    lemma_encode_concat(k, seq!['=']);
    lemma_encode_concat(k + seq!['='], v);
    lemma_ascii_char_bytes('=');
    let n = bytes_of(k).len() as int;
    let bs = b.subrange(s, e);
    assert(bs.subrange(0, n) =~= bytes_of(k));
    assert(bs.subrange(n + 1, bs.len() as int) =~= bytes_of(v));
    assert(b.subrange(s, s + n) =~= bytes_of(k));
    assert(b.subrange(s + n + 1, e) =~= bytes_of(v));
    vstd::utf8::encode_utf8_decode_utf8(k);
    vstd::utf8::encode_utf8_decode_utf8(v);
}

/// A tags section made of keys and values, encoded in `b[s..e]`, gives the pairs of
/// those keys and values, in order; values may hold `=`.
pub proof fn lemma_tag_section(b: Seq<u8>, s: int, e: int, ks: Seq<Seq<char>>, vs: Seq<Seq<char>>)
    requires
        0 <= s <= e <= b.len() <= u32::MAX,
        1 <= ks.len() == vs.len(),
        forall|i: int| 0 <= i < ks.len() ==> plain_key(#[trigger] ks[i]) && plain_value(vs[i]),
        b.subrange(s, e) == bytes_of(section_text(ks, vs)),
    ensures
        tag_pairs(b, s, e).len() == ks.len(),
        forall|i: int|
            0 <= i < ks.len() ==> span_text(b, #[trigger] tag_pairs(b, s, e)[i].key) == ks[i] && span_text(
                b,
                tag_pairs(b, s, e)[i].value,
            ) == vs[i],
    decreases ks.len(),
{
    let k = ks[0];
    let v = vs[0];
    let seg = k + seq!['='] + v;
    assert(plain_key(ks[0]) && plain_value(vs[0]));
    assert forall|i: int| 0 <= i < seg.len() implies seg[i] != ';' by {
        if i < k.len() {
        } else if i > k.len() {
            assert(seg[i] == v[i - k.len() - 1]);
        }
    }
    if ks.len() == 1 {
        lemma_first_in_range(b, s, e, seg, ';');
        lemma_char_index(seg, ';', 0);
        lemma_tag_segment(b, s, e, k, v);
    } else {
        let rest = section_text(ks.drop_first(), vs.drop_first());
        let full = seg + seq![';'] + rest;
        assert(section_text(ks, vs) == full);
        lemma_first_in_range(b, s, e, full, ';');
        lemma_char_index(full, ';', 0);
        assert(full[seg.len() as int] == ';');
        assert(full.take(seg.len() as int) =~= seg);
        lemma_encode_concat(seg, seq![';']);
        lemma_encode_concat(seg + seq![';'], rest);
        lemma_ascii_char_bytes(';');
        let n = bytes_of(seg).len() as int;
        let e1 = s + n;
        let bs = b.subrange(s, e);
        assert(bs.subrange(0, n) =~= bytes_of(seg));
        assert(b.subrange(s, e1) =~= bytes_of(seg));
        assert(b.subrange(e1 + 1, e) =~= bs.subrange(n + 1, bs.len() as int));
        assert(bs.subrange(n + 1, bs.len() as int) =~= bytes_of(rest));
        lemma_index_of(b, s, e, SEMI);
        lemma_tag_segment(b, s, e1, k, v);
        assert forall|i: int| 0 <= i < ks.drop_first().len() implies plain_key(#[trigger] ks.drop_first()[i]) && plain_value(
            vs.drop_first()[i],
        ) by {
            assert(ks.drop_first()[i] == ks[i + 1]);
            assert(vs.drop_first()[i] == vs[i + 1]);
        }
        lemma_tag_section(b, e1 + 1, e, ks.drop_first(), vs.drop_first());
        assert(tag_pairs(b, s, e) == segment_pairs(b, s, e1) + tag_pairs(b, e1 + 1, e));
        assert forall|i: int| 0 <= i < ks.len() implies span_text(b, #[trigger] tag_pairs(b, s, e)[i].key) == ks[i]
            && span_text(b, tag_pairs(b, s, e)[i].value) == vs[i] by {
            if i > 0 {
                assert(tag_pairs(b, s, e)[i] == tag_pairs(b, e1 + 1, e)[i - 1]);
                assert(ks[i] == ks.drop_first()[i - 1]);
                assert(vs[i] == vs.drop_first()[i - 1]);
            }
        }
    }
}

/// A section made of keys and values without spaces has no space.
proof fn lemma_section_no_space(ks: Seq<Seq<char>>, vs: Seq<Seq<char>>)
    requires
        1 <= ks.len() == vs.len(),
        forall|i: int| 0 <= i < ks.len() ==> !(#[trigger] ks[i]).contains(' ') && !vs[i].contains(' '),
    ensures
        !section_text(ks, vs).contains(' '),
    decreases ks.len(),
{
    let t = section_text(ks, vs);
    assert(!ks[0].contains(' ') && !vs[0].contains(' '));
    let seg = ks[0] + seq!['='] + vs[0];
    assert forall|j: int| 0 <= j < seg.len() implies seg[j] != ' ' by {
        if j < ks[0].len() {
            assert(seg[j] == ks[0][j]);
        } else if j > ks[0].len() {
            assert(seg[j] == vs[0][j - ks[0].len() - 1]);
        }
    }
    if ks.len() > 1 {
        assert forall|i: int| 0 <= i < ks.drop_first().len() implies !(#[trigger] ks.drop_first()[i]).contains(' ')
            && !vs.drop_first()[i].contains(' ') by {
            assert(ks.drop_first()[i] == ks[i + 1]);
            assert(vs.drop_first()[i] == vs[i + 1]);
        }
        lemma_section_no_space(ks.drop_first(), vs.drop_first());
        let rest = section_text(ks.drop_first(), vs.drop_first());
        assert forall|j: int| 0 <= j < t.len() implies t[j] != ' ' by {
            if j > seg.len() {
                assert(t[j] == rest[j - seg.len() - 1]);
            }
        }
    }
}

/// A message that begins with `@k0=v0;k1=v1;... ` has those tags, in order, and the
/// rest of the message begins after the space.
pub proof fn lemma_message_tags(ks: Seq<Seq<char>>, vs: Seq<Seq<char>>, rest: Seq<char>)
    requires
        1 <= ks.len() == vs.len(),
        forall|i: int|
            0 <= i < ks.len() ==> plain_key(#[trigger] ks[i]) && plain_value(vs[i]) && !ks[i].contains(' ')
                && !vs[i].contains(' '),
        bytes_of(seq!['@'] + section_text(ks, vs) + seq![' '] + rest).len() <= u32::MAX,
    ensures
        ({
            let src = seq!['@'] + section_text(ks, vs) + seq![' '] + rest;
            let b = bytes_of(src);
            spec_parse_tags(b, 0) matches Some((pairs, next)) && pairs.len() == ks.len() && next == bytes_of(
                seq!['@'] + section_text(ks, vs) + seq![' '],
            ).len() && forall|i: int|
                0 <= i < ks.len() ==> span_text(b, #[trigger] pairs[i].key) == ks[i] && span_text(b, pairs[i].value)
                    == vs[i]
        }),
{
    let sec = section_text(ks, vs);
    let src = seq!['@'] + sec + seq![' '] + rest;
    let b = bytes_of(src);
    assert forall|i: int| 0 <= i < ks.len() implies !(#[trigger] ks[i]).contains(' ') && !vs[i].contains(' ') by {
        assert(plain_key(ks[i]));
    }
    lemma_section_no_space(ks, vs);
    let tail = sec + seq![' '] + rest;
    assert(src =~= seq!['@'] + tail);
    lemma_encode_concat(seq!['@'], tail);
    lemma_ascii_char_bytes('@');
    lemma_encode_concat(sec, seq![' ']);
    lemma_encode_concat(sec + seq![' '], rest);
    lemma_ascii_char_bytes(' ');
    lemma_encode_concat(seq!['@'], sec);
    lemma_encode_concat(seq!['@'] + sec, seq![' ']);
    assert(b[0] == AT);
    assert(b.subrange(1, b.len() as int) =~= bytes_of(tail));
    lemma_first_in_range(b, 1, b.len() as int, tail, ' ');
    lemma_char_index(tail, ' ', 0);
    assert(tail[sec.len() as int] == ' ');
    assert forall|j: int| 0 <= j < sec.len() implies tail[j] != ' ' by {
        assert(tail[j] == sec[j]);
        if sec[j] == ' ' {
            assert(sec.contains(' '));
        }
    }
    assert(tail.take(sec.len() as int) =~= sec);
    let sp: int = 1 + bytes_of(sec).len() as int;
    assert(b.subrange(1, sp) =~= bytes_of(sec));
    lemma_tag_section(b, 1, sp, ks, vs);
}

} // verus!
