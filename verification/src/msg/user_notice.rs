//! A user notice is sent when some [`Event`] occurs.
use std::borrow::Cow;
use vstd::prelude::*;
use crate::common::ChannelRef;
use crate::irc::prefix::opt_view;
use crate::irc::{Command, IrcMessageRef, Tag};
use crate::msg::badge::{badge_views, parse_tag_badges, tag_badges, Badge, BadgeView};
use crate::msg::time::{parse_opt_timestamp, timestamp_value};
use crate::msg::{
    copy_cow, cow_str, non_empty, non_empty_borrowed, number_value, opt_borrowed, opt_cow_str,
    opt_cow_view, opt_user, or_empty, or_empty_value, parse_number, tag_value, user_of,
    MessageParseError, User,
};
use crate::text::str_eq;
use crate::{maybe_unescape, maybe_unescaped};

use crate::msg::{copy_opt_cow};
use crate::msg::badge::copy_badges;
verus! {

/// A user's id, login and display name.
pub type UserView = (Seq<char>, Seq<char>, Seq<char>);

/// The id of the user that stands for an anonymous gifter.
pub open spec fn anonymous_gifter() -> Seq<char> {
    "274598607"@
}

/// What an [`Event`] holds.
pub enum EventView {
    /// Is it a resub, cumulative months, streak months, plan, plan name.
    SubOrResub(bool, u64, Option<u64>, Seq<char>, Seq<char>),
    /// Viewer count, profile image URL.
    Raid(u64, Seq<char>),
    /// Cumulative months, recipient, plan, plan name, gifted months.
    SubGift(u64, (Seq<char>, Seq<char>, Seq<char>), Seq<char>, Seq<char>, u64),
    /// Count, the sender's total gifts, plan.
    SubMysteryGift(u64, u64, Seq<char>),
    /// Count, plan.
    AnonSubMysteryGift(u64, Seq<char>),
    /// Gifter login, gifter name, promotion.
    GiftPaidUpgrade(Seq<char>, Seq<char>, Option<(u64, Seq<char>)>),
    /// Promotion.
    AnonGiftPaidUpgrade(Option<(u64, Seq<char>)>),
    /// Ritual name.
    Ritual(Seq<char>),
    /// Tier.
    BitsBadgeTier(u64),
    /// Highlight color.
    Announcement(Seq<char>),
    /// An event that this library does not know.
    Unknown,
}

/// A positive number, or nothing.
pub open spec fn positive(o: Option<u64>) -> Option<u64> {
    match o {
        Some(n) => if n > 0 {
            Some(n)
        } else {
            None
        },
        None => None,
    }
}

/// The promotion of a gift upgrade: the total gifts and the name of the promotion,
/// where both are there.
pub open spec fn promotion_of(m: IrcMessageRef) -> Option<(u64, Seq<char>)> {
    match (number_value(tag_value(m, Tag::MsgParamPromoGiftTotal)), tag_value(m, Tag::MsgParamPromoName)) {
        (Some(total), Some(name)) => Some((total, name)),
        _ => None,
    }
}

/// The event that the `msg-id` tag `id` names, and whether its sender is anonymous;
/// nothing where a tag that the event needs is missing or does not read.
pub open spec fn event_of(m: IrcMessageRef, id: Seq<char>, sender_id: Option<Seq<char>>) -> Option<(EventView, bool)> {
    let plan = tag_value(m, Tag::MsgParamSubPlan);
    let plan_name = tag_value(m, Tag::MsgParamSubPlanName);
    let count = number_value(tag_value(m, Tag::MsgParamMassGiftCount));
    let anonymous_sender = sender_id == Some(anonymous_gifter());
    if id == "sub"@ || id == "resub"@ {
        match (number_value(tag_value(m, Tag::MsgParamCumulativeMonths)), plan, plan_name) {
            (Some(months), Some(p), Some(n)) => Some(
                (
                    EventView::SubOrResub(
                        id == "resub"@,
                        months,
                        positive(number_value(tag_value(m, Tag::MsgParamStreakMonths))),
                        p,
                        n,
                    ),
                    false,
                ),
            ),
            _ => None,
        }
    } else if id == "raid"@ {
        match (number_value(tag_value(m, Tag::MsgParamViewerCount)), tag_value(m, Tag::MsgParamProfileImageUrl)) {
            (Some(viewers), Some(url)) => Some((EventView::Raid(viewers, url), false)),
            _ => None,
        }
    } else if id == "subgift"@ || id == "anonsubgift"@ {
        match (
            number_value(tag_value(m, Tag::MsgParamMonths)),
            user_of(
                tag_value(m, Tag::MsgParamRecipientId),
                tag_value(m, Tag::MsgParamRecipientUserName),
                tag_value(m, Tag::MsgParamRecipientDisplayName),
            ),
            plan,
            plan_name,
            number_value(tag_value(m, Tag::MsgParamGiftMonths)),
        ) {
            (Some(months), Some(recipient), Some(p), Some(n), Some(gifted)) => Some(
                (
                    EventView::SubGift(months, recipient, p, n, gifted),
                    id == "anonsubgift"@ || anonymous_sender,
                ),
            ),
            _ => None,
        }
    } else if id == "anonsubmysterygift"@ || (id == "submysterygift"@ && anonymous_sender) {
        match (count, plan) {
            (Some(c), Some(p)) => Some((EventView::AnonSubMysteryGift(c, p), true)),
            _ => None,
        }
    } else if id == "submysterygift"@ {
        match (count, number_value(tag_value(m, Tag::MsgParamSenderCount)), plan) {
            (Some(c), Some(total), Some(p)) => Some((EventView::SubMysteryGift(c, total, p), false)),
            _ => None,
        }
    } else if id == "giftpaidupgrade"@ {
        match (tag_value(m, Tag::MsgParamSenderLogin), tag_value(m, Tag::MsgParamSenderName)) {
            (Some(login), Some(name)) => Some(
                (EventView::GiftPaidUpgrade(login, name, promotion_of(m)), false),
            ),
            _ => None,
        }
    } else if id == "anongiftpaidupgrade"@ {
        Some((EventView::AnonGiftPaidUpgrade(promotion_of(m)), true))
    } else if id == "ritual"@ {
        match tag_value(m, Tag::MsgParamRitualName) {
            Some(name) => Some((EventView::Ritual(name), false)),
            None => None,
        }
    } else if id == "bitsbadgetier"@ {
        match number_value(tag_value(m, Tag::MsgParamThreshold)) {
            Some(tier) => Some((EventView::BitsBadgeTier(tier), false)),
            None => None,
        }
    } else if id == "announcement"@ {
        match tag_value(m, Tag::MsgParamColor) {
            Some(color) => Some((EventView::Announcement(color), false)),
            None => None,
        }
    } else {
        Some((EventView::Unknown, true))
    }
}

/// A resubscription or a new subscription.
#[derive(Debug, PartialEq, Eq)]
pub struct SubOrResub<'src> {
    is_resub: bool,
    cumulative_months: u64,
    streak_months: Option<u64>,
    sub_plan: Cow<'src, str>,
    sub_plan_name: Cow<'src, str>,
}

/// Incoming raid.
#[derive(Debug, PartialEq, Eq)]
pub struct Raid<'src> {
    viewer_count: u64,
    profile_image_url: Cow<'src, str>,
}

/// A gifted subscription.
#[derive(Debug, PartialEq, Eq)]
pub struct SubGift<'src> {
    cumulative_months: u64,
    recipient: User<'src>,
    sub_plan: Cow<'src, str>,
    sub_plan_name: Cow<'src, str>,
    num_gifted_months: u64,
}

/// A batch of gifted subscriptions by a specific user.
#[derive(Debug, PartialEq, Eq)]
pub struct SubMysteryGift<'src> {
    count: u64,
    sender_total_gifts: u64,
    sub_plan: Cow<'src, str>,
}

/// A batch of gifted subscriptions by an anonymous user.
#[derive(Debug, PartialEq, Eq)]
pub struct AnonSubMysteryGift<'src> {
    count: u64,
    sub_plan: Cow<'src, str>,
}

/// A gifted subscription continued by its recipient.
#[derive(Debug, PartialEq, Eq)]
pub struct GiftPaidUpgrade<'src> {
    gifter_login: Cow<'src, str>,
    gifter_name: Cow<'src, str>,
    promotion: Option<SubGiftPromo<'src>>,
}

/// An anonymously gifted subscription continued by its recipient.
#[derive(Debug, PartialEq, Eq)]
pub struct AnonGiftPaidUpgrade<'src> {
    promotion: Option<SubGiftPromo<'src>>,
}

/// A ritual, such as a new chatter.
#[derive(Debug, PartialEq, Eq)]
pub struct Ritual<'src> {
    name: Cow<'src, str>,
}

/// A new tier of the bits badge.
#[derive(Debug, PartialEq, Eq)]
pub struct BitsBadgeTier {
    tier: u64,
}

/// A highlighted message by the broadcaster or a moderator.
#[derive(Debug, PartialEq, Eq)]
pub struct Announcement<'src> {
    highlight_color: Cow<'src, str>,
}

/// A promotion running on gifted subscriptions.
#[derive(Debug, PartialEq, Eq)]
pub struct SubGiftPromo<'src> {
    total_gifts: u64,
    promo_name: Cow<'src, str>,
}

/// The event of a [`UserNotice`].
#[allow(non_camel_case_types)]
#[derive(Debug, PartialEq, Eq)]
pub enum Event<'src> {
    /// A resubscription or a new subscription.
    SubOrResub(SubOrResub<'src>),
    /// Incoming raid.
    Raid(Raid<'src>),
    /// A gifted subscription.
    SubGift(SubGift<'src>),
    /// A batch of gifted subscriptions by a specific user.
    SubMysteryGift(SubMysteryGift<'src>),
    /// A batch of gifted subscriptions by an anonymous user.
    AnonSubMysteryGift(AnonSubMysteryGift<'src>),
    /// A gifted subscription continued by its recipient.
    GiftPaidUpgrade(GiftPaidUpgrade<'src>),
    /// An anonymously gifted subscription continued by its recipient.
    AnonGiftPaidUpgrade(AnonGiftPaidUpgrade<'src>),
    /// A ritual, such as a new chatter.
    Ritual(Ritual<'src>),
    /// A new tier of the bits badge.
    BitsBadgeTier(BitsBadgeTier),
    /// A highlighted message by the broadcaster or a moderator.
    Announcement(Announcement<'src>),
    /// An event that this library does not know.
    __non_exhaustive,
}

/// The view of an optional promotion.
pub open spec fn promo_view(o: Option<SubGiftPromo>) -> Option<(u64, Seq<char>)> {
    match o {
        Some(p) => Some(p@),
        None => None,
    }
}

impl<'src> View for Event<'src> {
    type V = EventView;

    closed spec fn view(&self) -> EventView {
        match self {
            Event::SubOrResub(e) => EventView::SubOrResub(e@.0, e@.1, e@.2, e@.3, e@.4),
            Event::Raid(e) => EventView::Raid(e@.0, e@.1),
            Event::SubGift(e) => EventView::SubGift(e@.0, e@.1, e@.2, e@.3, e@.4),
            Event::SubMysteryGift(e) => EventView::SubMysteryGift(e@.0, e@.1, e@.2),
            Event::AnonSubMysteryGift(e) => EventView::AnonSubMysteryGift(e@.0, e@.1),
            Event::GiftPaidUpgrade(e) => EventView::GiftPaidUpgrade(e@.0, e@.1, e@.2),
            Event::AnonGiftPaidUpgrade(e) => EventView::AnonGiftPaidUpgrade(e@),
            Event::Ritual(e) => EventView::Ritual(e@),
            Event::BitsBadgeTier(e) => EventView::BitsBadgeTier(e@),
            Event::Announcement(e) => EventView::Announcement(e@),
            Event::__non_exhaustive => EventView::Unknown,
        }
    }
}

impl<'src> View for SubOrResub<'src> {
    type V = (bool, u64, Option<u64>, Seq<char>, Seq<char>);

    closed spec fn view(&self) -> (bool, u64, Option<u64>, Seq<char>, Seq<char>) {
        (self.is_resub, self.cumulative_months, self.streak_months, self.sub_plan@, self.sub_plan_name@)
    }
}

impl<'src> SubOrResub<'src> {
    /// Whether this is a resub.
    pub fn is_resub(&self) -> (r: bool)
        ensures
            r == self@.0,
    {
        self.is_resub
    }

    /// Cumulative number of months the user has been subscribed.
    pub fn cumulative_months(&self) -> (r: u64)
        ensures
            r == self@.1,
    {
        self.cumulative_months
    }

    /// Number of months the user has been subscribed in a row, if shared.
    pub fn streak_months(&self) -> (r: Option<u64>)
        ensures
            r == self@.2,
    {
        self.streak_months
    }

    /// Subscription plan.
    pub fn sub_plan(&self) -> (r: &str)
        ensures
            r@ == self@.3,
    {
        cow_str(&self.sub_plan)
    }

    /// Display name of the subscription plan.
    ///
    /// ⚠ This call will allocate and return a String if it needs to be unescaped.
    pub fn sub_plan_name(&self) -> (r: Cow<'src, str>)
        ensures
            r@ == maybe_unescaped(self@.4),
    {
        maybe_unescape(copy_cow(&self.sub_plan_name))
    }
}

impl<'src> View for Raid<'src> {
    type V = (u64, Seq<char>);

    closed spec fn view(&self) -> (u64, Seq<char>) {
        (self.viewer_count, self.profile_image_url@)
    }
}

impl<'src> Raid<'src> {
    /// Number of viewers in the raid.
    pub fn viewer_count(&self) -> (r: u64)
        ensures
            r == self@.0,
    {
        self.viewer_count
    }

    /// Profile image of the raiding channel.
    pub fn profile_image_url(&self) -> (r: &str)
        ensures
            r@ == self@.1,
    {
        cow_str(&self.profile_image_url)
    }
}

impl<'src> View for SubGift<'src> {
    type V = (u64, UserView, Seq<char>, Seq<char>, u64);

    closed spec fn view(&self) -> (u64, UserView, Seq<char>, Seq<char>, u64) {
        (self.cumulative_months, self.recipient@, self.sub_plan@, self.sub_plan_name@, self.num_gifted_months)
    }
}

impl<'src> SubGift<'src> {
    /// Cumulative number of months the recipient has been subscribed.
    pub fn cumulative_months(&self) -> (r: u64)
        ensures
            r == self@.0,
    {
        self.cumulative_months
    }

    /// The user who received the gift.
    pub fn recipient(&self) -> (r: User<'src>)
        ensures
            r@ == self@.1,
    {
        self.recipient.clone()
    }

    /// Subscription plan.
    pub fn sub_plan(&self) -> (r: &str)
        ensures
            r@ == self@.2,
    {
        cow_str(&self.sub_plan)
    }

    /// Display name of the subscription plan.
    ///
    /// ⚠ This call will allocate and return a String if it needs to be unescaped.
    pub fn sub_plan_name(&self) -> (r: Cow<'src, str>)
        ensures
            r@ == maybe_unescaped(self@.3),
    {
        maybe_unescape(copy_cow(&self.sub_plan_name))
    }

    /// Number of months gifted.
    pub fn num_gifted_months(&self) -> (r: u64)
        ensures
            r == self@.4,
    {
        self.num_gifted_months
    }
}

impl<'src> View for SubMysteryGift<'src> {
    type V = (u64, u64, Seq<char>);

    closed spec fn view(&self) -> (u64, u64, Seq<char>) {
        (self.count, self.sender_total_gifts, self.sub_plan@)
    }
}

impl<'src> SubMysteryGift<'src> {
    /// Number of gifted subscriptions.
    pub fn count(&self) -> (r: u64)
        ensures
            r == self@.0,
    {
        self.count
    }

    /// Total number of subscriptions the sender has gifted in the channel.
    pub fn sender_total_gifts(&self) -> (r: u64)
        ensures
            r == self@.1,
    {
        self.sender_total_gifts
    }

    /// Subscription plan.
    pub fn sub_plan(&self) -> (r: &str)
        ensures
            r@ == self@.2,
    {
        cow_str(&self.sub_plan)
    }
}

impl<'src> View for AnonSubMysteryGift<'src> {
    type V = (u64, Seq<char>);

    closed spec fn view(&self) -> (u64, Seq<char>) {
        (self.count, self.sub_plan@)
    }
}

impl<'src> AnonSubMysteryGift<'src> {
    /// Number of gifted subscriptions.
    pub fn count(&self) -> (r: u64)
        ensures
            r == self@.0,
    {
        self.count
    }

    /// Subscription plan.
    pub fn sub_plan(&self) -> (r: &str)
        ensures
            r@ == self@.1,
    {
        cow_str(&self.sub_plan)
    }
}

impl<'src> View for SubGiftPromo<'src> {
    type V = (u64, Seq<char>);

    closed spec fn view(&self) -> (u64, Seq<char>) {
        (self.total_gifts, self.promo_name@)
    }
}

impl<'src> SubGiftPromo<'src> {
    /// Total number of subscriptions gifted during the promotion.
    pub fn total_gifts(&self) -> (r: u64)
        ensures
            r == self@.0,
    {
        self.total_gifts
    }

    /// Name of the promotion.
    pub fn promo_name(&self) -> (r: &str)
        ensures
            r@ == self@.1,
    {
        cow_str(&self.promo_name)
    }
}

/// A copy of an optional promotion.
fn copy_promo<'src>(o: &Option<SubGiftPromo<'src>>) -> (r: Option<SubGiftPromo<'src>>)
    ensures
        promo_view(r) == promo_view(*o),
{
    match o {
        Some(p) => Some(SubGiftPromo { total_gifts: p.total_gifts, promo_name: copy_cow(&p.promo_name) }),
        None => None,
    }
}

impl<'src> View for GiftPaidUpgrade<'src> {
    type V = (Seq<char>, Seq<char>, Option<(u64, Seq<char>)>);

    closed spec fn view(&self) -> (Seq<char>, Seq<char>, Option<(u64, Seq<char>)>) {
        (self.gifter_login@, self.gifter_name@, promo_view(self.promotion))
    }
}

impl<'src> GiftPaidUpgrade<'src> {
    /// Login of the user who gifted the subscription.
    pub fn gifter_login(&self) -> (r: &str)
        ensures
            r@ == self@.0,
    {
        cow_str(&self.gifter_login)
    }

    /// Display name of the user who gifted the subscription.
    pub fn gifter_name(&self) -> (r: &str)
        ensures
            r@ == self@.1,
    {
        cow_str(&self.gifter_name)
    }

    /// The promotion the gift was part of, if any.
    pub fn promotion(&self) -> (r: Option<SubGiftPromo<'src>>)
        ensures
            promo_view(r) == self@.2,
    {
        copy_promo(&self.promotion)
    }
}

impl<'src> View for AnonGiftPaidUpgrade<'src> {
    type V = Option<(u64, Seq<char>)>;

    closed spec fn view(&self) -> Option<(u64, Seq<char>)> {
        promo_view(self.promotion)
    }
}

impl<'src> AnonGiftPaidUpgrade<'src> {
    /// The promotion the gift was part of, if any.
    pub fn promotion(&self) -> (r: Option<SubGiftPromo<'src>>)
        ensures
            promo_view(r) == self@,
    {
        copy_promo(&self.promotion)
    }
}

impl<'src> View for Ritual<'src> {
    type V = Seq<char>;

    closed spec fn view(&self) -> Seq<char> {
        self.name@
    }
}

impl<'src> Ritual<'src> {
    /// Name of the ritual.
    pub fn name(&self) -> (r: &str)
        ensures
            r@ == self@,
    {
        cow_str(&self.name)
    }
}

impl View for BitsBadgeTier {
    type V = u64;

    closed spec fn view(&self) -> u64 {
        self.tier
    }
}

impl BitsBadgeTier {
    /// Tier of the bits badge.
    pub fn tier(&self) -> (r: u64)
        ensures
            r == self@,
    {
        self.tier
    }
}

impl<'src> View for Announcement<'src> {
    type V = Seq<char>;

    closed spec fn view(&self) -> Seq<char> {
        self.highlight_color@
    }
}

impl<'src> Announcement<'src> {
    /// Color of the announcement's highlight.
    pub fn highlight_color(&self) -> (r: &str)
        ensures
            r@ == self@,
    {
        cow_str(&self.highlight_color)
    }
}

/// Reads the promotion of a gift upgrade.
fn parse_promotion<'src>(message: &IrcMessageRef<'src>) -> (r: Option<SubGiftPromo<'src>>)
    ensures
        promo_view(r) == promotion_of(*message),
{
    match (parse_number(message.tag(Tag::MsgParamPromoGiftTotal)), message.tag(Tag::MsgParamPromoName)) {
        (Some(total_gifts), Some(promo_name)) => Some(
            SubGiftPromo { total_gifts, promo_name: Cow::Borrowed(promo_name) },
        ),
        _ => None,
    }
}

/// Reads the event that the `msg-id` tag `event_id` names, and whether its sender is anonymous.
#[verifier::rlimit(60)]
fn parse_event<'src>(message: &IrcMessageRef<'src>, event_id: &str, sender_id: Option<&str>) -> (r: Option<(Event<'src>, bool)>)
    ensures
        match event_of(*message, event_id@, opt_view(sender_id)) {
            Some((v, anon)) => r matches Some(x) && x.0@ == v && x.1 == anon,
            None => r is None,
        },
{
    let anonymous_sender = match sender_id {
        Some(id) => str_eq(id, "274598607"),
        None => false,
    };
    let plan = message.tag(Tag::MsgParamSubPlan);
    let plan_name = message.tag(Tag::MsgParamSubPlanName);
    let count = parse_number(message.tag(Tag::MsgParamMassGiftCount));
    let is_sub = str_eq(event_id, "sub");
    let is_resub = str_eq(event_id, "resub");
    let is_subgift = str_eq(event_id, "subgift");
    let is_anonsubgift = str_eq(event_id, "anonsubgift");
    let is_anonsubmysterygift = str_eq(event_id, "anonsubmysterygift");
    let is_submysterygift = str_eq(event_id, "submysterygift");
    if is_sub || is_resub {
        match (parse_number(message.tag(Tag::MsgParamCumulativeMonths)), plan, plan_name) {
            (Some(cumulative_months), Some(p), Some(n)) => {
                let streak_months = match parse_number(message.tag(Tag::MsgParamStreakMonths)) {
                    Some(k) => if k > 0 {
                        Some(k)
                    } else {
                        None
                    },
                    None => None,
                };
                Some(
                    (
                        Event::SubOrResub(
                            SubOrResub {
                                is_resub,
                                cumulative_months,
                                streak_months,
                                sub_plan: Cow::Borrowed(p),
                                sub_plan_name: Cow::Borrowed(n),
                            },
                        ),
                        false,
                    ),
                )
            },
            _ => None,
        }
    } else if str_eq(event_id, "raid") {
        match (parse_number(message.tag(Tag::MsgParamViewerCount)), message.tag(Tag::MsgParamProfileImageUrl)) {
            (Some(viewer_count), Some(url)) => Some(
                (Event::Raid(Raid { viewer_count, profile_image_url: Cow::Borrowed(url) }), false),
            ),
            _ => None,
        }
    } else if is_subgift || is_anonsubgift {
        let recipient = opt_user(
            message.tag(Tag::MsgParamRecipientId),
            message.tag(Tag::MsgParamRecipientUserName),
            message.tag(Tag::MsgParamRecipientDisplayName),
        );
        match (
            parse_number(message.tag(Tag::MsgParamMonths)),
            recipient,
            plan,
            plan_name,
            parse_number(message.tag(Tag::MsgParamGiftMonths)),
        ) {
            (Some(cumulative_months), Some(recipient), Some(p), Some(n), Some(num_gifted_months)) => Some(
                (
                    Event::SubGift(
                        SubGift {
                            cumulative_months,
                            recipient,
                            sub_plan: Cow::Borrowed(p),
                            sub_plan_name: Cow::Borrowed(n),
                            num_gifted_months,
                        },
                    ),
                    is_anonsubgift || anonymous_sender,
                ),
            ),
            _ => None,
        }
    } else if is_anonsubmysterygift || (is_submysterygift && anonymous_sender) {
        match (count, plan) {
            (Some(c), Some(p)) => Some(
                (Event::AnonSubMysteryGift(AnonSubMysteryGift { count: c, sub_plan: Cow::Borrowed(p) }), true),
            ),
            _ => None,
        }
    } else if is_submysterygift {
        match (count, parse_number(message.tag(Tag::MsgParamSenderCount)), plan) {
            (Some(c), Some(total), Some(p)) => Some(
                (
                    Event::SubMysteryGift(
                        SubMysteryGift { count: c, sender_total_gifts: total, sub_plan: Cow::Borrowed(p) },
                    ),
                    false,
                ),
            ),
            _ => None,
        }
    } else if str_eq(event_id, "giftpaidupgrade") {
        match (message.tag(Tag::MsgParamSenderLogin), message.tag(Tag::MsgParamSenderName)) {
            (Some(login), Some(name)) => Some(
                (
                    Event::GiftPaidUpgrade(
                        GiftPaidUpgrade {
                            gifter_login: Cow::Borrowed(login),
                            gifter_name: Cow::Borrowed(name),
                            promotion: parse_promotion(message),
                        },
                    ),
                    false,
                ),
            ),
            _ => None,
        }
    } else if str_eq(event_id, "anongiftpaidupgrade") {
        Some((Event::AnonGiftPaidUpgrade(AnonGiftPaidUpgrade { promotion: parse_promotion(message) }), true))
    } else if str_eq(event_id, "ritual") {
        match message.tag(Tag::MsgParamRitualName) {
            Some(name) => Some((Event::Ritual(Ritual { name: Cow::Borrowed(name) }), false)),
            None => None,
        }
    } else if str_eq(event_id, "bitsbadgetier") {
        match parse_number(message.tag(Tag::MsgParamThreshold)) {
            Some(tier) => Some((Event::BitsBadgeTier(BitsBadgeTier { tier }), false)),
            None => None,
        }
    } else if str_eq(event_id, "announcement") {
        match message.tag(Tag::MsgParamColor) {
            Some(color) => Some((Event::Announcement(Announcement { highlight_color: Cow::Borrowed(color) }), false)),
            None => None,
        }
    } else {
        Some((Event::__non_exhaustive, true))
    }
}

/// What a `USERNOTICE` message holds.
pub struct UserNoticeView {
    /// The channel.
    pub channel: Seq<char>,
    /// The `room-id` tag.
    pub channel_id: Seq<char>,
    /// The sender, unless the event is anonymous: `user-id`, `login` and `display-name` tags.
    pub sender: Option<UserView>,
    /// The text, if any.
    pub text: Option<Seq<char>>,
    /// The `system-msg` tag, where it is not empty.
    pub system_message: Option<Seq<char>>,
    /// The event.
    pub event: EventView,
    /// The `msg-id` tag.
    pub event_id: Seq<char>,
    /// The badges of the `badges` and `badge-info` tags.
    pub badges: Seq<BadgeView>,
    /// The `emotes` tag, or nothing.
    pub emotes: Seq<char>,
    /// The `color` tag, where it is not empty.
    pub color: Option<Seq<char>>,
    /// The `id` tag.
    pub message_id: Seq<char>,
    /// The `tmi-sent-ts` tag, in milliseconds.
    pub timestamp: i64,
}

/// The sender of a user notice: none where the event is anonymous, else the user of the
/// `user-id`, `login` and `display-name` tags, which must then be present.
pub open spec fn notice_sender_of(m: IrcMessageRef, anonymous: bool) -> Option<Option<UserView>> {
    if anonymous {
        Some(None)
    } else {
        match user_of(tag_value(m, Tag::UserId), tag_value(m, Tag::Login), tag_value(m, Tag::DisplayName)) {
            Some(u) => Some(Some(u)),
            None => None,
        }
    }
}

/// What a `USERNOTICE` message says; it needs the `msg-id` tag, what its event needs,
/// a channel, and the `room-id`, `id` and `tmi-sent-ts` tags.
pub open spec fn user_notice_of(m: IrcMessageRef) -> Option<UserNoticeView> {
    if m.spec_command() is UserNotice {
        match tag_value(m, Tag::MsgId) {
            Some(event_id) => match event_of(m, event_id, tag_value(m, Tag::UserId)) {
                Some((event, anonymous)) => match (
                    notice_sender_of(m, anonymous),
                    m.spec_channel(),
                    tag_value(m, Tag::RoomId),
                    tag_value(m, Tag::Id),
                    timestamp_value(tag_value(m, Tag::TmiSentTs)),
                ) {
                    (Some(sender), Some(channel), Some(channel_id), Some(message_id), Some(timestamp)) => Some(
                        UserNoticeView {
                            channel,
                            channel_id,
                            sender,
                            text: m.spec_text(),
                            system_message: non_empty(tag_value(m, Tag::SystemMsg)),
                            event,
                            event_id,
                            badges: tag_badges(tag_value(m, Tag::Badges), tag_value(m, Tag::BadgeInfo)),
                            emotes: or_empty_value(tag_value(m, Tag::Emotes)),
                            color: non_empty(tag_value(m, Tag::Color)),
                            message_id,
                            timestamp,
                        },
                    ),
                    _ => None,
                },
                None => None,
            },
            None => None,
        }
    } else {
        None
    }
}

/// A user notice is sent when some [`Event`] occurs.
#[derive(Debug, PartialEq, Eq)]
pub struct UserNotice<'src> {
    channel: ChannelRef<'src>,
    channel_id: Cow<'src, str>,
    sender: Option<User<'src>>,
    text: Option<Cow<'src, str>>,
    system_message: Option<Cow<'src, str>>,
    event: Event<'src>,
    event_id: Cow<'src, str>,
    badges: Vec<Badge<'src>>,
    emotes: Cow<'src, str>,
    color: Option<Cow<'src, str>>,
    message_id: Cow<'src, str>,
    timestamp: i64,
}

/// The view of an optional user.
pub open spec fn opt_user_view(o: Option<User>) -> Option<UserView> {
    match o {
        Some(u) => Some(u@),
        None => None,
    }
}

impl<'src> View for UserNotice<'src> {
    type V = UserNoticeView;

    closed spec fn view(&self) -> UserNoticeView {
        UserNoticeView {
            channel: self.channel.name(),
            channel_id: self.channel_id@,
            sender: opt_user_view(self.sender),
            text: opt_cow_view(self.text),
            system_message: opt_cow_view(self.system_message),
            event: self.event@,
            event_id: self.event_id@,
            badges: badge_views(self.badges@),
            emotes: self.emotes@,
            color: opt_cow_view(self.color),
            message_id: self.message_id@,
            timestamp: self.timestamp,
        }
    }
}

/// The system message, unescaped where it needs to be.
pub open spec fn opt_unescaped(o: Option<Seq<char>>) -> Option<Seq<char>> {
    match o {
        Some(s) => Some(maybe_unescaped(s)),
        None => None,
    }
}

impl<'src> UserNotice<'src> {
    /// Name of the channel which this notice was sent to.
    pub fn channel(&self) -> (r: ChannelRef<'src>)
        ensures
            r.name() == self@.channel,
    {
        self.channel
    }

    /// ID of the channel which this notice was sent to.
    pub fn channel_id(&self) -> (r: &str)
        ensures
            r@ == self@.channel_id,
    {
        cow_str(&self.channel_id)
    }

    /// The user who caused this notice, unless they are anonymous.
    pub fn sender(&self) -> (r: Option<&User<'src>>)
        ensures
            match r {
                Some(u) => self@.sender == Some(u@),
                None => self@.sender is None,
            },
    {
        match &self.sender {
            Some(u) => Some(u),
            None => None,
        }
    }

    /// Text of the notice, if the user sent one.
    pub fn text(&self) -> (r: Option<&str>)
        ensures
            opt_view(r) == self@.text,
    {
        opt_cow_str(&self.text)
    }

    /// The system message that Twitch would show for this notice.
    ///
    /// ⚠ This call will allocate and return a String if it needs to be unescaped.
    pub fn system_message(&self) -> (r: Option<Cow<'src, str>>)
        ensures
            opt_cow_view(r) == opt_unescaped(self@.system_message),
    {
        match &self.system_message {
            Some(m) => Some(maybe_unescape(copy_cow(m))),
            None => None,
        }
    }

    /// The specific event which caused this notice.
    pub fn event(&self) -> (r: &Event<'src>)
        ensures
            r@ == self@.event,
    {
        &self.event
    }

    /// The raw `msg-id` of the event.
    pub fn event_id(&self) -> (r: &str)
        ensures
            r@ == self@.event_id,
    {
        cow_str(&self.event_id)
    }

    /// The badges of the user.
    pub fn badges(&self) -> (r: &[Badge<'src>])
        ensures
            badge_views(r@) == self@.badges,
    {
        self.badges.as_slice()
    }

    /// Number of badges of the user.
    pub fn num_badges(&self) -> (r: usize)
        ensures
            r == self@.badges.len(),
    {
        self.badges.len()
    }

    /// The emote raw emote ranges present in the text.
    pub fn raw_emotes(&self) -> (r: &str)
        ensures
            r@ == self@.emotes,
    {
        cow_str(&self.emotes)
    }

    /// The user's selected name color.
    pub fn color(&self) -> (r: Option<&str>)
        ensures
            opt_view(r) == self@.color,
    {
        opt_cow_str(&self.color)
    }

    /// Unique ID of the notice.
    pub fn message_id(&self) -> (r: &str)
        ensures
            r@ == self@.message_id,
    {
        cow_str(&self.message_id)
    }

    /// Time at which the notice was sent, in milliseconds since the Unix epoch.
    pub fn timestamp(&self) -> (r: i64)
        ensures
            r == self@.timestamp,
    {
        self.timestamp
    }

    #[verifier::rlimit(60)]
    fn parse(message: &IrcMessageRef<'src>) -> (r: Option<Self>)
        ensures
            match user_notice_of(*message) {
                Some(v) => r matches Some(x) && x@ == v,
                None => r is None,
            },
    {
        if !matches!(message.command(), Command::UserNotice) {
            return None;
        }
        let sender_id = message.tag(Tag::UserId);
        let event_id = match message.tag(Tag::MsgId) {
            Some(x) => x,
            None => return None,
        };
        let (event, anonymous) = match parse_event(message, event_id, sender_id) {
            Some(x) => x,
            None => return None,
        };
        let sender = if !anonymous {
            match opt_user(message.tag(Tag::UserId), message.tag(Tag::Login), message.tag(Tag::DisplayName)) {
                Some(u) => Some(u),
                None => return None,
            }
        } else {
            None
        };
        let channel = match message.channel() {
            Some(x) => x,
            None => return None,
        };
        let channel_id = match message.tag(Tag::RoomId) {
            Some(x) => x,
            None => return None,
        };
        let message_id = match message.tag(Tag::Id) {
            Some(x) => x,
            None => return None,
        };
        let timestamp = match parse_opt_timestamp(message.tag(Tag::TmiSentTs)) {
            Some(x) => x,
            None => return None,
        };
        Some(UserNotice {
            channel: ChannelRef::from_unchecked(channel),
            channel_id: Cow::Borrowed(channel_id),
            sender,
            text: opt_borrowed(message.text()),
            system_message: non_empty_borrowed(message.tag(Tag::SystemMsg)),
            event,
            event_id: Cow::Borrowed(event_id),
            badges: parse_tag_badges(message.tag(Tag::Badges), message.tag(Tag::BadgeInfo)),
            emotes: or_empty(message.tag(Tag::Emotes)),
            color: non_empty_borrowed(message.tag(Tag::Color)),
            message_id: Cow::Borrowed(message_id),
            timestamp,
        })
    }
}

impl<'src> crate::msg::sealed::Sealed for UserNotice<'src> {
}

impl<'src> crate::msg::FromIrc<'src> for UserNotice<'src> {
    open spec fn accepts(message: IrcMessageRef<'src>) -> bool {
        true
    }

    fn from_irc(message: IrcMessageRef<'src>) -> (r: Result<Self, MessageParseError>)
        ensures
            match user_notice_of(message) {
                Some(v) => r matches Ok(x) && x@ == v,
                None => r is Err,
            },
            r matches Ok(u) ==> sender_as_expected(message, u@.sender),
    {
        proof {
            if user_notice_of(message) is Some {
                lemma_user_notice_sender(message);
            }
        }
        match Self::parse(&message) {
            Some(x) => Ok(x),
            None => Err(MessageParseError),
        }
    }
}

/// The names of the events have lengths that differ from each other.
proof fn lemma_event_name_lengths()
    ensures
        "sub"@.len() == 3,
        "resub"@.len() == 5,
        "raid"@.len() == 4,
        "ritual"@.len() == 6,
        "subgift"@.len() == 7,
        "anonsubgift"@.len() == 11,
        "submysterygift"@.len() == 14,
        "anonsubmysterygift"@.len() == 18,
        "giftpaidupgrade"@.len() == 15,
        "anongiftpaidupgrade"@.len() == 19,
        "bitsbadgetier"@.len() == 13,
        "announcement"@.len() == 12,
{
    reveal_strlit("sub");
    reveal_strlit("resub");
    reveal_strlit("raid");
    reveal_strlit("ritual");
    reveal_strlit("subgift");
    reveal_strlit("anonsubgift");
    reveal_strlit("submysterygift");
    reveal_strlit("anonsubmysterygift");
    reveal_strlit("giftpaidupgrade");
    reveal_strlit("anongiftpaidupgrade");
    reveal_strlit("bitsbadgetier");
    reveal_strlit("announcement");
}

/// Who sent a user notice with the sender `sender`: nobody for an anonymous gift
/// (`anonsubgift`, `anonsubmysterygift`, `anongiftpaidupgrade`, or a `subgift` or
/// `submysterygift` from the anonymous gifter's `user-id`); for the other known events,
/// the user of the `user-id`, `login` and `display-name` tags.
pub open spec fn sender_as_expected(m: IrcMessageRef, sender: Option<UserView>) -> bool {
    let e = tag_value(m, Tag::MsgId)->0;
    let uid = tag_value(m, Tag::UserId);
    let anonymous = uid == Some(anonymous_gifter());
    &&& (e == "anonsubgift"@ || e == "anonsubmysterygift"@ || e == "anongiftpaidupgrade"@ || ((e == "subgift"@
        || e == "submysterygift"@) && anonymous)) ==> sender is None
    &&& ((e == "sub"@ || e == "resub"@ || e == "raid"@ || e == "subgift"@ || e == "submysterygift"@ || e
        == "giftpaidupgrade"@ || e == "ritual"@ || e == "bitsbadgetier"@ || e == "announcement"@) && !anonymous)
        ==> sender == user_of(uid, tag_value(m, Tag::Login), tag_value(m, Tag::DisplayName))
}

/// Every user notice that reads has the sender that its event and tags call for.
pub proof fn lemma_user_notice_sender(m: IrcMessageRef)
    requires
        user_notice_of(m) is Some,
    ensures
        sender_as_expected(m, user_notice_of(m)->0.sender),
{
    lemma_event_name_lengths();
}

/// The promotion named by the `msg-param-promo-gift-total` and `msg-param-promo-name`
/// tags, where both are present and the first is a number.
pub open spec fn promotion_named(m: IrcMessageRef) -> Option<(u64, Seq<char>)> {
    match (number_value(m.spec_tag("msg-param-promo-gift-total"@)), m.spec_tag("msg-param-promo-name"@)) {
        (Some(total), Some(name)) => Some((total, name)),
        _ => None,
    }
}

/// The event that a user notice `m` with the event `event` should have, by the name in
/// its `msg-id` tag: each field is read from the tag that the event's documentation names.
pub open spec fn event_as_expected(m: IrcMessageRef, event: EventView) -> bool {
    let e = m.spec_tag("msg-id"@)->0;
    let tag = |name: Seq<char>| m.spec_tag(name)->0;
    let number = |name: Seq<char>| number_value(m.spec_tag(name))->0;
    let anonymous = m.spec_tag("user-id"@) == Some(anonymous_gifter());
    &&& (e == "sub"@ || e == "resub"@) ==> event == EventView::SubOrResub(
        e == "resub"@,
        number("msg-param-cumulative-months"@),
        positive(number_value(m.spec_tag("msg-param-streak-months"@))),
        tag("msg-param-sub-plan"@),
        tag("msg-param-sub-plan-name"@),
    )
    &&& e == "raid"@ ==> event == EventView::Raid(
        number("msg-param-viewerCount"@),
        tag("msg-param-profileImageURL"@),
    )
    &&& (e == "subgift"@ || e == "anonsubgift"@) ==> event == EventView::SubGift(
        number("msg-param-months"@),
        (
            tag("msg-param-recipient-id"@),
            tag("msg-param-recipient-user-name"@),
            tag("msg-param-recipient-display-name"@),
        ),
        tag("msg-param-sub-plan"@),
        tag("msg-param-sub-plan-name"@),
        number("msg-param-gift-months"@),
    )
    &&& (e == "anonsubmysterygift"@ || (e == "submysterygift"@ && anonymous)) ==> event
        == EventView::AnonSubMysteryGift(number("msg-param-mass-gift-count"@), tag("msg-param-sub-plan"@))
    &&& (e == "submysterygift"@ && !anonymous) ==> event == EventView::SubMysteryGift(
        number("msg-param-mass-gift-count"@),
        number("msg-param-sender-count"@),
        tag("msg-param-sub-plan"@),
    )
    &&& e == "giftpaidupgrade"@ ==> event == EventView::GiftPaidUpgrade(
        tag("msg-param-sender-login"@),
        tag("msg-param-sender-name"@),
        promotion_named(m),
    )
    &&& e == "anongiftpaidupgrade"@ ==> event == EventView::AnonGiftPaidUpgrade(promotion_named(m))
    &&& e == "ritual"@ ==> event == EventView::Ritual(tag("msg-param-ritual-name"@))
    &&& e == "bitsbadgetier"@ ==> event == EventView::BitsBadgeTier(number("msg-param-threshold"@))
    &&& e == "announcement"@ ==> event == EventView::Announcement(tag("msg-param-color"@))
    &&& !(e == "sub"@ || e == "resub"@ || e == "raid"@ || e == "subgift"@ || e == "anonsubgift"@ || e
        == "submysterygift"@ || e == "anonsubmysterygift"@ || e == "giftpaidupgrade"@ || e
        == "anongiftpaidupgrade"@ || e == "ritual"@ || e == "bitsbadgetier"@ || e == "announcement"@)
        ==> event == EventView::Unknown
}

/// Every user notice that reads has the event that its `msg-id` tag names, with each field
/// taken from its own tag; and its channel id, message id, event id and timestamp are
/// those of the `room-id`, `id`, `msg-id` and `tmi-sent-ts` tags.
pub proof fn lemma_user_notice_fields(m: IrcMessageRef)
    requires
        user_notice_of(m) is Some,
    ensures
        event_as_expected(m, user_notice_of(m)->0.event),
        m.spec_tag("msg-id"@) == Some(user_notice_of(m)->0.event_id),
        m.spec_tag("room-id"@) == Some(user_notice_of(m)->0.channel_id),
        m.spec_tag("id"@) == Some(user_notice_of(m)->0.message_id),
        timestamp_value(m.spec_tag("tmi-sent-ts"@)) == Some(user_notice_of(m)->0.timestamp),
        m.spec_channel() == Some(user_notice_of(m)->0.channel),
        user_notice_of(m)->0.text == m.spec_text(),
        user_notice_of(m)->0.system_message == non_empty(m.spec_tag("system-msg"@)),
        user_notice_of(m)->0.color == non_empty(m.spec_tag("color"@)),
        user_notice_of(m)->0.emotes == or_empty_value(m.spec_tag("emotes"@)),
        user_notice_of(m)->0.badges == tag_badges(m.spec_tag("badges"@), m.spec_tag("badge-info"@)),
{
    lemma_event_name_lengths();
}

impl<'src> Clone for SubOrResub<'src> {
    fn clone(&self) -> (r: Self)
        ensures
            r@ == self@,
    {
        SubOrResub {
            is_resub: self.is_resub,
            cumulative_months: self.cumulative_months,
            streak_months: self.streak_months,
            sub_plan: copy_cow(&self.sub_plan),
            sub_plan_name: copy_cow(&self.sub_plan_name),
        }
    }
}

impl<'src> Clone for Raid<'src> {
    fn clone(&self) -> (r: Self)
        ensures
            r@ == self@,
    {
        Raid {
            viewer_count: self.viewer_count,
            profile_image_url: copy_cow(&self.profile_image_url),
        }
    }
}

impl<'src> Clone for SubGift<'src> {
    fn clone(&self) -> (r: Self)
        ensures
            r@ == self@,
    {
        SubGift {
            cumulative_months: self.cumulative_months,
            recipient: self.recipient.clone(),
            sub_plan: copy_cow(&self.sub_plan),
            sub_plan_name: copy_cow(&self.sub_plan_name),
            num_gifted_months: self.num_gifted_months,
        }
    }
}

impl<'src> Clone for SubMysteryGift<'src> {
    fn clone(&self) -> (r: Self)
        ensures
            r@ == self@,
    {
        SubMysteryGift {
            count: self.count,
            sender_total_gifts: self.sender_total_gifts,
            sub_plan: copy_cow(&self.sub_plan),
        }
    }
}

impl<'src> Clone for AnonSubMysteryGift<'src> {
    fn clone(&self) -> (r: Self)
        ensures
            r@ == self@,
    {
        AnonSubMysteryGift {
            count: self.count,
            sub_plan: copy_cow(&self.sub_plan),
        }
    }
}

impl<'src> Clone for SubGiftPromo<'src> {
    fn clone(&self) -> (r: Self)
        ensures
            r@ == self@,
    {
        SubGiftPromo {
            total_gifts: self.total_gifts,
            promo_name: copy_cow(&self.promo_name),
        }
    }
}

impl<'src> Clone for GiftPaidUpgrade<'src> {
    fn clone(&self) -> (r: Self)
        ensures
            r@ == self@,
    {
        GiftPaidUpgrade {
            gifter_login: copy_cow(&self.gifter_login),
            gifter_name: copy_cow(&self.gifter_name),
            promotion: match &self.promotion {
                Some(x) => Some(x.clone()),
                None => None,
            },
        }
    }
}

impl<'src> Clone for AnonGiftPaidUpgrade<'src> {
    fn clone(&self) -> (r: Self)
        ensures
            r@ == self@,
    {
        AnonGiftPaidUpgrade {
            promotion: match &self.promotion {
                Some(x) => Some(x.clone()),
                None => None,
            },
        }
    }
}

impl<'src> Clone for Ritual<'src> {
    fn clone(&self) -> (r: Self)
        ensures
            r@ == self@,
    {
        Ritual {
            name: copy_cow(&self.name),
        }
    }
}

impl Clone for BitsBadgeTier {
    fn clone(&self) -> (r: Self)
        ensures
            r@ == self@,
    {
        BitsBadgeTier {
            tier: self.tier,
        }
    }
}

impl<'src> Clone for Announcement<'src> {
    fn clone(&self) -> (r: Self)
        ensures
            r@ == self@,
    {
        Announcement {
            highlight_color: copy_cow(&self.highlight_color),
        }
    }
}

impl<'src> Clone for Event<'src> {
    fn clone(&self) -> (r: Self)
        ensures
            r@ == self@,
    {
        match self {
            Event::SubOrResub(x) => Event::SubOrResub(x.clone()),
            Event::Raid(x) => Event::Raid(x.clone()),
            Event::SubGift(x) => Event::SubGift(x.clone()),
            Event::SubMysteryGift(x) => Event::SubMysteryGift(x.clone()),
            Event::AnonSubMysteryGift(x) => Event::AnonSubMysteryGift(x.clone()),
            Event::GiftPaidUpgrade(x) => Event::GiftPaidUpgrade(x.clone()),
            Event::AnonGiftPaidUpgrade(x) => Event::AnonGiftPaidUpgrade(x.clone()),
            Event::Ritual(x) => Event::Ritual(x.clone()),
            Event::BitsBadgeTier(x) => Event::BitsBadgeTier(x.clone()),
            Event::Announcement(x) => Event::Announcement(x.clone()),
            Event::__non_exhaustive => Event::__non_exhaustive,
        }
    }
}

impl<'src> Clone for UserNotice<'src> {
    fn clone(&self) -> (r: Self)
        ensures
            r@ == self@,
    {
        UserNotice {
            channel: self.channel,
            channel_id: copy_cow(&self.channel_id),
            sender: match &self.sender {
                Some(x) => Some(x.clone()),
                None => None,
            },
            text: copy_opt_cow(&self.text),
            system_message: copy_opt_cow(&self.system_message),
            event: self.event.clone(),
            event_id: copy_cow(&self.event_id),
            badges: copy_badges(&self.badges),
            emotes: copy_cow(&self.emotes),
            color: copy_opt_cow(&self.color),
            message_id: copy_cow(&self.message_id),
            timestamp: self.timestamp,
        }
    }
}

} // verus!
