//! Twitch message types.
//!
//! The entrypoint to this module is [`Message`].
use std::borrow::Cow;
use vstd::prelude::*;
use vstd::string::StringExecFns;
use crate::irc::prefix::opt_view;
use crate::irc::tags::tag_name;
use crate::irc::command::RawCommand;
use crate::irc::{spec_parse, Command, IrcMessage, IrcMessageRef, Layout, Tag};
use crate::msg::clear_chat::{clear_chat_of, tags_ban_fits};
use crate::msg::clear_msg::clear_msg_of;
use crate::msg::global_user_state::global_user_state_of;
use crate::msg::join::join_of;
use crate::msg::notice::notice_of;
use crate::msg::part::part_of;
use crate::msg::ping::ping_of;
use crate::msg::pong::pong_of;
use crate::msg::privmsg::privmsg_of;
use crate::msg::room_state::{durations_fit, room_state_of, tags_durations_fit};
use crate::msg::user_notice::user_notice_of;
use crate::msg::user_state::user_state_of;
use crate::msg::whisper::whisper_of;
use crate::text::bytes_of;
use crate::{maybe_unescape, maybe_unescaped};
use crate::strings::{chars_of, parse_i64, parse_signed, parse_u64, parse_u8, parse_unsigned, split, split_char, strs_view};

mod sealed;
pub mod badge;
pub mod join;
pub mod part;
pub mod ping;
pub mod pong;
pub mod notice;
pub mod global_user_state;
pub mod user_state;
pub mod whisper;
pub mod time;
pub mod clear_chat;
pub mod clear_msg;
pub mod privmsg;
pub mod room_state;
pub mod user_notice;

pub use badge::{parse_badges, Badge, BadgeData, BadgeView, Subscriber};
pub use join::Join;
pub use part::Part;
pub use ping::Ping;
pub use pong::Pong;
pub use notice::Notice;
pub use global_user_state::GlobalUserState;
pub use user_state::UserState;
pub use whisper::Whisper;
pub use clear_chat::{Action, Ban, ClearChat, TimeOut};
pub use clear_msg::ClearMsg;
pub use privmsg::{PinnedChat, PinnedChatLevel, Privmsg, Reply};
pub use room_state::{FollowersOnly, RoomState};
pub use user_notice::{
    AnonGiftPaidUpgrade, AnonSubMysteryGift, Announcement, BitsBadgeTier, Event, GiftPaidUpgrade, Raid,
    Ritual, SubGift, SubGiftPromo, SubMysteryGift, SubOrResub, UserNotice,
};

verus! {

broadcast use vstd::string::group_string_axioms;

/// Failed to parse a message.
#[derive(Clone, Copy, Debug, PartialEq, Eq, Structural)]
pub struct MessageParseError;

impl MessageParseError {
    /// The error message.
    pub fn message(&self) -> (r: &'static str)
        ensures
            r@ == "failed to parse message"@,
    {
        "failed to parse message"
    }
}

/// Implemented for types which may be parsed from a base [`IrcMessageRef`].
pub trait FromIrc<'src>: Sized + sealed::Sealed {
    /// The messages that can be read at all: the others hold a value that the message
    /// type cannot represent.
    spec fn accepts(message: IrcMessageRef<'src>) -> bool;

    /// Attempt to parse `Self` from an [`IrcMessageRef`].
    fn from_irc(message: IrcMessageRef<'src>) -> Result<Self, MessageParseError>
        requires
            Self::accepts(message),
    ;
}

/// Basic information about a user.
#[derive(Debug, PartialEq, Eq)]
pub struct User<'src> {
    id: Cow<'src, str>,
    login: Cow<'src, str>,
    name: Cow<'src, str>,
}

impl<'src> View for User<'src> {
    type V = (Seq<char>, Seq<char>, Seq<char>);

    closed spec fn view(&self) -> (Seq<char>, Seq<char>, Seq<char>) {
        (self.id@, self.login@, self.name@)
    }
}

impl<'src> Clone for User<'src> {
    fn clone(&self) -> (r: Self)
        ensures
            r@ == self@,
    {
        User { id: copy_cow(&self.id), login: copy_cow(&self.login), name: copy_cow(&self.name) }
    }
}

impl<'src> User<'src> {
    /// A user of the given id, login and display name.
    pub fn new(id: &'src str, login: &'src str, name: &'src str) -> (r: User<'src>)
        ensures
            r@ == (id@, login@, name@),
    {
        User { id: Cow::Borrowed(id), login: Cow::Borrowed(login), name: Cow::Borrowed(name) }
    }

    /// Id of the user.
    pub fn id(&self) -> (r: &str)
        ensures
            r@ == self@.0,
    {
        cow_str(&self.id)
    }

    /// Login of the user.
    pub fn login(&self) -> (r: &str)
        ensures
            r@ == self@.1,
    {
        cow_str(&self.login)
    }

    /// Display name.
    ///
    /// This is the name which appears in chat, and may contain arbitrary unicode characters.
    /// This is in contrast to [`User::login`] which is always only ASCII.
    ///
    /// ⚠ This call will allocate and return a String if it needs to be unescaped.
    pub fn name(&self) -> (r: Cow<'src, str>)
        ensures
            r@ == maybe_unescaped(self@.2),
    {
        maybe_unescape(copy_cow(&self.name))
    }

    /// Clone data to give the value a `'static` lifetime.
    pub fn into_owned(self) -> (r: User<'static>)
        ensures
            r@ == self@,
    {
        User { id: owned_cow(self.id), login: owned_cow(self.login), name: owned_cow(self.name) }
    }
}

/// A user made of three optional values, where all three are present.
pub open spec fn user_of(id: Option<Seq<char>>, login: Option<Seq<char>>, name: Option<Seq<char>>) -> Option<(Seq<char>, Seq<char>, Seq<char>)> {
    match (id, login, name) {
        (Some(i), Some(l), Some(n)) => Some((i, l, n)),
        _ => None,
    }
}

/// A user made of three optional values, where all three are present.
pub fn opt_user<'src>(id: Option<&'src str>, login: Option<&'src str>, name: Option<&'src str>) -> (r: Option<User<'src>>)
    ensures
        match user_of(opt_view(id), opt_view(login), opt_view(name)) {
            Some(v) => r matches Some(u) && u@ == v,
            None => r is None,
        },
{
    match (id, login, name) {
        (Some(i), Some(l), Some(n)) => Some(User::new(i, l, n)),
        _ => None,
    }
}

/// The value of the tag `t` of `m`.
pub open spec fn tag_value(m: IrcMessageRef, t: Tag) -> Option<Seq<char>> {
    m.spec_tag(tag_name(t))
}

/// The characters of an optional string.
pub open spec fn opt_cow_view(o: Option<Cow<str>>) -> Option<Seq<char>> {
    match o {
        Some(c) => Some(c@),
        None => None,
    }
}

/// The characters of each string.
pub open spec fn cows_view(v: Seq<Cow<str>>) -> Seq<Seq<char>> {
    v.map_values(|c: Cow<str>| c@)
}

/// An optional string, kept only where it is not empty.
pub open spec fn non_empty(o: Option<Seq<char>>) -> Option<Seq<char>> {
    match o {
        Some(s) => if s.len() > 0 {
            Some(s)
        } else {
            None
        },
        None => None,
    }
}

/// A flag: a number that fits in a `u8` and is not zero; anything else is `false`.
pub open spec fn flag_value(s: Seq<char>) -> bool {
    match parse_unsigned(s, u8::MAX as int) {
        Some(n) => n > 0,
        None => false,
    }
}

/// An optional `u64` number: present where `o` is present and reads as one.
pub open spec fn number_value(o: Option<Seq<char>>) -> Option<u64> {
    match o {
        Some(s) => match parse_unsigned(s, u64::MAX as int) {
            Some(n) => Some(n as u64),
            None => None,
        },
        None => None,
    }
}

/// A signed `i64` number in an optional tag value.
pub open spec fn signed_value(o: Option<Seq<char>>) -> Option<i64> {
    match o {
        Some(s) => match parse_signed(s, i64::MIN as int, i64::MAX as int) {
            Some(n) => Some(n as i64),
            None => None,
        },
        None => None,
    }
}

/// Reads an optional signed `i64` number.
pub fn parse_signed_number(o: Option<&str>) -> (r: Option<i64>)
    ensures
        r == signed_value(opt_view(o)),
{
    match o {
        Some(s) => parse_i64(s),
        None => None,
    }
}

/// An optional flag.
pub open spec fn opt_flag(o: Option<Seq<char>>) -> Option<bool> {
    match o {
        Some(s) => Some(flag_value(s)),
        None => None,
    }
}

/// Reads an optional flag.
pub fn parse_opt_bool(o: Option<&str>) -> (r: Option<bool>)
    ensures
        r == opt_flag(opt_view(o)),
{
    match o {
        Some(s) => Some(parse_bool(s)),
        None => None,
    }
}

/// The characters `"\u{1}ACTION "` that begin a `/me` message.
pub open spec fn action_prefix() -> Seq<char> {
    seq!['\u{1}', 'A', 'C', 'T', 'I', 'O', 'N', ' ']
}

/// The text of a chat message and whether it was sent with `/me`: a `/me`
/// message is wrapped in `"\u{1}ACTION "` and `'\u{1}'`, which are removed.
pub open spec fn message_text(s: Seq<char>) -> (Seq<char>, bool) {
    if s.len() >= 9 && s.take(8) == action_prefix() && s.last() == '\u{1}' {
        (s.subrange(8, s.len() - 1), true)
    } else {
        (s, false)
    }
}

/// The characters of a string, borrowed or owned.
pub fn cow_str<'b>(c: &'b Cow<'_, str>) -> (r: &'b str)
    ensures
        r@ == c@,
{
    match c {
        Cow::Borrowed(s) => s,
        Cow::Owned(s) => s.as_str(),
    }
}

/// The characters of an optional string, borrowed or owned.
pub fn opt_cow_str<'b>(c: &'b Option<Cow<'_, str>>) -> (r: Option<&'b str>)
    ensures
        opt_view(r) == opt_cow_view(*c),
{
    match c {
        Some(x) => Some(cow_str(x)),
        None => None,
    }
}

/// A copy of `c` that owns its characters.
pub fn owned_cow(c: Cow<'_, str>) -> (r: Cow<'static, str>)
    ensures
        r@ == c@,
{
    match c {
        Cow::Borrowed(s) => Cow::Owned(String::from_str(s)),
        Cow::Owned(s) => Cow::Owned(s),
    }
}

/// A copy of an optional string that owns its characters.
pub fn opt_owned_cow(c: Option<Cow<'_, str>>) -> (r: Option<Cow<'static, str>>)
    ensures
        opt_cow_view(r) == opt_cow_view(c),
{
    match c {
        Some(x) => Some(owned_cow(x)),
        None => None,
    }
}

/// A second handle on the same characters.
pub fn copy_cow<'a>(c: &Cow<'a, str>) -> (r: Cow<'a, str>)
    ensures
        r@ == c@,
{
    match c {
        Cow::Borrowed(s) => Cow::Borrowed(*s),
        Cow::Owned(s) => Cow::Owned(s.clone()),
    }
}

/// A second handle on the same optional characters.
pub fn copy_opt_cow<'a>(c: &Option<Cow<'a, str>>) -> (r: Option<Cow<'a, str>>)
    ensures
        opt_cow_view(r) == opt_cow_view(*c),
{
    match c {
        Some(x) => Some(copy_cow(x)),
        None => None,
    }
}

/// Borrows an optional string.
pub fn opt_borrowed<'a>(o: Option<&'a str>) -> (r: Option<Cow<'a, str>>)
    ensures
        opt_cow_view(r) == opt_view(o),
{
    match o {
        Some(s) => Some(Cow::Borrowed(s)),
        None => None,
    }
}

/// Borrows an optional string where it is not empty.
pub fn non_empty_borrowed<'a>(o: Option<&'a str>) -> (r: Option<Cow<'a, str>>)
    ensures
        opt_cow_view(r) == non_empty(opt_view(o)),
{
    match o {
        Some(s) => if s.unicode_len() > 0 {
            Some(Cow::Borrowed(s))
        } else {
            None
        },
        None => None,
    }
}

/// A string, or the empty string where there is none.
pub open spec fn or_empty_value(o: Option<Seq<char>>) -> Seq<char> {
    match o {
        Some(s) => s,
        None => Seq::<char>::empty(),
    }
}

/// Borrows a string, or the empty string where there is none.
pub fn or_empty<'a>(o: Option<&'a str>) -> (r: Cow<'a, str>)
    ensures
        r@ == or_empty_value(opt_view(o)),
{
    match o {
        Some(s) => Cow::Borrowed(s),
        None => {
            let e = "";
            proof {
                reveal_strlit("");
            }
            Cow::Borrowed(e)
        },
    }
}

/// Reads a flag: a positive `u8` is `true`, anything else is `false`.
pub fn parse_bool(v: &str) -> (r: bool)
    ensures
        r == flag_value(v@),
{
    match parse_u8(v) {
        Some(n) => n > 0,
        None => false,
    }
}

/// Reads an optional `u64` number.
pub fn parse_number(o: Option<&str>) -> (r: Option<u64>)
    ensures
        r == number_value(opt_view(o)),
{
    match o {
        Some(s) => parse_u64(s),
        None => None,
    }
}

/// Splits the text of a chat message into its text and whether it was sent with `/me`.
pub fn parse_message_text<'a>(input: &'a str) -> (r: (&'a str, bool))
    ensures
        (r.0@, r.1) == message_text(input@),
{
    let v = chars_of(input);
    let n = v.len();
    if n >= 9 && v[0] == '\u{1}' && v[1] == 'A' && v[2] == 'C' && v[3] == 'T' && v[4] == 'I'
        && v[5] == 'O' && v[6] == 'N' && v[7] == ' ' && v[n - 1] == '\u{1}' {
        assert(input@.take(8) =~= action_prefix());
        (input.substring_char(8, n - 1), true)
    } else {
        proof {
            if input@.len() >= 9 && input@.take(8) == action_prefix() {
                assert(input@.take(8)[0] == '\u{1}');
                assert(input@.take(8)[1] == 'A');
                assert(input@.take(8)[2] == 'C');
                assert(input@.take(8)[3] == 'T');
                assert(input@.take(8)[4] == 'I');
                assert(input@.take(8)[5] == 'O');
                assert(input@.take(8)[6] == 'N');
                assert(input@.take(8)[7] == ' ');
            }
        }
        (input, false)
    }
}

/// Splits a comma-separated list.
pub fn split_comma<'a>(s: &'a str) -> (r: Vec<Cow<'a, str>>)
    ensures
        cows_view(r@) == split_char(s@, ','),
{
    let pieces = split(s, ',');
    let mut out: Vec<Cow<'a, str>> = Vec::new();
    let mut i: usize = 0;
    while i < pieces.len()
        invariant
            i <= pieces@.len(),
            cows_view(out@) == strs_view(pieces@).take(i as int),
        decreases pieces@.len() - i,
    {
        let ghost before = out@;
        let piece = pieces[i];
        out.push(Cow::Borrowed(piece));
        assert(cows_view(out@) =~= cows_view(before).push(piece@));
        assert(strs_view(pieces@).take(i + 1) =~= strs_view(pieces@).take(i as int).push(piece@));
        i = i + 1;
    }
    assert(strs_view(pieces@).take(i as int) =~= strs_view(pieces@));
    out
}

/// The characters of each string.
pub fn cows_strs<'b>(v: &'b Vec<Cow<'_, str>>) -> (r: Vec<&'b str>)
    ensures
        strs_view(r@) == cows_view(v@),
{
    let mut out: Vec<&'b str> = Vec::new();
    let mut i: usize = 0;
    while i < v.len()
        invariant
            i <= v@.len(),
            strs_view(out@) == cows_view(v@).take(i as int),
        decreases v@.len() - i,
    {
        let ghost before = out@;
        let x = cow_str(&v[i]);
        out.push(x);
        assert(strs_view(out@) =~= strs_view(before).push(x@));
        assert(cows_view(v@).take(i + 1) =~= cows_view(v@).take(i as int).push(v@[i as int]@));
        i = i + 1;
    }
    assert(cows_view(v@).take(i as int) =~= cows_view(v@));
    out
}

/// Copies of the strings, borrowing where the originals borrow.
pub fn copy_cows<'a>(v: &Vec<Cow<'a, str>>) -> (r: Vec<Cow<'a, str>>)
    ensures
        cows_view(r@) == cows_view(v@),
{
    let mut out: Vec<Cow<'a, str>> = Vec::new();
    let mut i: usize = 0;
    while i < v.len()
        invariant
            i <= v@.len(),
            cows_view(out@) == cows_view(v@.take(i as int)),
        decreases v@.len() - i,
    {
        let ghost before = out@;
        let c = copy_cow(&v[i]);
        out.push(c);
        assert(cows_view(out@) =~= cows_view(before).push(c@));
        assert(v@.take(i + 1) =~= v@.take(i as int).push(v@[i as int]));
        assert(cows_view(v@.take(i + 1)) =~= cows_view(v@.take(i as int)).push(v@[i as int]@));
        i = i + 1;
    }
    assert(v@.take(i as int) =~= v@);
    out
}

/// Copies of the strings that own their characters.
pub fn cows_into_owned(v: Vec<Cow<'_, str>>) -> (r: Vec<Cow<'static, str>>)
    ensures
        cows_view(r@) == cows_view(v@),
{
    let ghost orig = v@;
    let mut v = v;
    let mut out: Vec<Cow<'static, str>> = Vec::new();
    let n = v.len();
    let mut i: usize = 0;
    while i < n
        invariant
            n == orig.len(),
            i <= n,
            v@ == orig.skip(i as int),
            cows_view(out@) == cows_view(orig.take(i as int)),
        decreases n - i,
    {
        let c = v.remove(0);
        assert(c == orig[i as int]);
        let ghost before = out@;
        let oc = owned_cow(c);
        out.push(oc);
        assert(cows_view(out@) =~= cows_view(before).push(oc@));
        assert(orig.take(i + 1) =~= orig.take(i as int).push(orig[i as int]));
        assert(cows_view(orig.take(i + 1)) =~= cows_view(orig.take(i as int)).push(orig[i as int]@));
        i = i + 1;
        assert(v@ =~= orig.skip(i as int));
    }
    assert(orig.take(n as int) =~= orig);
    out
}

/// The comma-separated list in an optional tag, or nothing.
pub open spec fn list_value(o: Option<Seq<char>>) -> Seq<Seq<char>> {
    match o {
        Some(s) => split_char(s, ','),
        None => Seq::<Seq<char>>::empty(),
    }
}

/// Splits an optional comma-separated list.
pub fn split_comma_opt<'a>(o: Option<&'a str>) -> (r: Vec<Cow<'a, str>>)
    ensures
        cows_view(r@) == list_value(opt_view(o)),
{
    match o {
        Some(s) => split_comma(s),
        None => {
            let v: Vec<Cow<'a, str>> = Vec::new();
            assert(cows_view(v@) =~= Seq::<Seq<char>>::empty());
            v
        },
    }
}

} // verus!

verus! {

/// A fully parsed Twitch chat message.
#[derive(Debug)]
pub enum Message<'src> {
    ClearChat(ClearChat<'src>),
    ClearMsg(ClearMsg<'src>),
    GlobalUserState(GlobalUserState<'src>),
    Join(Join<'src>),
    Notice(Notice<'src>),
    Part(Part<'src>),
    Ping(Ping<'src>),
    Pong(Pong<'src>),
    Privmsg(Privmsg<'src>),
    Reconnect,
    RoomState(RoomState<'src>),
    UserNotice(UserNotice<'src>),
    UserState(UserState<'src>),
    Whisper(Whisper<'src>),
    Other(IrcMessageRef<'src>),
}

impl<'src> Clone for Message<'src> {
    /// A copy of each part of the message.
    fn clone(&self) -> (r: Self)
        ensures
            match (*self, r) {
                (Message::ClearChat(a), Message::ClearChat(b)) => b@ == a@,
                (Message::ClearMsg(a), Message::ClearMsg(b)) => b@ == a@,
                (Message::GlobalUserState(a), Message::GlobalUserState(b)) => b@ == a@,
                (Message::Join(a), Message::Join(b)) => b@ == a@,
                (Message::Notice(a), Message::Notice(b)) => b@ == a@,
                (Message::Part(a), Message::Part(b)) => b@ == a@,
                (Message::Ping(a), Message::Ping(b)) => b@ == a@,
                (Message::Pong(a), Message::Pong(b)) => b@ == a@,
                (Message::Privmsg(a), Message::Privmsg(b)) => b@ == a@,
                (Message::RoomState(a), Message::RoomState(b)) => b@ == a@,
                (Message::UserNotice(a), Message::UserNotice(b)) => b@ == a@,
                (Message::UserState(a), Message::UserState(b)) => b@ == a@,
                (Message::Whisper(a), Message::Whisper(b)) => b@ == a@,
                (Message::Reconnect, Message::Reconnect) => true,
                (Message::Other(a), Message::Other(b)) => b.source() == a.source() && b.layout() == a.layout(),
                _ => false,
            },
    {
        match self {
            Message::ClearChat(x) => Message::ClearChat(x.clone()),
            Message::ClearMsg(x) => Message::ClearMsg(x.clone()),
            Message::GlobalUserState(x) => Message::GlobalUserState(x.clone()),
            Message::Join(x) => Message::Join(x.clone()),
            Message::Notice(x) => Message::Notice(x.clone()),
            Message::Part(x) => Message::Part(*x),
            Message::Ping(x) => Message::Ping(x.clone()),
            Message::Pong(x) => Message::Pong(x.clone()),
            Message::Privmsg(x) => Message::Privmsg(x.clone()),
            Message::Reconnect => Message::Reconnect,
            Message::RoomState(x) => Message::RoomState(*x),
            Message::UserNotice(x) => Message::UserNotice(x.clone()),
            Message::UserState(x) => Message::UserState(x.clone()),
            Message::Whisper(x) => Message::Whisper(x.clone()),
            Message::Other(x) => Message::Other(x.clone()),
        }
    }
}

/// `r` is what reading the message `m` as its command gives: the typed message where
/// the command is known and its reading succeeds, an error where it fails, and the
/// message itself for any other command.
pub open spec fn typed_as(m: IrcMessageRef, r: Result<Message, MessageParseError>) -> bool {
    match m.spec_command() {
        RawCommand::Clearchat => match clear_chat_of(m) {
            Some(v) => r matches Ok(Message::ClearChat(x)) && x@ == v,
            None => r is Err,
        },
        RawCommand::Clearmsg => match clear_msg_of(m) {
            Some(v) => r matches Ok(Message::ClearMsg(x)) && x@ == v,
            None => r is Err,
        },
        RawCommand::GlobalUserState => match global_user_state_of(m) {
            Some(v) => r matches Ok(Message::GlobalUserState(x)) && x@ == v,
            None => r is Err,
        },
        RawCommand::Join => match join_of(m) {
            Some(v) => r matches Ok(Message::Join(x)) && x@ == v,
            None => r is Err,
        },
        RawCommand::Notice => match notice_of(m) {
            Some(v) => r matches Ok(Message::Notice(x)) && x@ == v,
            None => r is Err,
        },
        RawCommand::Part => match part_of(m) {
            Some(v) => r matches Ok(Message::Part(x)) && x@ == v,
            None => r is Err,
        },
        RawCommand::Ping => match ping_of(m) {
            Some(v) => r matches Ok(Message::Ping(x)) && x@ == v,
            None => r is Err,
        },
        RawCommand::Pong => match pong_of(m) {
            Some(v) => r matches Ok(Message::Pong(x)) && x@ == v,
            None => r is Err,
        },
        RawCommand::Privmsg => match privmsg_of(m) {
            Some(v) => r matches Ok(Message::Privmsg(x)) && x@ == v,
            None => r is Err,
        },
        RawCommand::Reconnect => r matches Ok(Message::Reconnect),
        RawCommand::RoomState => match room_state_of(m) {
            Some(v) => r matches Ok(Message::RoomState(x)) && x@ == v,
            None => r is Err,
        },
        RawCommand::UserNotice => match user_notice_of(m) {
            Some(v) => r matches Ok(Message::UserNotice(x)) && x@ == v,
            None => r is Err,
        },
        RawCommand::UserState => match user_state_of(m) {
            Some(v) => r matches Ok(Message::UserState(x)) && x@ == v,
            None => r is Err,
        },
        RawCommand::Whisper => match whisper_of(m) {
            Some(v) => r matches Ok(Message::Whisper(x)) && x@ == v,
            None => r is Err,
        },
        _ => r matches Ok(Message::Other(x)) && x.source() == m.source() && x.layout() == m.layout(),
    }
}

proof fn lemma_same_clear_chat_of(m: IrcMessageRef, m0: IrcMessageRef)
    requires
        m.source() == m0.source(),
        m.layout() == m0.layout(),
    ensures
        clear_chat_of(m) == clear_chat_of(m0),
{
}

proof fn lemma_same_clear_msg_of(m: IrcMessageRef, m0: IrcMessageRef)
    requires
        m.source() == m0.source(),
        m.layout() == m0.layout(),
    ensures
        clear_msg_of(m) == clear_msg_of(m0),
{
}

proof fn lemma_same_global_user_state_of(m: IrcMessageRef, m0: IrcMessageRef)
    requires
        m.source() == m0.source(),
        m.layout() == m0.layout(),
    ensures
        global_user_state_of(m) == global_user_state_of(m0),
{
}

proof fn lemma_same_join_of(m: IrcMessageRef, m0: IrcMessageRef)
    requires
        m.source() == m0.source(),
        m.layout() == m0.layout(),
    ensures
        join_of(m) == join_of(m0),
{
}

proof fn lemma_same_notice_of(m: IrcMessageRef, m0: IrcMessageRef)
    requires
        m.source() == m0.source(),
        m.layout() == m0.layout(),
    ensures
        notice_of(m) == notice_of(m0),
{
}

proof fn lemma_same_part_of(m: IrcMessageRef, m0: IrcMessageRef)
    requires
        m.source() == m0.source(),
        m.layout() == m0.layout(),
    ensures
        part_of(m) == part_of(m0),
{
}

proof fn lemma_same_ping_of(m: IrcMessageRef, m0: IrcMessageRef)
    requires
        m.source() == m0.source(),
        m.layout() == m0.layout(),
    ensures
        ping_of(m) == ping_of(m0),
{
}

proof fn lemma_same_pong_of(m: IrcMessageRef, m0: IrcMessageRef)
    requires
        m.source() == m0.source(),
        m.layout() == m0.layout(),
    ensures
        pong_of(m) == pong_of(m0),
{
}

proof fn lemma_same_privmsg_of(m: IrcMessageRef, m0: IrcMessageRef)
    requires
        m.source() == m0.source(),
        m.layout() == m0.layout(),
    ensures
        privmsg_of(m) == privmsg_of(m0),
{
}

proof fn lemma_same_room_state_of(m: IrcMessageRef, m0: IrcMessageRef)
    requires
        m.source() == m0.source(),
        m.layout() == m0.layout(),
    ensures
        room_state_of(m) == room_state_of(m0),
{
}

proof fn lemma_same_user_notice_of(m: IrcMessageRef, m0: IrcMessageRef)
    requires
        m.source() == m0.source(),
        m.layout() == m0.layout(),
    ensures
        user_notice_of(m) == user_notice_of(m0),
{
}

proof fn lemma_same_user_state_of(m: IrcMessageRef, m0: IrcMessageRef)
    requires
        m.source() == m0.source(),
        m.layout() == m0.layout(),
    ensures
        user_state_of(m) == user_state_of(m0),
{
}

proof fn lemma_same_whisper_of(m: IrcMessageRef, m0: IrcMessageRef)
    requires
        m.source() == m0.source(),
        m.layout() == m0.layout(),
    ensures
        whisper_of(m) == whisper_of(m0),
{
}

/// Reading a message as its command depends on its source and its layout alone.
proof fn lemma_typed_as_same(m: IrcMessageRef, m0: IrcMessageRef, r: Result<Message, MessageParseError>)
    requires
        m.source() == m0.source(),
        m.layout() == m0.layout(),
        typed_as(m0, r),
    ensures
        typed_as(m, r),
{
    lemma_same_clear_chat_of(m, m0);
    lemma_same_clear_msg_of(m, m0);
    lemma_same_global_user_state_of(m, m0);
    lemma_same_join_of(m, m0);
    lemma_same_notice_of(m, m0);
    lemma_same_part_of(m, m0);
    lemma_same_ping_of(m, m0);
    lemma_same_pong_of(m, m0);
    lemma_same_privmsg_of(m, m0);
    lemma_same_room_state_of(m, m0);
    lemma_same_user_notice_of(m, m0);
    lemma_same_user_state_of(m, m0);
    lemma_same_whisper_of(m, m0);
}

/// The durations of the message `b`, laid out as `l`, fit wherever its command turns
/// them into `chrono` durations: the `followers-only` and `slow` tags of a `ROOMSTATE`
/// and the `ban-duration` tag of a `CLEARCHAT`.
pub open spec fn layout_fits(b: Seq<u8>, l: Layout) -> bool {
    &&& l.command is RoomState ==> tags_durations_fit(b, l.tags)
    &&& l.command is Clearchat ==> tags_ban_fits(b, l)
}

/// The message can be read as the message type of its command.
pub open spec fn message_fits(m: IrcMessageRef) -> bool {
    layout_fits(m.bytes(), m.layout())
}

/// The message that `src` holds, if any, can be read as the message type of its command.
pub open spec fn source_fits(src: Seq<char>) -> bool {
    match spec_parse(bytes_of(src)) {
        Some(l) => layout_fits(bytes_of(src), l),
        None => true,
    }
}

impl<'src> Message<'src> {
    /// Tests whether `message` can be read as the message type of its command: where it
    /// cannot, a duration it holds lies outside `chrono`'s range, and reading it panics.
    pub fn fits(message: &IrcMessageRef<'src>) -> (r: bool)
        ensures
            r == message_fits(*message),
    {
        match message.command() {
            Command::RoomState => RoomState::durations_fit(message),
            Command::ClearChat => ClearChat::ban_duration_fits(message),
            _ => true,
        }
    }

    /// Parses a base message into the message type of its command.
    ///
    /// The message must fit (see [`Message::fits`]).
    pub fn from_irc(message: IrcMessageRef<'src>) -> (r: Result<Message<'src>, MessageParseError>)
        requires
            message_fits(message),
        ensures
            typed_as(message, r),
    {
        match message.command() {
            Command::ClearChat => match ClearChat::from_irc(message) {
                Ok(x) => Ok(Message::ClearChat(x)),
                Err(e) => Err(e),
            },
            Command::ClearMsg => match ClearMsg::from_irc(message) {
                Ok(x) => Ok(Message::ClearMsg(x)),
                Err(e) => Err(e),
            },
            Command::GlobalUserState => match GlobalUserState::from_irc(message) {
                Ok(x) => Ok(Message::GlobalUserState(x)),
                Err(e) => Err(e),
            },
            Command::Join => match Join::from_irc(message) {
                Ok(x) => Ok(Message::Join(x)),
                Err(e) => Err(e),
            },
            Command::Notice => match Notice::from_irc(message) {
                Ok(x) => Ok(Message::Notice(x)),
                Err(e) => Err(e),
            },
            Command::Part => match Part::from_irc(message) {
                Ok(x) => Ok(Message::Part(x)),
                Err(e) => Err(e),
            },
            Command::Ping => match Ping::from_irc(message) {
                Ok(x) => Ok(Message::Ping(x)),
                Err(e) => Err(e),
            },
            Command::Pong => match Pong::from_irc(message) {
                Ok(x) => Ok(Message::Pong(x)),
                Err(e) => Err(e),
            },
            Command::Privmsg => match Privmsg::from_irc(message) {
                Ok(x) => Ok(Message::Privmsg(x)),
                Err(e) => Err(e),
            },
            Command::Reconnect => Ok(Message::Reconnect),
            Command::RoomState => match RoomState::from_irc(message) {
                Ok(x) => Ok(Message::RoomState(x)),
                Err(e) => Err(e),
            },
            Command::UserNotice => match UserNotice::from_irc(message) {
                Ok(x) => Ok(Message::UserNotice(x)),
                Err(e) => Err(e),
            },
            Command::UserState => match UserState::from_irc(message) {
                Ok(x) => Ok(Message::UserState(x)),
                Err(e) => Err(e),
            },
            Command::Whisper => match Whisper::from_irc(message) {
                Ok(x) => Ok(Message::Whisper(x)),
                Err(e) => Err(e),
            },
            _ => Ok(Message::Other(message)),
        }
    }

    /// Attempt to parse a message from a string.
    ///
    /// This is shorthand for [`IrcMessageRef::parse`] followed by [`Message::from_irc`].
    pub fn parse(src: &'src str) -> (r: Result<Message<'src>, MessageParseError>)
        requires
            source_fits(src@),
        ensures
            bytes_of(src@).len() > u32::MAX || spec_parse(bytes_of(src@)) is None ==> r is Err,
            forall|m: IrcMessageRef|
                bytes_of(src@).len() <= u32::MAX && m.source() == src@ && Some(m.layout()) == spec_parse(
                    bytes_of(src@),
                ) ==> #[trigger] typed_as(m, r),
    {
        match IrcMessageRef::parse(src) {
            Some(m0) => {
                let ghost g0 = m0;
                let r = Message::from_irc(m0);
                proof {
                    assert forall|m: IrcMessageRef|
                        bytes_of(src@).len() <= u32::MAX && m.source() == src@ && Some(m.layout())
                            == spec_parse(bytes_of(src@)) implies #[trigger] typed_as(m, r) by {
                        lemma_typed_as_same(m, g0, r);
                    }
                }
                r
            },
            None => Err(MessageParseError),
        }
    }
}

impl<'src> IrcMessageRef<'src> {
    /// Parses the base message into a Twitch-specific [`Message`].
    pub fn as_typed(self) -> (r: Result<Message<'src>, MessageParseError>)
        requires
            message_fits(self),
        ensures
            typed_as(self, r),
    {
        Message::from_irc(self)
    }
}

impl IrcMessage {
    /// Parses the base message into a Twitch-specific [`Message`].
    pub fn as_typed(&self) -> (r: Result<Message<'_>, MessageParseError>)
        requires
            layout_fits(self.bytes(), self.layout()),
        ensures
            forall|m: IrcMessageRef|
                m.source() == self.source() && m.layout() == self.layout() ==> #[trigger] typed_as(m, r),
    {
        let m0 = self.as_ref();
        let ghost g0 = m0;
        let r = Message::from_irc(m0);
        proof {
            assert forall|m: IrcMessageRef|
                m.source() == self.source() && m.layout() == self.layout() implies #[trigger] typed_as(m, r) by {
                lemma_typed_as_same(m, g0, r);
            }
        }
        r
    }
}

/// The text of a `/me` message is read back with the action flag set.
pub proof fn lemma_action_text(t: Seq<char>)
    ensures
        message_text(action_prefix() + t + seq!['\u{1}']) == (t, true),
{
    let s = action_prefix() + t + seq!['\u{1}'];
    assert(s.take(8) =~= action_prefix());
    assert(s.subrange(8, s.len() - 1) =~= t);
}

/// A text that does not begin with the `/me` prefix is read as it is.
pub proof fn lemma_plain_text(s: Seq<char>)
    requires
        !(s.len() >= 8 && s.take(8) == action_prefix()),
    ensures
        message_text(s) == (s, false),
{
}

/// A message is read as a typed message only under the command word that names it:
/// `CLEARCHAT`, `CLEARMSG`, `GLOBALUSERSTATE`, `JOIN`, `NOTICE`, `PART`, `PING`, `PONG`,
/// `PRIVMSG`, `RECONNECT`, `ROOMSTATE`, `USERNOTICE`, `USERSTATE` and `WHISPER`.
pub proof fn lemma_typed_command_word(m: IrcMessageRef, r: Result<Message, MessageParseError>)
    requires
        typed_as(m, r),
    ensures
        ({
            let w = crate::irc::command::raw_command_name(m.bytes(), m.spec_command());
            &&& r matches Ok(Message::ClearChat(_)) ==> w == "CLEARCHAT"@
            &&& r matches Ok(Message::ClearMsg(_)) ==> w == "CLEARMSG"@
            &&& r matches Ok(Message::GlobalUserState(_)) ==> w == "GLOBALUSERSTATE"@
            &&& r matches Ok(Message::Join(_)) ==> w == "JOIN"@
            &&& r matches Ok(Message::Notice(_)) ==> w == "NOTICE"@
            &&& r matches Ok(Message::Part(_)) ==> w == "PART"@
            &&& r matches Ok(Message::Ping(_)) ==> w == "PING"@
            &&& r matches Ok(Message::Pong(_)) ==> w == "PONG"@
            &&& r matches Ok(Message::Privmsg(_)) ==> w == "PRIVMSG"@
            &&& r matches Ok(Message::Reconnect) ==> w == "RECONNECT"@
            &&& r matches Ok(Message::RoomState(_)) ==> w == "ROOMSTATE"@
            &&& r matches Ok(Message::UserNotice(_)) ==> w == "USERNOTICE"@
            &&& r matches Ok(Message::UserState(_)) ==> w == "USERSTATE"@
            &&& r matches Ok(Message::Whisper(_)) ==> w == "WHISPER"@
        }),
{
}

} // verus!
