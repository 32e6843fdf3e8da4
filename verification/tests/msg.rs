//! Reading Twitch messages: what each message type holds once parsed.
use serde_json::Value;
use tmi::msg::{
    Action, Badge, ClearChat, ClearMsg, Event, FromIrc, GlobalUserState, Join, Notice, Part, Ping,
    PinnedChatLevel, Pong, Privmsg, User, UserNotice, UserState, Whisper,
};
use tmi::IrcMessageRef;

fn parse<'a, T: FromIrc<'a>>(src: &'a str) -> T {
    let raw = IrcMessageRef::parse(src).unwrap();
    match T::from_irc(raw) {
        Ok(x) => x,
        Err(_) => panic!("failed to parse"),
    }
}

fn s(v: &str) -> Value {
    Value::String(v.to_string())
}

fn opt(v: Option<&str>) -> Value {
    match v {
        Some(x) => s(x),
        None => Value::Null,
    }
}

fn num(v: u64) -> Value {
    Value::from(v)
}

fn obj(fields: Vec<(&str, Value)>) -> Value {
    let mut m = serde_json::Map::new();
    for (k, v) in fields {
        m.insert(k.to_string(), v);
    }
    Value::Object(m)
}

fn typed<'a, T: FromIrc<'a>>(raw: IrcMessageRef<'a>) -> T {
    match T::from_irc(raw) {
        Ok(x) => x,
        Err(_) => panic!("failed to parse"),
    }
}

/// Reads the message in `src`, describes it as JSON with `json`, and checks that the
/// description survives JSON text, and that the owned copy of the base message reads
/// back as the same typed message.
fn roundtrip(src: &str, json: impl Fn(IrcMessageRef<'_>) -> Value) {
    let v = json(IrcMessageRef::parse(src).unwrap());
    let text = serde_json::to_string(&v).expect("failed to serialize");
    let back: Value = serde_json::from_str(&text).expect("failed to deserialize");
    assert_eq!(v, back, "roundtrip failed");
    let owned = IrcMessageRef::parse(src).unwrap().into_owned();
    assert_eq!(owned.raw(), src);
    assert_eq!(json(owned.as_ref()), back, "the owned message reads differently");
}

fn badge_desc(b: &Badge) -> String {
    match b {
        Badge::Staff => "staff".to_string(),
        Badge::Turbo => "turbo".to_string(),
        Badge::Broadcaster => "broadcaster".to_string(),
        Badge::Moderator => "moderator".to_string(),
        Badge::Subscriber(sub) => format!("subscriber:{}:{}", sub.version(), sub.months()),
        Badge::Other(d) => format!("other:{}:{}:{}", d.name(), d.version(), d.extra().unwrap_or("-")),
    }
}

fn badges_desc(v: &[Badge]) -> Vec<String> {
    v.iter().map(badge_desc).collect()
}

fn badges_json(v: &[Badge]) -> Value {
    Value::Array(
        v.iter()
            .map(|b| {
                let d = b.as_badge_data();
                obj(vec![("name", s(d.name())), ("version", s(d.version())), ("extra", opt(d.extra()))])
            })
            .collect(),
    )
}

fn user_json(u: &User) -> Value {
    obj(vec![("id", s(u.id())), ("login", s(u.login())), ("name", s(&u.name()))])
}

fn user_desc(u: &User) -> (String, String, String) {
    (u.id().to_string(), u.login().to_string(), u.name().to_string())
}

fn gus_json(m: &GlobalUserState) -> Value {
    obj(vec![
        ("id", s(m.id())),
        ("name", s(&m.name())),
        ("badges", badges_json(m.badges())),
        ("emote_sets", Value::Array(m.emote_sets().into_iter().map(s).collect())),
        ("color", opt(m.color())),
    ])
}

fn join_json(m: &Join) -> Value {
    obj(vec![("channel", s(m.channel())), ("user", s(m.user()))])
}

fn notice_json(m: &Notice) -> Value {
    obj(vec![("channel", opt(m.channel())), ("text", s(m.text())), ("id", opt(m.id()))])
}

fn ping_json(m: &Ping) -> Value {
    obj(vec![("nonce", opt(m.nonce()))])
}

fn pong_json(m: &Pong) -> Value {
    obj(vec![("nonce", opt(m.nonce()))])
}

fn user_state_json(m: &UserState) -> Value {
    obj(vec![
        ("channel", s(m.channel())),
        ("user_name", s(m.user_name())),
        ("badges", badges_json(m.badges())),
        ("emote_sets", Value::Array(m.emote_sets().into_iter().map(s).collect())),
        ("color", opt(m.color())),
    ])
}

fn whisper_json(m: &Whisper) -> Value {
    obj(vec![
        ("recipient", s(m.recipient())),
        ("sender", user_json(&m.sender())),
        ("text", s(m.text())),
        ("badges", badges_json(m.badges())),
        ("emotes", s(m.raw_emotes())),
        ("color", opt(m.color())),
    ])
}

fn clear_chat_json(m: &ClearChat) -> Value {
    let action = match m.action() {
        Action::Clear => s("clear"),
        Action::Ban(b) => obj(vec![("user", s(b.user())), ("id", s(b.id()))]),
        Action::TimeOut(t) => obj(vec![("user", s(t.user())), ("id", s(t.id())), ("duration", Value::from(t.duration()))]),
    };
    obj(vec![
        ("channel", s(m.channel().as_str())),
        ("channel_id", s(m.channel_id())),
        ("action", action),
        ("timestamp", Value::from(m.timestamp())),
    ])
}

fn clear_msg_json(m: &ClearMsg) -> Value {
    obj(vec![
        ("channel", s(m.channel())),
        ("channel_id", s(m.channel_id())),
        ("sender", s(m.sender())),
        ("target_message_id", s(m.target_message_id())),
        ("text", s(m.text())),
        ("is_action", Value::Bool(m.is_action())),
        ("timestamp", Value::from(m.timestamp())),
    ])
}

fn privmsg_json(m: &Privmsg) -> Value {
    let reply = match m.reply_to() {
        Some(r) => obj(vec![
            ("thread_parent_message_id", s(r.thread_parent_message_id())),
            ("thread_parent_user_login", s(r.thread_parent_user_login())),
            ("message_id", s(r.message_id())),
            ("sender", user_json(&r.sender())),
            ("text", s(&r.text())),
        ]),
        None => Value::Null,
    };
    let pinned = match m.pinned_chat() {
        Some(p) => obj(vec![
            ("paid_amount", Value::from(p.paid_amount())),
            ("paid_currency", s(p.paid_currency())),
            ("paid_exponent", Value::from(p.paid_exponent())),
            ("paid_level", s(p.paid_level().as_str())),
            ("is_system_message", Value::Bool(p.is_system_message())),
        ]),
        None => Value::Null,
    };
    obj(vec![
        ("channel", s(m.channel())),
        ("channel_id", s(m.channel_id())),
        ("msg_id", opt(m.msg_id())),
        ("id", s(m.id())),
        ("sender", user_json(m.sender())),
        ("reply_to", reply),
        ("pinned_chat", pinned),
        ("text", s(m.text())),
        ("is_action", Value::Bool(m.is_action())),
        ("badges", badges_json(m.badges())),
        ("color", opt(m.color())),
        ("custom_reward_id", opt(m.custom_reward_id())),
        ("bits", match m.bits() {
            Some(b) => num(b),
            None => Value::Null,
        }),
        ("emotes", s(m.raw_emotes())),
        ("timestamp", Value::from(m.timestamp())),
    ])
}

fn event_json(e: &Event) -> Value {
    let promo = |p: Option<tmi::msg::SubGiftPromo>| match p {
        Some(p) => obj(vec![("total_gifts", num(p.total_gifts())), ("promo_name", s(p.promo_name()))]),
        None => Value::Null,
    };
    match e {
        Event::SubOrResub(x) => obj(vec![
            ("is_resub", Value::Bool(x.is_resub())),
            ("cumulative_months", num(x.cumulative_months())),
            ("streak_months", match x.streak_months() {
                Some(n) => num(n),
                None => Value::Null,
            }),
            ("sub_plan", s(x.sub_plan())),
            ("sub_plan_name", s(&x.sub_plan_name())),
        ]),
        Event::Raid(x) => obj(vec![("viewer_count", num(x.viewer_count())), ("profile_image_url", s(x.profile_image_url()))]),
        Event::SubGift(x) => obj(vec![
            ("cumulative_months", num(x.cumulative_months())),
            ("recipient", user_json(&x.recipient())),
            ("sub_plan", s(x.sub_plan())),
            ("sub_plan_name", s(&x.sub_plan_name())),
            ("num_gifted_months", num(x.num_gifted_months())),
        ]),
        Event::SubMysteryGift(x) => obj(vec![
            ("count", num(x.count())),
            ("sender_total_gifts", num(x.sender_total_gifts())),
            ("sub_plan", s(x.sub_plan())),
        ]),
        Event::AnonSubMysteryGift(x) => obj(vec![("count", num(x.count())), ("sub_plan", s(x.sub_plan()))]),
        Event::GiftPaidUpgrade(x) => obj(vec![
            ("gifter_login", s(x.gifter_login())),
            ("gifter_name", s(x.gifter_name())),
            ("promotion", promo(x.promotion())),
        ]),
        Event::AnonGiftPaidUpgrade(x) => obj(vec![("promotion", promo(x.promotion()))]),
        Event::Ritual(x) => obj(vec![("name", s(x.name()))]),
        Event::BitsBadgeTier(x) => obj(vec![("tier", num(x.tier()))]),
        Event::Announcement(x) => obj(vec![("highlight_color", s(x.highlight_color()))]),
        _ => Value::Null,
    }
}

fn user_notice_json(m: &UserNotice) -> Value {
    obj(vec![
        ("channel", s(m.channel().as_str())),
        ("channel_id", s(m.channel_id())),
        ("sender", match m.sender() {
            Some(u) => user_json(u),
            None => Value::Null,
        }),
        ("text", opt(m.text())),
        ("system_message", match m.system_message() {
            Some(x) => s(&x),
            None => Value::Null,
        }),
        ("event", event_json(m.event())),
        ("event_id", s(m.event_id())),
        ("badges", badges_json(m.badges())),
        ("emotes", s(m.raw_emotes())),
        ("color", opt(m.color())),
        ("message_id", s(m.message_id())),
        ("timestamp", Value::from(m.timestamp())),
    ])
}

#[test]
fn parse_globaluserstate() {
    let m: GlobalUserState = parse("@badge-info=;badges=;color=;display-name=randers811;emote-sets=0;user-id=553170741;user-type= :tmi.twitch.tv GLOBALUSERSTATE");
    assert_eq!(m.id(), "553170741");
    assert_eq!(m.name(), "randers811");
    assert_eq!(m.num_badges(), 0);
    assert_eq!(m.emote_sets(), vec!["0"]);
    assert_eq!(m.num_emote_sets(), 1);
    assert_eq!(m.color(), None);
}

#[test]
fn roundtrip_globaluserstate() {
    roundtrip(
        "@badge-info=;badges=;color=;display-name=randers811;emote-sets=0;user-id=553170741;user-type= :tmi.twitch.tv GLOBALUSERSTATE",
        |r| gus_json(&typed::<GlobalUserState>(r)),
    );
}

#[test]
fn join_parse_join() {
    let m: Join = parse(":randers811!randers811@randers811.tmi.twitch.tv JOIN #pajlada");
    assert_eq!(m.channel(), "#pajlada");
    assert_eq!(m.user(), "randers811");
}

#[test]
fn roundtrip_join() {
    roundtrip(
        ":randers811!randers811@randers811.tmi.twitch.tv JOIN #pajlada",
        |r| join_json(&typed::<Join>(r)),
    );
}

#[test]
fn parse_notice_before_login() {
    let m: Notice = parse(":tmi.twitch.tv NOTICE * :Improperly formatted auth");
    assert_eq!(m.channel(), None);
    assert_eq!(m.text(), "Improperly formatted auth");
    assert_eq!(m.id(), None);
}

#[test]
fn parse_notice_basic() {
    let m: Notice = parse("@msg-id=msg_banned :tmi.twitch.tv NOTICE #forsen :You are permanently banned from talking in forsen.");
    assert_eq!(m.channel(), Some("#forsen"));
    assert_eq!(m.text(), "You are permanently banned from talking in forsen.");
    assert_eq!(m.id(), Some("msg_banned"));
}

#[test]
fn roundtrip_notice_before_login() {
    roundtrip(
        ":tmi.twitch.tv NOTICE * :Improperly formatted auth",
        |r| notice_json(&typed::<Notice>(r)),
    );
}

#[test]
fn roundtrip_notice_basic() {
    roundtrip(
        "@msg-id=msg_banned :tmi.twitch.tv NOTICE #forsen :You are permanently banned from talking in forsen.",
        |r| notice_json(&typed::<Notice>(r)),
    );
}

#[test]
fn part_parse_join() {
    let m: Part = parse(":randers811!randers811@randers811.tmi.twitch.tv PART #pajlada");
    assert_eq!(m.channel().as_str(), "#pajlada");
    assert_eq!(m.user(), "randers811");
}

#[test]
fn ping_parse_ping() {
    let m: Ping = parse(":tmi.twitch.tv PING");
    assert_eq!(m.nonce(), None);
}

#[test]
fn ping_parse_ping_nonce() {
    let m: Ping = parse(":tmi.twitch.tv PING :nonce");
    assert_eq!(m.nonce(), Some("nonce"));
}

#[test]
fn ping_roundtrip_ping() {
    roundtrip(
        ":tmi.twitch.tv PING",
        |r| ping_json(&typed::<Ping>(r)),
    );
}

#[test]
fn ping_roundtrip_ping_nonce() {
    roundtrip(
        ":tmi.twitch.tv PING :nonce",
        |r| ping_json(&typed::<Ping>(r)),
    );
}

#[test]
fn pong_parse_ping() {
    let m: Pong = parse(":tmi.twitch.tv PONG");
    assert_eq!(m.nonce(), None);
}

#[test]
fn pong_parse_ping_nonce() {
    let m: Pong = parse(":tmi.twitch.tv PONG :nonce");
    assert_eq!(m.nonce(), Some("nonce"));
}

#[test]
fn pong_roundtrip_ping() {
    roundtrip(
        ":tmi.twitch.tv PONG",
        |r| pong_json(&typed::<Pong>(r)),
    );
}

#[test]
fn pong_roundtrip_ping_nonce() {
    roundtrip(
        ":tmi.twitch.tv PONG :nonce",
        |r| pong_json(&typed::<Pong>(r)),
    );
}

#[test]
fn parse_userstate() {
    let m: UserState = parse("@badge-info=;badges=;color=#FF0000;display-name=TESTUSER;emote-sets=0;mod=0;subscriber=0;user-type= :tmi.twitch.tv USERSTATE #randers");
    assert_eq!(m.channel(), "#randers");
    assert_eq!(m.user_name(), "TESTUSER");
    assert_eq!(m.num_badges(), 0);
    assert_eq!(m.emote_sets(), vec!["0"]);
    assert_eq!(m.color(), Some("#FF0000"));
}

#[test]
fn parse_userstate_uuid_emote_set_id() {
    let m: UserState = parse("@badge-info=;badges=moderator/1;color=#8A2BE2;display-name=TESTUSER;emote-sets=0,75c09c7b-332a-43ec-8be8-1d4571706155;mod=1;subscriber=0;user-type=mod :tmi.twitch.tv USERSTATE #randers");
    assert_eq!(m.channel(), "#randers");
    assert_eq!(m.user_name(), "TESTUSER");
    assert_eq!(badges_desc(m.badges()), vec!["moderator"]);
    assert_eq!(m.emote_sets(), vec!["0", "75c09c7b-332a-43ec-8be8-1d4571706155"]);
    assert_eq!(m.num_emote_sets(), 2);
    assert_eq!(m.color(), Some("#8A2BE2"));
}

#[test]
fn roundtrip_userstate() {
    roundtrip(
        "@badge-info=;badges=;color=#FF0000;display-name=TESTUSER;emote-sets=0;mod=0;subscriber=0;user-type= :tmi.twitch.tv USERSTATE #randers",
        |r| user_state_json(&typed::<UserState>(r)),
    );
}

#[test]
fn roundtrip_userstate_uuid_emote_set_id() {
    roundtrip(
        "@badge-info=;badges=moderator/1;color=#8A2BE2;display-name=TESTUSER;emote-sets=0,75c09c7b-332a-43ec-8be8-1d4571706155;mod=1;subscriber=0;user-type=mod :tmi.twitch.tv USERSTATE #randers",
        |r| user_state_json(&typed::<UserState>(r)),
    );
}

#[test]
fn parse_whisper() {
    let m: Whisper = parse("@badges=;color=#19E6E6;display-name=randers;emotes=25:22-26;message-id=1;thread-id=40286300_553170741;turbo=0;user-id=40286300;user-type= :randers!randers@randers.tmi.twitch.tv WHISPER randers811 :hello, this is a test Kappa");
    assert_eq!(m.recipient(), "randers811");
    assert_eq!(user_desc(&m.sender()), ("40286300".to_string(), "randers".to_string(), "randers".to_string()));
    assert_eq!(m.text(), "hello, this is a test Kappa");
    assert_eq!(m.num_badges(), 0);
    assert_eq!(m.raw_emotes(), "25:22-26");
    assert_eq!(m.color(), Some("#19E6E6"));
}

#[test]
fn roundtrip_whisper() {
    roundtrip(
        "@badges=;color=#19E6E6;display-name=randers;emotes=25:22-26;message-id=1;thread-id=40286300_553170741;turbo=0;user-id=40286300;user-type= :randers!randers@randers.tmi.twitch.tv WHISPER randers811 :hello, this is a test Kappa",
        |r| whisper_json(&typed::<Whisper>(r)),
    );
}

#[test]
fn parse_clearchat_timeout() {
    let m: ClearChat = parse("@ban-duration=1;room-id=11148817;target-user-id=148973258;tmi-sent-ts=1594553828245 :tmi.twitch.tv CLEARCHAT #pajlada :fabzeef");
    assert_eq!(m.channel().as_str(), "#pajlada");
    assert_eq!(m.channel_id(), "11148817");
    assert!(m.action().is_time_out());
    match m.action() {
        Action::TimeOut(t) => {
            assert_eq!(t.user(), "fabzeef");
            assert_eq!(t.id(), "148973258");
            assert_eq!(t.duration(), 1);
        },
        _ => panic!("expected a time out"),
    }
    assert_eq!(m.target(), Some("fabzeef"));
    assert_eq!(m.timestamp(), 1594553828245);
}

#[test]
fn parse_clearchat_ban() {
    let m: ClearChat = parse("@room-id=11148817;target-user-id=70948394;tmi-sent-ts=1594561360331 :tmi.twitch.tv CLEARCHAT #pajlada :weeb123");
    assert_eq!(m.channel().as_str(), "#pajlada");
    assert_eq!(m.channel_id(), "11148817");
    assert!(m.action().is_ban());
    match m.action() {
        Action::Ban(b) => {
            assert_eq!(b.user(), "weeb123");
            assert_eq!(b.id(), "70948394");
        },
        _ => panic!("expected a ban"),
    }
    assert_eq!(m.target(), Some("weeb123"));
    assert_eq!(m.timestamp(), 1594561360331);
}

#[test]
fn parse_clearchat_clear() {
    let m: ClearChat = parse("@room-id=40286300;tmi-sent-ts=1594561392337 :tmi.twitch.tv CLEARCHAT #randers");
    assert_eq!(m.channel().as_str(), "#randers");
    assert_eq!(m.channel_id(), "40286300");
    assert!(m.action().is_clear());
    assert_eq!(m.target(), None);
    assert_eq!(m.timestamp(), 1594561392337);
}

#[test]
fn roundtrip_clearchat_timeout() {
    roundtrip(
        "@ban-duration=1;room-id=11148817;target-user-id=148973258;tmi-sent-ts=1594553828245 :tmi.twitch.tv CLEARCHAT #pajlada :fabzeef",
        |r| clear_chat_json(&typed::<ClearChat>(r)),
    );
}

#[test]
fn roundtrip_clearchat_ban() {
    roundtrip(
        "@room-id=11148817;target-user-id=70948394;tmi-sent-ts=1594561360331 :tmi.twitch.tv CLEARCHAT #pajlada :weeb123",
        |r| clear_chat_json(&typed::<ClearChat>(r)),
    );
}

#[test]
fn roundtrip_clearchat_clear() {
    roundtrip(
        "@room-id=40286300;tmi-sent-ts=1594561392337 :tmi.twitch.tv CLEARCHAT #randers",
        |r| clear_chat_json(&typed::<ClearChat>(r)),
    );
}

#[test]
fn parse_clearmsg_basic() {
    let m: ClearMsg = parse("@login=alazymeme;room-id=;target-msg-id=3c92014f-340a-4dc3-a9c9-e5cf182f4a84;tmi-sent-ts=1594561955611 :tmi.twitch.tv CLEARMSG #pajlada :lole");
    assert_eq!(m.channel(), "#pajlada");
    assert_eq!(m.channel_id(), "");
    assert_eq!(m.sender(), "alazymeme");
    assert_eq!(m.target_message_id(), "3c92014f-340a-4dc3-a9c9-e5cf182f4a84");
    assert_eq!(m.text(), "lole");
    assert!(!m.is_action());
    assert_eq!(m.timestamp(), 1594561955611);
}

#[test]
fn parse_clearmsg_action() {
    let m: ClearMsg = parse("@login=alazymeme;room-id=;target-msg-id=3c92014f-340a-4dc3-a9c9-e5cf182f4a84;tmi-sent-ts=1594561955611 :tmi.twitch.tv CLEARMSG #pajlada :\u{0001}ACTION lole\u{0001}");
    assert_eq!(m.channel(), "#pajlada");
    assert_eq!(m.sender(), "alazymeme");
    assert_eq!(m.text(), "lole");
    assert!(m.is_action());
    assert_eq!(m.timestamp(), 1594561955611);
}

#[test]
fn roundtrip_clearmsg_basic() {
    roundtrip(
        "@login=alazymeme;room-id=;target-msg-id=3c92014f-340a-4dc3-a9c9-e5cf182f4a84;tmi-sent-ts=1594561955611 :tmi.twitch.tv CLEARMSG #pajlada :lole",
        |r| clear_msg_json(&typed::<ClearMsg>(r)),
    );
}

#[test]
fn roundtrip_clearmsg_action() {
    roundtrip(
        "@login=alazymeme;room-id=;target-msg-id=3c92014f-340a-4dc3-a9c9-e5cf182f4a84;tmi-sent-ts=1594561955611 :tmi.twitch.tv CLEARMSG #pajlada :\u{0001}ACTION lole\u{0001}",
        |r| clear_msg_json(&typed::<ClearMsg>(r)),
    );
}

#[test]
fn parse_privmsg_basic_example() {
    let m: Privmsg = parse("@badge-info=;badges=;color=#0000FF;display-name=JuN1oRRRR;emotes=;flags=;id=e9d998c3-36f1-430f-89ec-6b887c28af36;mod=0;room-id=11148817;subscriber=0;tmi-sent-ts=1594545155039;turbo=0;user-id=29803735;user-type= :jun1orrrr!jun1orrrr@jun1orrrr.tmi.twitch.tv PRIVMSG #pajlada :dank cam");
    assert_eq!(m.channel(), "#pajlada");
    assert_eq!(m.channel_id(), "11148817");
    assert_eq!(m.id(), "e9d998c3-36f1-430f-89ec-6b887c28af36");
    assert_eq!(m.msg_id(), None);
    assert_eq!(user_desc(m.sender()), ("29803735".to_string(), "jun1orrrr".to_string(), "JuN1oRRRR".to_string()));
    assert!(m.reply_to().is_none());
    assert!(m.pinned_chat().is_none());
    assert_eq!(m.text(), "dank cam");
    assert!(!m.is_action());
    assert_eq!(m.num_badges(), 0);
    assert_eq!(m.color(), Some("#0000FF"));
    assert_eq!(m.custom_reward_id(), None);
    assert_eq!(m.bits(), None);
    assert_eq!(m.raw_emotes(), "");
    assert_eq!(m.timestamp(), 1594545155039);
}

#[test]
fn parse_privmsg_action_and_badges() {
    let m: Privmsg = parse("@badge-info=subscriber/22;badges=moderator/1,subscriber/12;color=#19E6E6;display-name=randers;emotes=;flags=;id=d831d848-b7c7-4559-ae3a-2cb88f4dbfed;mod=1;room-id=11148817;subscriber=1;tmi-sent-ts=1594555275886;turbo=0;user-id=40286300;user-type=mod :randers!randers@randers.tmi.twitch.tv PRIVMSG #pajlada :\u{1}ACTION -tags\u{1}");
    assert_eq!(m.text(), "-tags");
    assert!(m.is_action());
    assert_eq!(badges_desc(m.badges()), vec!["moderator", "subscriber:12:22"]);
    assert_eq!(user_desc(m.sender()), ("40286300".to_string(), "randers".to_string(), "randers".to_string()));
    assert_eq!(m.color(), Some("#19E6E6"));
    assert_eq!(m.timestamp(), 1594555275886);
}

#[test]
fn parse_privmsg_reply_parent_included() {
    let m: Privmsg = parse("@badge-info=;badges=;client-nonce=cd56193132f934ac71b4d5ac488d4bd6;color=;display-name=LeftSwing;emotes=;first-msg=0;flags=;id=5b4f63a9-776f-4fce-bf3c-d9707f52e32d;mod=0;reply-parent-display-name=Retoon;reply-parent-msg-body=hello;reply-parent-msg-id=6b13e51b-7ecb-43b5-ba5b-2bb5288df696;reply-parent-user-id=37940952;reply-parent-user-login=retoon;reply-thread-parent-msg-id=6b13e51b-7ecb-43b5-ba5b-2bb5288df696;reply-thread-parent-user-login=retoon;returning-chatter=0;room-id=37940952;subscriber=0;tmi-sent-ts=1673925983585;turbo=0;user-id=133651738;user-type= :leftswing!leftswing@leftswing.tmi.twitch.tv PRIVMSG #retoon :@Retoon yes");
    let reply = m.reply_to().expect("a reply");
    assert_eq!(reply.thread_parent_message_id(), "6b13e51b-7ecb-43b5-ba5b-2bb5288df696");
    assert_eq!(reply.thread_parent_user_login(), "retoon");
    assert_eq!(reply.message_id(), "6b13e51b-7ecb-43b5-ba5b-2bb5288df696");
    assert_eq!(user_desc(&reply.sender()), ("37940952".to_string(), "retoon".to_string(), "Retoon".to_string()));
    assert_eq!(reply.text(), "hello");
    assert_eq!(m.text(), "@Retoon yes");
    assert_eq!(m.color(), None);
    assert_eq!(m.channel(), "#retoon");
}

#[test]
fn parse_privmsg_display_name_with_trailing_space() {
    let m: Privmsg = parse("@rm-received-ts=1594554085918;historical=1;badge-info=;badges=;client-nonce=815810609edecdf4537bd9586994182b;color=;display-name=CarvedTaleare\\s;emotes=;flags=;id=c9b941d9-a0ab-4534-9903-971768fcdf10;mod=0;room-id=22484632;subscriber=0;tmi-sent-ts=1594554085753;turbo=0;user-id=467684514;user-type= :carvedtaleare!carvedtaleare@carvedtaleare.tmi.twitch.tv PRIVMSG #forsen :NaM");
    assert_eq!(m.sender().name(), "CarvedTaleare ");
    assert_eq!(m.sender().login(), "carvedtaleare");
    assert_eq!(m.text(), "NaM");
    assert_eq!(m.channel(), "#forsen");
}

#[test]
fn parse_privmsg_korean_display_name() {
    let m: Privmsg = parse("@badge-info=subscriber/35;badges=moderator/1,subscriber/3024;color=#FF0000;display-name=테스트계정420;emotes=;flags=;id=bdfa278e-11c4-484f-9491-0a61b16fab60;mod=1;room-id=11148817;subscriber=1;tmi-sent-ts=1593953876927;turbo=0;user-id=117166826;user-type=mod :testaccount_420!testaccount_420@testaccount_420.tmi.twitch.tv PRIVMSG #pajlada :@asd");
    assert_eq!(m.sender().name(), "테스트계정420");
    assert_eq!(m.sender().login(), "testaccount_420");
    assert_eq!(badges_desc(m.badges()), vec!["moderator", "subscriber:3024:35"]);
    assert_eq!(m.text(), "@asd");
}

#[test]
fn parse_privmsg_display_name_with_middle_space() {
    let m: Privmsg = parse("@badge-info=;badges=;color=;display-name=Riot\\sGames;emotes=;flags=;id=bdfa278e-11c4-484f-9491-0a61b16fab60;mod=1;room-id=36029255;subscriber=0;tmi-sent-ts=1593953876927;turbo=0;user-id=36029255;user-type= :riotgames!riotgames@riotgames.tmi.twitch.tv PRIVMSG #riotgames :test fake message");
    assert_eq!(m.sender().name(), "Riot Games");
    assert_eq!(m.sender().login(), "riotgames");
    assert_eq!(m.text(), "test fake message");
}

#[test]
fn parse_privmsg_emotes_1() {
    let m: Privmsg = parse("@badge-info=;badges=moderator/1;client-nonce=fc4ebe0889105c8404a9be81cf9a9ad4;color=#FF0000;display-name=boring_nick;emotes=555555591:51-52/25:0-4,12-16,18-22/1902:6-10,29-33,35-39/1:45-46,48-49;first-msg=0;flags=;id=3d9540a0-04b6-4bea-baf9-9165b14160be;mod=1;returning-chatter=0;room-id=55203741;subscriber=0;tmi-sent-ts=1696093084212;turbo=0;user-id=111024753;user-type=mod :boring_nick!boring_nick@boring_nick.tmi.twitch.tv PRIVMSG #moscowwbish :Kappa Keepo Kappa Kappa test Keepo Keepo 123 :) :) :P");
    assert_eq!(m.raw_emotes(), "555555591:51-52/25:0-4,12-16,18-22/1902:6-10,29-33,35-39/1:45-46,48-49");
    assert_eq!(badges_desc(m.badges()), vec!["moderator"]);
    assert_eq!(m.text(), "Kappa Keepo Kappa Kappa test Keepo Keepo 123 :) :) :P");
}

#[test]
fn parse_privmsg_message_with_bits() {
    let m: Privmsg = parse("@badge-info=;badges=bits/100;bits=1;color=#004B49;display-name=TETYYS;emotes=;flags=;id=d7f03a35-f339-41ca-b4d4-7c0721438570;mod=0;room-id=11148817;subscriber=0;tmi-sent-ts=1594571566672;turbo=0;user-id=36175310;user-type= :tetyys!tetyys@tetyys.tmi.twitch.tv PRIVMSG #pajlada :trihard1");
    assert_eq!(m.bits(), Some(1));
    assert_eq!(badges_desc(m.badges()), vec!["other:bits:100:-"]);
    assert_eq!(m.text(), "trihard1");
}

#[test]
fn parse_privmsg_emote_non_numeric_id() {
    let m: Privmsg = parse("@badge-info=;badges=;client-nonce=245b864d508a69a685e25104204bd31b;color=#FF144A;display-name=AvianArtworks;emote-only=1;emotes=300196486_TK:0-7;flags=;id=21194e0d-f0fa-4a8f-a14f-3cbe89366ad9;mod=0;room-id=11148817;subscriber=0;tmi-sent-ts=1594552113129;turbo=0;user-id=39565465;user-type= :avianartworks!avianartworks@avianartworks.tmi.twitch.tv PRIVMSG #pajlada :pajaM_TK");
    assert_eq!(m.raw_emotes(), "300196486_TK:0-7");
    assert_eq!(m.text(), "pajaM_TK");
}

#[test]
fn parse_privmsg_custom_reward_id() {
    let m: Privmsg = parse("@badge-info=subscriber/1;badges=broadcaster/1,subscriber/0;color=#8A2BE2;custom-reward-id=be22f712-8fd9-426a-90df-c13eae6cc6dc;display-name=vesdeg;emotes=;first-msg=0;flags=;id=79828352-d979-4e49-bd5e-15c487d275e2;mod=0;returning-chatter=0;room-id=164774298;subscriber=1;tmi-sent-ts=1709298826724;turbo=0;user-id=164774298;user-type= :vesdeg!vesdeg@vesdeg.tmi.twitch.tv PRIVMSG #vesdeg :#00FF00");
    assert_eq!(m.custom_reward_id(), Some("be22f712-8fd9-426a-90df-c13eae6cc6dc"));
    assert_eq!(badges_desc(m.badges()), vec!["broadcaster", "subscriber:0:1"]);
    assert_eq!(m.text(), "#00FF00");
}

#[test]
fn parse_privmsg_pinned_chat() {
    let m: Privmsg = parse("@badge-info=;badges=glhf-pledge/1;color=;display-name=pajlada;emotes=;first-msg=0;flags=;id=f6fb34f8-562f-4b4d-b628-32113d0ef4b0;mod=0;pinned-chat-paid-amount=200;pinned-chat-paid-canonical-amount=200;pinned-chat-paid-currency=USD;pinned-chat-paid-exponent=2;pinned-chat-paid-is-system-message=0;pinned-chat-paid-level=ONE;returning-chatter=0;room-id=12345678;subscriber=0;tmi-sent-ts=1687471984306;turbo=0;user-id=12345678;user-type= :pajlada!pajlada@pajlada.tmi.twitch.tv PRIVMSG #channel :This is a pinned message");
    let pinned = m.pinned_chat().expect("a pinned chat");
    assert_eq!(pinned.paid_amount(), 200);
    assert_eq!(pinned.paid_currency(), "USD");
    assert_eq!(pinned.paid_exponent(), 2);
    assert_eq!(pinned.paid_level(), PinnedChatLevel::ONE);
    assert!(!pinned.is_system_message());
    assert_eq!(badges_desc(m.badges()), vec!["other:glhf-pledge:1:-"]);
    assert_eq!(m.text(), "This is a pinned message");
}

#[test]
fn roundtrip_privmsg_basic_example() {
    roundtrip(
        "@badge-info=;badges=;color=#0000FF;display-name=JuN1oRRRR;emotes=;flags=;id=e9d998c3-36f1-430f-89ec-6b887c28af36;mod=0;room-id=11148817;subscriber=0;tmi-sent-ts=1594545155039;turbo=0;user-id=29803735;user-type= :jun1orrrr!jun1orrrr@jun1orrrr.tmi.twitch.tv PRIVMSG #pajlada :dank cam",
        |r| privmsg_json(&typed::<Privmsg>(r)),
    );
}

#[test]
fn roundtrip_privmsg_action_and_badges() {
    roundtrip(
        "@badge-info=subscriber/22;badges=moderator/1,subscriber/12;color=#19E6E6;display-name=randers;emotes=;flags=;id=d831d848-b7c7-4559-ae3a-2cb88f4dbfed;mod=1;room-id=11148817;subscriber=1;tmi-sent-ts=1594555275886;turbo=0;user-id=40286300;user-type=mod :randers!randers@randers.tmi.twitch.tv PRIVMSG #pajlada :\u{1}ACTION -tags\u{1}",
        |r| privmsg_json(&typed::<Privmsg>(r)),
    );
}

#[test]
fn roundtrip_privmsg_reply_parent_included() {
    roundtrip(
        "@badge-info=;badges=;client-nonce=cd56193132f934ac71b4d5ac488d4bd6;color=;display-name=LeftSwing;emotes=;first-msg=0;flags=;id=5b4f63a9-776f-4fce-bf3c-d9707f52e32d;mod=0;reply-parent-display-name=Retoon;reply-parent-msg-body=hello;reply-parent-msg-id=6b13e51b-7ecb-43b5-ba5b-2bb5288df696;reply-parent-user-id=37940952;reply-parent-user-login=retoon;reply-thread-parent-msg-id=6b13e51b-7ecb-43b5-ba5b-2bb5288df696;reply-thread-parent-user-login=retoon;returning-chatter=0;room-id=37940952;subscriber=0;tmi-sent-ts=1673925983585;turbo=0;user-id=133651738;user-type= :leftswing!leftswing@leftswing.tmi.twitch.tv PRIVMSG #retoon :@Retoon yes",
        |r| privmsg_json(&typed::<Privmsg>(r)),
    );
}

#[test]
fn roundtrip_privmsg_display_name_with_trailing_space() {
    roundtrip(
        "@rm-received-ts=1594554085918;historical=1;badge-info=;badges=;client-nonce=815810609edecdf4537bd9586994182b;color=;display-name=CarvedTaleare\\s;emotes=;flags=;id=c9b941d9-a0ab-4534-9903-971768fcdf10;mod=0;room-id=22484632;subscriber=0;tmi-sent-ts=1594554085753;turbo=0;user-id=467684514;user-type= :carvedtaleare!carvedtaleare@carvedtaleare.tmi.twitch.tv PRIVMSG #forsen :NaM",
        |r| privmsg_json(&typed::<Privmsg>(r)),
    );
}

#[test]
fn roundtrip_privmsg_korean_display_name() {
    roundtrip(
        "@badge-info=subscriber/35;badges=moderator/1,subscriber/3024;color=#FF0000;display-name=테스트계정420;emotes=;flags=;id=bdfa278e-11c4-484f-9491-0a61b16fab60;mod=1;room-id=11148817;subscriber=1;tmi-sent-ts=1593953876927;turbo=0;user-id=117166826;user-type=mod :testaccount_420!testaccount_420@testaccount_420.tmi.twitch.tv PRIVMSG #pajlada :@asd",
        |r| privmsg_json(&typed::<Privmsg>(r)),
    );
}

#[test]
fn roundtrip_privmsg_display_name_with_middle_space() {
    roundtrip(
        "@badge-info=;badges=;color=;display-name=Riot\\sGames;emotes=;flags=;id=bdfa278e-11c4-484f-9491-0a61b16fab60;mod=1;room-id=36029255;subscriber=0;tmi-sent-ts=1593953876927;turbo=0;user-id=36029255;user-type= :riotgames!riotgames@riotgames.tmi.twitch.tv PRIVMSG #riotgames :test fake message",
        |r| privmsg_json(&typed::<Privmsg>(r)),
    );
}

#[test]
fn roundtrip_privmsg_emotes_1() {
    roundtrip(
        "@badge-info=;badges=moderator/1;client-nonce=fc4ebe0889105c8404a9be81cf9a9ad4;color=#FF0000;display-name=boring_nick;emotes=555555591:51-52/25:0-4,12-16,18-22/1902:6-10,29-33,35-39/1:45-46,48-49;first-msg=0;flags=;id=3d9540a0-04b6-4bea-baf9-9165b14160be;mod=1;returning-chatter=0;room-id=55203741;subscriber=0;tmi-sent-ts=1696093084212;turbo=0;user-id=111024753;user-type=mod :boring_nick!boring_nick@boring_nick.tmi.twitch.tv PRIVMSG #moscowwbish :Kappa Keepo Kappa Kappa test Keepo Keepo 123 :) :) :P",
        |r| privmsg_json(&typed::<Privmsg>(r)),
    );
}

#[test]
fn roundtrip_privmsg_message_with_bits() {
    roundtrip(
        "@badge-info=;badges=bits/100;bits=1;color=#004B49;display-name=TETYYS;emotes=;flags=;id=d7f03a35-f339-41ca-b4d4-7c0721438570;mod=0;room-id=11148817;subscriber=0;tmi-sent-ts=1594571566672;turbo=0;user-id=36175310;user-type= :tetyys!tetyys@tetyys.tmi.twitch.tv PRIVMSG #pajlada :trihard1",
        |r| privmsg_json(&typed::<Privmsg>(r)),
    );
}

#[test]
fn roundtrip_privmsg_emote_non_numeric_id() {
    roundtrip(
        "@badge-info=;badges=;client-nonce=245b864d508a69a685e25104204bd31b;color=#FF144A;display-name=AvianArtworks;emote-only=1;emotes=300196486_TK:0-7;flags=;id=21194e0d-f0fa-4a8f-a14f-3cbe89366ad9;mod=0;room-id=11148817;subscriber=0;tmi-sent-ts=1594552113129;turbo=0;user-id=39565465;user-type= :avianartworks!avianartworks@avianartworks.tmi.twitch.tv PRIVMSG #pajlada :pajaM_TK",
        |r| privmsg_json(&typed::<Privmsg>(r)),
    );
}

#[test]
fn roundtrip_privmsg_pinned_chat() {
    roundtrip(
        "@badge-info=;badges=glhf-pledge/1;color=;display-name=pajlada;emotes=;first-msg=0;flags=;id=f6fb34f8-562f-4b4d-b628-32113d0ef4b0;mod=0;pinned-chat-paid-amount=200;pinned-chat-paid-canonical-amount=200;pinned-chat-paid-currency=USD;pinned-chat-paid-exponent=2;pinned-chat-paid-is-system-message=0;pinned-chat-paid-level=ONE;returning-chatter=0;room-id=12345678;subscriber=0;tmi-sent-ts=1687471984306;turbo=0;user-id=12345678;user-type= :pajlada!pajlada@pajlada.tmi.twitch.tv PRIVMSG #channel :This is a pinned message",
        |r| privmsg_json(&typed::<Privmsg>(r)),
    );
}

#[test]
fn regression_invalid_prefix_span_overread() {
    let _: Privmsg = parse("@badge-info=;badges=moments/1;color=;display-name=kovacicdusko2001;emotes=;first-msg=0;flags=;id=97798b78-b5c7-4a0a-bcd4-e9ec12de926a;mod=0;returning-chatter=0;room-id=71092938;subscriber=0;tmi-sent-ts=1663858872621;turbo=0;user-id=251524724;user-type= :kovacicdusko2001!kovacicdusko2001@kovacicdusko2001.tmi.twitch.tv PRIVMSG #xqc :!play");
}

#[test]
fn parse_user_notice_announcement() {
    let m: UserNotice = parse("@emotes=;login=pajbot;vip=0;tmi-sent-ts=1695554663565;flags=;mod=1;subscriber=1;id=bb1bec25-8f26-4ba3-a084-a6a2ca332f00;badge-info=subscriber/93;system-msg=;user-id=82008718;user-type=mod;room-id=11148817;badges=moderator/1,subscriber/3072;msg-param-color=PRIMARY;msg-id=announcement;color=#2E8B57;display-name=pajbot :tmi.twitch.tv USERNOTICE #pajlada :$ping xd");
    assert_eq!(m.channel().as_str(), "#pajlada");
    assert_eq!(m.channel_id(), "11148817");
    assert_eq!(user_desc(m.sender().expect("a sender")), ("82008718".to_string(), "pajbot".to_string(), "pajbot".to_string()));
    assert_eq!(m.text(), Some("$ping xd"));
    assert_eq!(m.system_message(), None);
    assert_eq!(m.event_id(), "announcement");
    match m.event() {
        Event::Announcement(a) => assert_eq!(a.highlight_color(), "PRIMARY"),
        _ => panic!("expected an announcement"),
    }
    assert_eq!(badges_desc(m.badges()), vec!["moderator", "subscriber:3072:93"]);
    assert_eq!(m.color(), Some("#2E8B57"));
    assert_eq!(m.message_id(), "bb1bec25-8f26-4ba3-a084-a6a2ca332f00");
    assert_eq!(m.timestamp(), 1695554663565);
}

#[test]
fn parse_sub() {
    let m: UserNotice = parse("@badge-info=subscriber/0;badges=subscriber/0,premium/1;color=;display-name=fallenseraphhh;emotes=;flags=;id=2a9bea11-a80a-49a0-a498-1642d457f775;login=fallenseraphhh;mod=0;msg-id=sub;msg-param-cumulative-months=1;msg-param-months=0;msg-param-should-share-streak=0;msg-param-sub-plan-name=Channel\\sSubscription\\s(xqcow);msg-param-sub-plan=Prime;room-id=71092938;subscriber=1;system-msg=fallenseraphhh\\ssubscribed\\swith\\sTwitch\\sPrime.;tmi-sent-ts=1582685713242;user-id=224005980;user-type= :tmi.twitch.tv USERNOTICE #xqcow");
    assert_eq!(user_desc(m.sender().expect("a sender")), ("224005980".to_string(), "fallenseraphhh".to_string(), "fallenseraphhh".to_string()));
    assert_eq!(m.text(), None);
    assert_eq!(m.system_message().as_deref(), Some("fallenseraphhh subscribed with Twitch Prime."));
    match m.event() {
        Event::SubOrResub(e) => {
            assert!(!e.is_resub());
            assert_eq!(e.cumulative_months(), 1);
            assert_eq!(e.streak_months(), None);
            assert_eq!(e.sub_plan(), "Prime");
            assert_eq!(e.sub_plan_name(), "Channel Subscription (xqcow)");
        },
        _ => panic!("expected a sub"),
    }
    assert_eq!(m.channel().as_str(), "#xqcow");
    assert_eq!(m.timestamp(), 1582685713242);
}

#[test]
fn parse_resub() {
    let m: UserNotice = parse("@badge-info=subscriber/2;badges=subscriber/0,battlerite_1/1;color=#0000FF;display-name=Gutrin;emotes=1035663:0-3;flags=;id=e0975c76-054c-4954-8cb0-91b8867ec1ca;login=gutrin;mod=0;msg-id=resub;msg-param-cumulative-months=2;msg-param-months=0;msg-param-should-share-streak=1;msg-param-streak-months=2;msg-param-sub-plan-name=Channel\\sSubscription\\s(xqcow);msg-param-sub-plan=1000;room-id=71092938;subscriber=1;system-msg=Gutrin\\ssubscribed\\sat\\sTier\\s1.\\sThey've\\ssubscribed\\sfor\\s2\\smonths,\\scurrently\\son\\sa\\s2\\smonth\\sstreak!;tmi-sent-ts=1581713640019;user-id=21156217;user-type= :tmi.twitch.tv USERNOTICE #xqcow :xqcL");
    assert_eq!(user_desc(m.sender().expect("a sender")), ("21156217".to_string(), "gutrin".to_string(), "Gutrin".to_string()));
    assert_eq!(m.text(), Some("xqcL"));
    match m.event() {
        Event::SubOrResub(e) => {
            assert!(e.is_resub());
            assert_eq!(e.cumulative_months(), 2);
            assert_eq!(e.streak_months(), Some(2));
            assert_eq!(e.sub_plan(), "1000");
        },
        _ => panic!("expected a resub"),
    }
    assert_eq!(m.raw_emotes(), "1035663:0-3");
}

#[test]
fn parse_resub_no_share_streak() {
    let m: UserNotice = parse("@badge-info=;badges=premium/1;color=#8A2BE2;display-name=rene_rs;emotes=;flags=;id=ca1f02fb-77ec-487d-a9b3-bc4bfef2fe8b;login=rene_rs;mod=0;msg-id=resub;msg-param-cumulative-months=11;msg-param-months=0;msg-param-should-share-streak=0;msg-param-sub-plan-name=Channel\\sSubscription\\s(xqcow);msg-param-sub-plan=Prime;room-id=71092938;subscriber=0;system-msg=rene_rs\\ssubscribed\\swith\\sTwitch\\sPrime.\\sThey've\\ssubscribed\\sfor\\s11\\smonths!;tmi-sent-ts=1590628650446;user-id=171356987;user-type= :tmi.twitch.tv USERNOTICE #xqcow");
    assert_eq!(user_desc(m.sender().expect("a sender")), ("171356987".to_string(), "rene_rs".to_string(), "rene_rs".to_string()));
    match m.event() {
        Event::SubOrResub(e) => {
            assert!(e.is_resub());
            assert_eq!(e.cumulative_months(), 11);
            assert_eq!(e.streak_months(), None);
            assert_eq!(e.sub_plan(), "Prime");
        },
        _ => panic!("expected a resub"),
    }
}

#[test]
fn parse_raid() {
    let m: UserNotice = parse("@badge-info=;badges=sub-gifter/50;color=;display-name=AdamAtReflectStudios;emotes=;flags=;id=e21409b1-d25d-4a1a-b5cf-ef27d8b7030e;login=adamatreflectstudios;mod=0;msg-id=subgift;msg-param-gift-months=1;msg-param-months=2;msg-param-origin-id=da\\s39\\sa3\\see\\s5e\\s6b\\s4b\\s0d\\s32\\s55\\sbf\\sef\\s95\\s60\\s18\\s90\\saf\\sd8\\s07\\s09;msg-param-recipient-display-name=qatarking24xd;msg-param-recipient-id=236653628;msg-param-recipient-user-name=qatarking24xd;msg-param-sender-count=0;msg-param-sub-plan-name=Channel\\sSubscription\\s(xqcow);msg-param-sub-plan=1000;room-id=71092938;subscriber=0;system-msg=AdamAtReflectStudios\\sgifted\\sa\\sTier\\s1\\ssub\\sto\\sqatarking24xd!;tmi-sent-ts=1594583782376;user-id=211711554;user-type= :tmi.twitch.tv USERNOTICE #xqcow");
    assert_eq!(user_desc(m.sender().expect("a sender")), ("211711554".to_string(), "adamatreflectstudios".to_string(), "AdamAtReflectStudios".to_string()));
    assert_eq!(m.event_id(), "subgift");
    match m.event() {
        Event::SubGift(e) => {
            assert_eq!(e.cumulative_months(), 2);
            assert_eq!(user_desc(&e.recipient()), ("236653628".to_string(), "qatarking24xd".to_string(), "qatarking24xd".to_string()));
            assert_eq!(e.sub_plan(), "1000");
            assert_eq!(e.sub_plan_name(), "Channel Subscription (xqcow)");
            assert_eq!(e.num_gifted_months(), 1);
        },
        _ => panic!("expected a sub gift"),
    }
}

#[test]
fn parse_subgift_ananonymousgifter() {
    let m: UserNotice = parse("@badge-info=;badges=;color=;display-name=AnAnonymousGifter;emotes=;flags=;id=62c3fd39-84cc-452a-9096-628a5306633a;login=ananonymousgifter;mod=0;msg-id=subgift;msg-param-fun-string=FunStringThree;msg-param-gift-months=1;msg-param-months=13;msg-param-origin-id=da\\s39\\sa3\\see\\s5e\\s6b\\s4b\\s0d\\s32\\s55\\sbf\\sef\\s95\\s60\\s18\\s90\\saf\\sd8\\s07\\s09;msg-param-recipient-display-name=Dot0422;msg-param-recipient-id=151784015;msg-param-recipient-user-name=dot0422;msg-param-sub-plan-name=Channel\\sSubscription\\s(xqcow);msg-param-sub-plan=1000;room-id=71092938;subscriber=0;system-msg=An\\sanonymous\\suser\\sgifted\\sa\\sTier\\s1\\ssub\\sto\\sDot0422!\\s;tmi-sent-ts=1594495108936;user-id=274598607;user-type= :tmi.twitch.tv USERNOTICE #xqcow");
    assert!(m.sender().is_none());
    match m.event() {
        Event::SubGift(e) => {
            assert_eq!(e.cumulative_months(), 13);
            assert_eq!(user_desc(&e.recipient()), ("151784015".to_string(), "dot0422".to_string(), "Dot0422".to_string()));
            assert_eq!(e.num_gifted_months(), 1);
        },
        _ => panic!("expected a sub gift"),
    }
    assert_eq!(m.system_message().as_deref(), Some("An anonymous user gifted a Tier 1 sub to Dot0422! "));
}

#[test]
fn parse_anonsubgift() {
    let m: UserNotice = parse("@badge-info=;badges=;color=;display-name=xQcOW;emotes=;flags=;id=e21409b1-d25d-4a1a-b5cf-ef27d8b7030e;login=xqcow;mod=0;msg-id=anonsubgift;msg-param-gift-months=1;msg-param-months=2;msg-param-origin-id=da\\s39\\sa3\\see\\s5e\\s6b\\s4b\\s0d\\s32\\s55\\sbf\\sef\\s95\\s60\\s18\\s90\\saf\\sd8\\s07\\s09;msg-param-recipient-display-name=qatarking24xd;msg-param-recipient-id=236653628;msg-param-recipient-user-name=qatarking24xd;msg-param-sender-count=0;msg-param-sub-plan-name=Channel\\sSubscription\\s(xqcow);msg-param-sub-plan=1000;room-id=71092938;subscriber=0;system-msg=An\\sanonymous\\sgifter\\sgifted\\sa\\sTier\\s1\\ssub\\sto\\sqatarking24xd!;tmi-sent-ts=1594583782376;user-id=71092938;user-type= :tmi.twitch.tv USERNOTICE #xqcow");
    assert!(m.sender().is_none());
    match m.event() {
        Event::SubGift(e) => {
            assert_eq!(e.cumulative_months(), 2);
            assert_eq!(e.recipient().login(), "qatarking24xd");
        },
        _ => panic!("expected a sub gift"),
    }
}

#[test]
fn parse_submysterygift() {
    let m: UserNotice = parse("@badge-info=;badges=sub-gifter/50;color=;display-name=AdamAtReflectStudios;emotes=;flags=;id=049e6371-7023-4fca-8605-7dec60e72e12;login=adamatreflectstudios;mod=0;msg-id=submysterygift;msg-param-mass-gift-count=20;msg-param-origin-id=1f\\sbe\\sbb\\s4a\\s81\\s9a\\s65\\sd1\\s4b\\s77\\sf5\\s23\\s16\\s4a\\sd3\\s13\\s09\\se7\\sbe\\s55;msg-param-sender-count=100;msg-param-sub-plan=1000;room-id=71092938;subscriber=0;system-msg=AdamAtReflectStudios\\sis\\sgifting\\s20\\sTier\\s1\\sSubs\\sto\\sxQcOW's\\scommunity!\\sThey've\\sgifted\\sa\\stotal\\sof\\s100\\sin\\sthe\\schannel!;tmi-sent-ts=1594583777669;user-id=211711554;user-type= :tmi.twitch.tv USERNOTICE #xqcow");
    assert_eq!(user_desc(m.sender().expect("a sender")), ("211711554".to_string(), "adamatreflectstudios".to_string(), "AdamAtReflectStudios".to_string()));
    match m.event() {
        Event::SubMysteryGift(e) => {
            assert_eq!(e.count(), 20);
            assert_eq!(e.sender_total_gifts(), 100);
            assert_eq!(e.sub_plan(), "1000");
        },
        _ => panic!("expected a mystery gift"),
    }
}

#[test]
fn parse_submysterygift_ananonymousgifter() {
    let m: UserNotice = parse("@badge-info=;badges=;color=;display-name=AnAnonymousGifter;emotes=;flags=;id=8db97752-3dee-460b-9001-e925d0e2ba5b;login=ananonymousgifter;mod=0;msg-id=submysterygift;msg-param-mass-gift-count=10;msg-param-origin-id=13\\s33\\sed\\sc0\\sef\\sa0\\s7b\\s9b\\s48\\s59\\scb\\scc\\se4\\s39\\s7b\\s90\\sf9\\s54\\s75\\s66;msg-param-sub-plan=1000;room-id=71092938;subscriber=0;system-msg=An\\sanonymous\\suser\\sis\\sgifting\\s10\\sTier\\s1\\sSubs\\sto\\sxQcOW's\\scommunity!;tmi-sent-ts=1585447099603;user-id=274598607;user-type= :tmi.twitch.tv USERNOTICE #xqcow");
    assert!(m.sender().is_none());
    match m.event() {
        Event::AnonSubMysteryGift(e) => {
            assert_eq!(e.count(), 10);
            assert_eq!(e.sub_plan(), "1000");
        },
        _ => panic!("expected an anonymous mystery gift"),
    }
}

#[test]
fn parse_anonsubmysterygift() {
    let m: UserNotice = parse("@badge-info=subscriber/2;badges=subscriber/2;color=#00FFF5;display-name=CrazyCrackAnimal;emotes=;flags=;id=7006f242-a45c-4e07-83b3-11f9c6d1ee28;login=crazycrackanimal;mod=0;msg-id=giftpaidupgrade;msg-param-sender-login=stridezgum;msg-param-sender-name=Stridezgum;room-id=71092938;subscriber=1;system-msg=CrazyCrackAnimal\\sis\\scontinuing\\sthe\\sGift\\sSub\\sthey\\sgot\\sfrom\\sStridezgum!;tmi-sent-ts=1594518849459;user-id=86082877;user-type= :tmi.twitch.tv USERNOTICE #xqcow");
    assert_eq!(user_desc(m.sender().expect("a sender")), ("86082877".to_string(), "crazycrackanimal".to_string(), "CrazyCrackAnimal".to_string()));
    match m.event() {
        Event::GiftPaidUpgrade(e) => {
            assert_eq!(e.gifter_login(), "stridezgum");
            assert_eq!(e.gifter_name(), "Stridezgum");
            assert!(e.promotion().is_none());
        },
        _ => panic!("expected a gift upgrade"),
    }
}

#[test]
fn parse_giftpaidupgrade_with_promo() {
    let m: UserNotice = parse("@badge-info=subscriber/1;badges=subscriber/0,premium/1;color=#8A2BE2;display-name=samura1jack_ttv;emotes=;flags=;id=144ee636-0c1d-404e-8b29-35449a045a7e;login=samura1jack_ttv;mod=0;msg-id=anongiftpaidupgrade;room-id=71092938;subscriber=1;system-msg=samura1jack_ttv\\sis\\scontinuing\\sthe\\sGift\\sSub\\sthey\\sgot\\sfrom\\san\\sanonymous\\suser!;tmi-sent-ts=1594327421732;user-id=102707709;user-type= :tmi.twitch.tv USERNOTICE #xqcow");
    assert!(m.sender().is_none());
    match m.event() {
        Event::AnonGiftPaidUpgrade(e) => assert!(e.promotion().is_none()),
        _ => panic!("expected an anonymous gift upgrade"),
    }
}

#[test]
fn parse_anongiftpaidupgrade_with_promo() {
    let m: UserNotice = parse("@badge-info=subscriber/1;badges=subscriber/0,premium/1;color=#8A2BE2;display-name=samura1jack_ttv;emotes=;flags=;id=144ee636-0c1d-404e-8b29-35449a045a7e;msg-param-promo-name=TestSubtember2020;msg-param-promo-gift-total=4003;login=samura1jack_ttv;mod=0;msg-id=anongiftpaidupgrade;room-id=71092938;subscriber=1;system-msg=samura1jack_ttv\\sis\\scontinuing\\sthe\\sGift\\sSub\\sthey\\sgot\\sfrom\\san\\sanonymous\\suser!\\sbla\\sbla\\sbla\\sstuff\\sabout\\spromo\\shere;tmi-sent-ts=1594327421732;user-id=102707709;user-type= :tmi.twitch.tv USERNOTICE #xqcow");
    assert!(m.sender().is_none());
    match m.event() {
        Event::AnonGiftPaidUpgrade(e) => {
            let promo = e.promotion().expect("a promotion");
            assert_eq!(promo.total_gifts(), 4003);
            assert_eq!(promo.promo_name(), "TestSubtember2020");
        },
        _ => panic!("expected an anonymous gift upgrade"),
    }
}

#[test]
fn parse_ritual() {
    let m: UserNotice = parse("@badge-info=;badges=;color=;display-name=SevenTest1;emotes=30259:0-6;id=37feed0f-b9c7-4c3a-b475-21c6c6d21c3d;login=seventest1;mod=0;msg-id=ritual;msg-param-ritual-name=new_chatter;room-id=6316121;subscriber=0;system-msg=Seventoes\\sis\\snew\\shere!;tmi-sent-ts=1508363903826;turbo=0;user-id=131260580;user-type= :tmi.twitch.tv USERNOTICE #seventoes :HeyGuys");
    assert_eq!(user_desc(m.sender().expect("a sender")), ("131260580".to_string(), "seventest1".to_string(), "SevenTest1".to_string()));
    assert_eq!(m.text(), Some("HeyGuys"));
    match m.event() {
        Event::Ritual(e) => assert_eq!(e.name(), "new_chatter"),
        _ => panic!("expected a ritual"),
    }
}

#[test]
fn parse_bitsbadgetier() {
    let m: UserNotice = parse("@badge-info=;badges=sub-gifter/50;color=;display-name=AdamAtReflectStudios;emotes=;flags=;id=7f1336e4-f84a-4510-809d-e57bf50af0cc;login=adamatreflectstudios;mod=0;msg-id=rewardgift;msg-param-domain=pride_megacommerce_2020;msg-param-selected-count=100;msg-param-total-reward-count=100;msg-param-trigger-amount=20;msg-param-trigger-type=SUBGIFT;room-id=71092938;subscriber=0;system-msg=AdamAtReflectStudios's\\sGift\\sshared\\srewards\\sto\\s100\\sothers\\sin\\sChat!;tmi-sent-ts=1594583778756;user-id=211711554;user-type= :tmi.twitch.tv USERNOTICE #xqcow");
    assert!(m.sender().is_none());
    assert_eq!(m.event_id(), "rewardgift");
    assert!(matches!(m.event(), Event::__non_exhaustive));
}

#[test]
fn roundtrip_user_notice_announcement() {
    roundtrip(
        "@emotes=;login=pajbot;vip=0;tmi-sent-ts=1695554663565;flags=;mod=1;subscriber=1;id=bb1bec25-8f26-4ba3-a084-a6a2ca332f00;badge-info=subscriber/93;system-msg=;user-id=82008718;user-type=mod;room-id=11148817;badges=moderator/1,subscriber/3072;msg-param-color=PRIMARY;msg-id=announcement;color=#2E8B57;display-name=pajbot :tmi.twitch.tv USERNOTICE #pajlada :$ping xd",
        |r| user_notice_json(&typed::<UserNotice>(r)),
    );
}

#[test]
fn roundtrip_sub() {
    roundtrip(
        "@badge-info=subscriber/0;badges=subscriber/0,premium/1;color=;display-name=fallenseraphhh;emotes=;flags=;id=2a9bea11-a80a-49a0-a498-1642d457f775;login=fallenseraphhh;mod=0;msg-id=sub;msg-param-cumulative-months=1;msg-param-months=0;msg-param-should-share-streak=0;msg-param-sub-plan-name=Channel\\sSubscription\\s(xqcow);msg-param-sub-plan=Prime;room-id=71092938;subscriber=1;system-msg=fallenseraphhh\\ssubscribed\\swith\\sTwitch\\sPrime.;tmi-sent-ts=1582685713242;user-id=224005980;user-type= :tmi.twitch.tv USERNOTICE #xqcow",
        |r| user_notice_json(&typed::<UserNotice>(r)),
    );
}

#[test]
fn roundtrip_resub() {
    roundtrip(
        "@badge-info=subscriber/2;badges=subscriber/0,battlerite_1/1;color=#0000FF;display-name=Gutrin;emotes=1035663:0-3;flags=;id=e0975c76-054c-4954-8cb0-91b8867ec1ca;login=gutrin;mod=0;msg-id=resub;msg-param-cumulative-months=2;msg-param-months=0;msg-param-should-share-streak=1;msg-param-streak-months=2;msg-param-sub-plan-name=Channel\\sSubscription\\s(xqcow);msg-param-sub-plan=1000;room-id=71092938;subscriber=1;system-msg=Gutrin\\ssubscribed\\sat\\sTier\\s1.\\sThey've\\ssubscribed\\sfor\\s2\\smonths,\\scurrently\\son\\sa\\s2\\smonth\\sstreak!;tmi-sent-ts=1581713640019;user-id=21156217;user-type= :tmi.twitch.tv USERNOTICE #xqcow :xqcL",
        |r| user_notice_json(&typed::<UserNotice>(r)),
    );
}

#[test]
fn roundtrip_resub_no_share_streak() {
    roundtrip(
        "@badge-info=;badges=premium/1;color=#8A2BE2;display-name=rene_rs;emotes=;flags=;id=ca1f02fb-77ec-487d-a9b3-bc4bfef2fe8b;login=rene_rs;mod=0;msg-id=resub;msg-param-cumulative-months=11;msg-param-months=0;msg-param-should-share-streak=0;msg-param-sub-plan-name=Channel\\sSubscription\\s(xqcow);msg-param-sub-plan=Prime;room-id=71092938;subscriber=0;system-msg=rene_rs\\ssubscribed\\swith\\sTwitch\\sPrime.\\sThey've\\ssubscribed\\sfor\\s11\\smonths!;tmi-sent-ts=1590628650446;user-id=171356987;user-type= :tmi.twitch.tv USERNOTICE #xqcow",
        |r| user_notice_json(&typed::<UserNotice>(r)),
    );
}

#[test]
fn roundtrip_raid() {
    roundtrip(
        "@badge-info=;badges=sub-gifter/50;color=;display-name=AdamAtReflectStudios;emotes=;flags=;id=e21409b1-d25d-4a1a-b5cf-ef27d8b7030e;login=adamatreflectstudios;mod=0;msg-id=subgift;msg-param-gift-months=1;msg-param-months=2;msg-param-origin-id=da\\s39\\sa3\\see\\s5e\\s6b\\s4b\\s0d\\s32\\s55\\sbf\\sef\\s95\\s60\\s18\\s90\\saf\\sd8\\s07\\s09;msg-param-recipient-display-name=qatarking24xd;msg-param-recipient-id=236653628;msg-param-recipient-user-name=qatarking24xd;msg-param-sender-count=0;msg-param-sub-plan-name=Channel\\sSubscription\\s(xqcow);msg-param-sub-plan=1000;room-id=71092938;subscriber=0;system-msg=AdamAtReflectStudios\\sgifted\\sa\\sTier\\s1\\ssub\\sto\\sqatarking24xd!;tmi-sent-ts=1594583782376;user-id=211711554;user-type= :tmi.twitch.tv USERNOTICE #xqcow",
        |r| user_notice_json(&typed::<UserNotice>(r)),
    );
}

#[test]
fn roundtrip_subgift_ananonymousgifter() {
    roundtrip(
        "@badge-info=;badges=;color=;display-name=AnAnonymousGifter;emotes=;flags=;id=62c3fd39-84cc-452a-9096-628a5306633a;login=ananonymousgifter;mod=0;msg-id=subgift;msg-param-fun-string=FunStringThree;msg-param-gift-months=1;msg-param-months=13;msg-param-origin-id=da\\s39\\sa3\\see\\s5e\\s6b\\s4b\\s0d\\s32\\s55\\sbf\\sef\\s95\\s60\\s18\\s90\\saf\\sd8\\s07\\s09;msg-param-recipient-display-name=Dot0422;msg-param-recipient-id=151784015;msg-param-recipient-user-name=dot0422;msg-param-sub-plan-name=Channel\\sSubscription\\s(xqcow);msg-param-sub-plan=1000;room-id=71092938;subscriber=0;system-msg=An\\sanonymous\\suser\\sgifted\\sa\\sTier\\s1\\ssub\\sto\\sDot0422!\\s;tmi-sent-ts=1594495108936;user-id=274598607;user-type= :tmi.twitch.tv USERNOTICE #xqcow",
        |r| user_notice_json(&typed::<UserNotice>(r)),
    );
}

#[test]
fn roundtrip_anonsubgift() {
    roundtrip(
        "@badge-info=;badges=;color=;display-name=xQcOW;emotes=;flags=;id=e21409b1-d25d-4a1a-b5cf-ef27d8b7030e;login=xqcow;mod=0;msg-id=anonsubgift;msg-param-gift-months=1;msg-param-months=2;msg-param-origin-id=da\\s39\\sa3\\see\\s5e\\s6b\\s4b\\s0d\\s32\\s55\\sbf\\sef\\s95\\s60\\s18\\s90\\saf\\sd8\\s07\\s09;msg-param-recipient-display-name=qatarking24xd;msg-param-recipient-id=236653628;msg-param-recipient-user-name=qatarking24xd;msg-param-sender-count=0;msg-param-sub-plan-name=Channel\\sSubscription\\s(xqcow);msg-param-sub-plan=1000;room-id=71092938;subscriber=0;system-msg=An\\sanonymous\\sgifter\\sgifted\\sa\\sTier\\s1\\ssub\\sto\\sqatarking24xd!;tmi-sent-ts=1594583782376;user-id=71092938;user-type= :tmi.twitch.tv USERNOTICE #xqcow",
        |r| user_notice_json(&typed::<UserNotice>(r)),
    );
}

#[test]
fn roundtrip_submysterygift() {
    roundtrip(
        "@badge-info=;badges=sub-gifter/50;color=;display-name=AdamAtReflectStudios;emotes=;flags=;id=049e6371-7023-4fca-8605-7dec60e72e12;login=adamatreflectstudios;mod=0;msg-id=submysterygift;msg-param-mass-gift-count=20;msg-param-origin-id=1f\\sbe\\sbb\\s4a\\s81\\s9a\\s65\\sd1\\s4b\\s77\\sf5\\s23\\s16\\s4a\\sd3\\s13\\s09\\se7\\sbe\\s55;msg-param-sender-count=100;msg-param-sub-plan=1000;room-id=71092938;subscriber=0;system-msg=AdamAtReflectStudios\\sis\\sgifting\\s20\\sTier\\s1\\sSubs\\sto\\sxQcOW's\\scommunity!\\sThey've\\sgifted\\sa\\stotal\\sof\\s100\\sin\\sthe\\schannel!;tmi-sent-ts=1594583777669;user-id=211711554;user-type= :tmi.twitch.tv USERNOTICE #xqcow",
        |r| user_notice_json(&typed::<UserNotice>(r)),
    );
}

#[test]
fn roundtrip_submysterygift_ananonymousgifter() {
    roundtrip(
        "@badge-info=;badges=;color=;display-name=AnAnonymousGifter;emotes=;flags=;id=8db97752-3dee-460b-9001-e925d0e2ba5b;login=ananonymousgifter;mod=0;msg-id=submysterygift;msg-param-mass-gift-count=10;msg-param-origin-id=13\\s33\\sed\\sc0\\sef\\sa0\\s7b\\s9b\\s48\\s59\\scb\\scc\\se4\\s39\\s7b\\s90\\sf9\\s54\\s75\\s66;msg-param-sub-plan=1000;room-id=71092938;subscriber=0;system-msg=An\\sanonymous\\suser\\sis\\sgifting\\s10\\sTier\\s1\\sSubs\\sto\\sxQcOW's\\scommunity!;tmi-sent-ts=1585447099603;user-id=274598607;user-type= :tmi.twitch.tv USERNOTICE #xqcow",
        |r| user_notice_json(&typed::<UserNotice>(r)),
    );
}

#[test]
fn roundtrip_anonsubmysterygift() {
    roundtrip(
        "@badge-info=subscriber/2;badges=subscriber/2;color=#00FFF5;display-name=CrazyCrackAnimal;emotes=;flags=;id=7006f242-a45c-4e07-83b3-11f9c6d1ee28;login=crazycrackanimal;mod=0;msg-id=giftpaidupgrade;msg-param-sender-login=stridezgum;msg-param-sender-name=Stridezgum;room-id=71092938;subscriber=1;system-msg=CrazyCrackAnimal\\sis\\scontinuing\\sthe\\sGift\\sSub\\sthey\\sgot\\sfrom\\sStridezgum!;tmi-sent-ts=1594518849459;user-id=86082877;user-type= :tmi.twitch.tv USERNOTICE #xqcow",
        |r| user_notice_json(&typed::<UserNotice>(r)),
    );
}

#[test]
fn roundtrip_giftpaidupgrade_with_promo() {
    roundtrip(
        "@badge-info=subscriber/1;badges=subscriber/0,premium/1;color=#8A2BE2;display-name=samura1jack_ttv;emotes=;flags=;id=144ee636-0c1d-404e-8b29-35449a045a7e;login=samura1jack_ttv;mod=0;msg-id=anongiftpaidupgrade;room-id=71092938;subscriber=1;system-msg=samura1jack_ttv\\sis\\scontinuing\\sthe\\sGift\\sSub\\sthey\\sgot\\sfrom\\san\\sanonymous\\suser!;tmi-sent-ts=1594327421732;user-id=102707709;user-type= :tmi.twitch.tv USERNOTICE #xqcow",
        |r| user_notice_json(&typed::<UserNotice>(r)),
    );
}

#[test]
fn roundtrip_anongiftpaidupgrade_with_promo() {
    roundtrip(
        "@badge-info=subscriber/1;badges=subscriber/0,premium/1;color=#8A2BE2;display-name=samura1jack_ttv;emotes=;flags=;id=144ee636-0c1d-404e-8b29-35449a045a7e;msg-param-promo-name=TestSubtember2020;msg-param-promo-gift-total=4003;login=samura1jack_ttv;mod=0;msg-id=anongiftpaidupgrade;room-id=71092938;subscriber=1;system-msg=samura1jack_ttv\\sis\\scontinuing\\sthe\\sGift\\sSub\\sthey\\sgot\\sfrom\\san\\sanonymous\\suser!\\sbla\\sbla\\sbla\\sstuff\\sabout\\spromo\\shere;tmi-sent-ts=1594327421732;user-id=102707709;user-type= :tmi.twitch.tv USERNOTICE #xqcow",
        |r| user_notice_json(&typed::<UserNotice>(r)),
    );
}

#[test]
fn roundtrip_ritual() {
    roundtrip(
        "@badge-info=;badges=;color=;display-name=SevenTest1;emotes=30259:0-6;id=37feed0f-b9c7-4c3a-b475-21c6c6d21c3d;login=seventest1;mod=0;msg-id=ritual;msg-param-ritual-name=new_chatter;room-id=6316121;subscriber=0;system-msg=Seventoes\\sis\\snew\\shere!;tmi-sent-ts=1508363903826;turbo=0;user-id=131260580;user-type= :tmi.twitch.tv USERNOTICE #seventoes :HeyGuys",
        |r| user_notice_json(&typed::<UserNotice>(r)),
    );
}

#[test]
fn roundtrip_bitsbadgetier() {
    roundtrip(
        "@badge-info=;badges=sub-gifter/50;color=;display-name=AdamAtReflectStudios;emotes=;flags=;id=7f1336e4-f84a-4510-809d-e57bf50af0cc;login=adamatreflectstudios;mod=0;msg-id=rewardgift;msg-param-domain=pride_megacommerce_2020;msg-param-selected-count=100;msg-param-total-reward-count=100;msg-param-trigger-amount=20;msg-param-trigger-type=SUBGIFT;room-id=71092938;subscriber=0;system-msg=AdamAtReflectStudios's\\sGift\\sshared\\srewards\\sto\\s100\\sothers\\sin\\sChat!;tmi-sent-ts=1594583778756;user-id=211711554;user-type= :tmi.twitch.tv USERNOTICE #xqcow",
        |r| user_notice_json(&typed::<UserNotice>(r)),
    );
}


#[test]
fn clear_chat_signed_ban_duration() {
    let m: ClearChat = parse("@ban-duration=-5;room-id=1;target-user-id=2;tmi-sent-ts=1594553828245 :tmi.twitch.tv CLEARCHAT #pajlada :fabzeef");
    match m.action() {
        Action::TimeOut(t) => assert_eq!(t.duration(), -5),
        _ => panic!("expected a time-out"),
    }
    let m: ClearChat = parse("@ban-duration=99999999999999999999;room-id=1;target-user-id=2;tmi-sent-ts=1594553828245 :tmi.twitch.tv CLEARCHAT #pajlada :fabzeef");
    assert!(matches!(m.action(), Action::Ban(_)));
}

#[test]
fn messages_that_fit() {
    let fits = |src: &str| tmi::Message::fits(&IrcMessageRef::parse(src).unwrap());
    assert!(fits("@ban-duration=9223372036854775;room-id=1;target-user-id=2;tmi-sent-ts=1 :tmi.twitch.tv CLEARCHAT #a :b"));
    assert!(!fits("@ban-duration=9223372036854776;room-id=1;target-user-id=2;tmi-sent-ts=1 :tmi.twitch.tv CLEARCHAT #a :b"));
    assert!(!fits("@ban-duration=-9223372036854776;room-id=1;tmi-sent-ts=1 :tmi.twitch.tv CLEARCHAT #a"));
    // without a room-id the duration is never read
    assert!(fits("@ban-duration=9223372036854776;target-user-id=2;tmi-sent-ts=1 :tmi.twitch.tv CLEARCHAT #a :b"));
    assert!(!fits("@slow=9223372036854776 :tmi.twitch.tv ROOMSTATE #a"));
    assert!(fits("@ban-duration=9223372036854776 :tmi.twitch.tv PRIVMSG #a :b"));
}

#[test]
fn message_types_clone() {
    let m: Join = parse(":randers811!randers811@randers811.tmi.twitch.tv JOIN #pajlada");
    assert_eq!(m.clone(), m);
    let m: Notice = parse("@msg-id=msg_banned :tmi.twitch.tv NOTICE #forsen :You are permanently banned from talking in forsen.");
    assert_eq!(m.clone(), m);
    let m: UserNotice = parse("@badge-info=;badges=;color=;display-name=SevenTest1;emotes=30259:0-6;id=37feed0f-b9c7-4c3a-b475-21c6c6d21c3d;login=seventest1;mod=0;msg-id=ritual;msg-param-ritual-name=new_chatter;room-id=6316121;subscriber=0;system-msg=Seventoes\\sis\\snew\\shere!;tmi-sent-ts=1508363903826;turbo=0;user-id=131260580;user-type= :tmi.twitch.tv USERNOTICE #seventoes :HeyGuys");
    assert_eq!(m.clone(), m);
    let m: ClearChat = parse("@ban-duration=1;room-id=11148817;target-user-id=148973258;tmi-sent-ts=1594553828245 :tmi.twitch.tv CLEARCHAT #pajlada :fabzeef");
    let c = m.clone();
    assert_eq!(clear_chat_json(&c), clear_chat_json(&m));
}
