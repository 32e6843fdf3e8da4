//! What a client writes and decides, and the other helpers of the library.
use tmi::bot::{Bot, ChannelStates, Command};
use tmi::client::read::{IoFailure, ReadFailure};
use tmi::chat::{num_digits, split_args};
use tmi::client::ratelimit::Bucket;
use tmi::client::write::{
    join_all_line, join_line, part_line, ping_line, pong_line, privmsg_line, InvalidMessage, RawMessage,
    SameMessageBypass,
};
use tmi::client::{
    check_capability_reply, check_welcome, handshake_request, push_decimal, Backoff, ClientBuilder, Config, ConnectFailure,
    Credentials, HandshakeError, Reconnect, DEFAULT_TIMEOUT,
};
use tmi::common::{Join, JoinIter};
use tmi::msg::room_state::{FollowersOnly, RoomState};
use tmi::msg::time::parse_timestamp;
use tmi::msg::{parse_badges, Badge, BadgeData, FromIrc, Message, PinnedChatLevel};
use tmi::IrcMessageRef;

fn is_anon_login(login: &str) -> bool {
    match login.strip_prefix("justinfan") {
        Some(rest) => match rest.parse::<u32>() {
            Ok(n) => rest.len() == 5 && (10000..99999).contains(&n),
            Err(_) => false,
        },
        None => false,
    }
}

#[test]
fn credentials() {
    let c = Credentials::new("user", "oauth:token");
    assert_eq!(c.login(), "user");
    assert_eq!(c.token(), Some("oauth:token"));
    assert!(!c.is_anon());
    for _ in 0..20 {
        let a = Credentials::anon();
        assert!(a.is_anon());
        assert_eq!(a.token(), None);
        assert!(is_anon_login(a.login()), "{}", a.login());
    }
    let d = Credentials::default();
    assert!(d.is_anon());
}

#[test]
fn defaults() {
    let b = Backoff::default();
    assert_eq!(b.max_tries, Some(8));
    assert_eq!(b.initial_delay, 1000);
    assert_eq!(b.delay_multiplier, 3);
    assert_eq!(b.max_delay, 12000);
    let c = Config::default();
    assert_eq!(c.timeout, DEFAULT_TIMEOUT);
    assert_eq!(c.timeout, 30000);
    assert!(c.credentials.is_anon());
}

#[test]
fn client_builder() {
    let backoff = Backoff { max_tries: None, initial_delay: 5, delay_multiplier: 2, max_delay: 100 };
    let config = ClientBuilder::new()
        .credentials(Credentials::new("bot", "tok"))
        .timeout(1234)
        .backoff(backoff)
        .build();
    assert_eq!(config.credentials.login(), "bot");
    assert_eq!(config.timeout, 1234);
    assert_eq!(config.backoff, backoff);
}

#[test]
fn reconnect_schedule() {
    let backoff = Backoff::default();
    let mut r = Reconnect::start(&backoff);
    let mut delays = Vec::new();
    while let Some(d) = r.next_attempt(&backoff) {
        delays.push(d);
    }
    assert_eq!(delays, vec![1000, 3000, 9000, 12000, 12000, 12000, 12000, 12000]);
    assert_eq!(r.tries, Some(0));
    assert_eq!(r.next_attempt(&backoff), None);
}

#[test]
fn reconnect_without_limit_and_overflow() {
    let backoff = Backoff { max_tries: None, initial_delay: u64::MAX / 2, delay_multiplier: 4, max_delay: u64::MAX - 1 };
    let mut r = Reconnect::start(&backoff);
    assert_eq!(r.next_attempt(&backoff), Some(u64::MAX / 2));
    assert_eq!(r.next_attempt(&backoff), Some(u64::MAX - 1));
    assert_eq!(r.tries, None);
}

#[test]
fn handshake_lines() {
    let c = Credentials::new("bot", "secret");
    assert_eq!(
        handshake_request(&c),
        "CAP REQ :twitch.tv/commands twitch.tv/tags twitch.tv/membership\r\nPASS oauth:secret\r\nNICK bot\r\n"
    );
    let c = Credentials::new("bot", "oauth:secret");
    assert_eq!(
        handshake_request(&c),
        "CAP REQ :twitch.tv/commands twitch.tv/tags twitch.tv/membership\r\nPASS oauth:secret\r\nNICK bot\r\n"
    );
    let c = Credentials { login: "justinfan12345".to_string(), token: None };
    assert_eq!(
        handshake_request(&c),
        "CAP REQ :twitch.tv/commands twitch.tv/tags twitch.tv/membership\r\nPASS oauth:just_a_lil_guy\r\nNICK justinfan12345\r\n"
    );
}

#[test]
fn handshake_replies() {
    let ack = IrcMessageRef::parse(":tmi.twitch.tv CAP * ACK :twitch.tv/commands twitch.tv/tags twitch.tv/membership").unwrap();
    assert_eq!(check_capability_reply(&ack), Ok(()));
    let nak = IrcMessageRef::parse(":tmi.twitch.tv CAP * NAK :twitch.tv/commands").unwrap();
    assert_eq!(check_capability_reply(&nak), Err(HandshakeError::Auth));
    let other = IrcMessageRef::parse(":tmi.twitch.tv PING").unwrap();
    assert_eq!(check_capability_reply(&other), Err(HandshakeError::Welcome));

    let welcome = IrcMessageRef::parse(":tmi.twitch.tv 001 justinfan12345 :Welcome, GLHF!").unwrap();
    assert_eq!(check_welcome(&welcome), Ok(()));
    let failed = IrcMessageRef::parse(":tmi.twitch.tv NOTICE * :Login authentication failed").unwrap();
    assert_eq!(check_welcome(&failed), Err(HandshakeError::Auth));
    let notice = IrcMessageRef::parse(":tmi.twitch.tv NOTICE * :Improperly formatted auth").unwrap();
    assert_eq!(check_welcome(&notice), Err(HandshakeError::Notice));
    assert_eq!(check_welcome(&other), Err(HandshakeError::Welcome));
}

#[test]
fn written_lines() {
    assert_eq!(ping_line("123"), "PING :123\r\n");
    assert_eq!(pong_line(Some("abc")), "PONG :abc\r\n");
    assert_eq!(pong_line(None), "PONG\r\n");
    assert_eq!(join_line("pajlada"), "JOIN #pajlada\r\n");
    assert_eq!(join_line("#pajlada"), "JOIN #pajlada\r\n");
    assert_eq!(part_line("forsen"), "PART #forsen\r\n");
    assert_eq!(join_all_line(&["a", "#b", "c"]), "JOIN #a,#b,#c\r\n");
    assert_eq!(join_all_line(&[]), "JOIN \r\n");
    assert_eq!(privmsg_line("#chan", "hi", None, None), "PRIVMSG #chan :hi\r\n");
    assert_eq!(
        privmsg_line("#chan", "hi", Some("123"), None),
        "@reply-parent-msg-id=123 PRIVMSG #chan :hi\r\n"
    );
    assert_eq!(privmsg_line("#chan", "hi", None, Some("n")), "@client-nonce=n PRIVMSG #chan :hi\r\n");
    assert_eq!(
        privmsg_line("#chan", "hi", Some("123"), Some("n")),
        "@reply-parent-msg-id=123;client-nonce=n PRIVMSG #chan :hi\r\n"
    );
}

#[test]
fn same_message_bypass_alternates() {
    let mut smb = SameMessageBypass::default();
    assert_eq!(smb.get(), "");
    assert_eq!(smb.get(), " \u{2800}");
    assert_eq!(smb.get(), "");
}

#[test]
fn raw_message() {
    let m = RawMessage::try_from("PING :x\r\n").unwrap();
    assert_eq!(m.data(), "PING :x\r\n");
    assert!(matches!(RawMessage::try_from("PING :x"), Err(InvalidMessage)));
    assert!(matches!(RawMessage::try_from("\n"), Err(InvalidMessage)));
    assert_eq!(InvalidMessage.message(), "not terminated by \"\\r\\n\"");
}

#[test]
fn bucket() {
    let mut b = Bucket::new(20, 30000, 1000);
    assert!(b.get());
    b.refresh(500);
    assert!(b.get());
    b.refresh(31000);
    assert!(b.get());
    let mut empty = Bucket::new(0, 10, 0);
    assert!(!empty.get());
    empty.refresh(5);
    assert!(!empty.get());
}

#[test]
fn bot_setup() {
    let bot = Bot::new();
    let (config, channels) = bot.into_parts();
    assert!(config.credentials.is_anon());
    assert!(channels.is_empty());
    let bot = Bot::new()
        .auth(Some(Credentials::new("me", "tok")))
        .channels(vec!["#a".to_string(), "#b".to_string()]);
    let (config, channels) = bot.into_parts();
    assert_eq!(config.credentials.login(), "me");
    assert_eq!(channels, vec!["#a".to_string(), "#b".to_string()]);
    let (config, _) = Bot::default().auth(None).into_parts();
    assert!(is_anon_login(config.credentials.login()));
}

#[test]
fn bot_channels() {
    let mut s = ChannelStates::new();
    assert!(s.maybe_join("#a".to_string()));
    assert!(!s.maybe_join("#a".to_string()));
    assert!(s.maybe_join("#b".to_string()));
    assert!(s.contains("#a"));
    let mut names = s.names();
    names.sort();
    assert_eq!(names, vec!["#a", "#b"]);
    assert_eq!(s.bypass("#a"), "");
    assert_eq!(s.bypass("#a"), " \u{2800}");
    assert_eq!(s.bypass("#c"), "");
    assert!(s.contains("#c"));
    assert!(s.maybe_part("#a"));
    assert!(!s.maybe_part("#a"));
    assert!(!s.contains("#a"));
    assert!(s.contains("#b"));
}

#[test]
fn decimal_helpers() {
    assert_eq!(num_digits(0), 1);
    assert_eq!(num_digits(9), 1);
    assert_eq!(num_digits(10), 2);
    assert_eq!(num_digits(12345), 5);
    assert_eq!(num_digits(usize::MAX), usize::MAX.to_string().len());
    let mut s = String::from("n=");
    push_decimal(&mut s, 907);
    assert_eq!(s, "n=907");
    let mut z = String::new();
    push_decimal(&mut z, 0);
    assert_eq!(z, "0");
    assert_eq!(split_args("!cmd a b"), ("!cmd", "a b"));
    assert_eq!(split_args("!cmd"), ("!cmd", ""));
    assert_eq!(split_args(""), ("", ""));
}

#[test]
fn join_strings() {
    let j: Join = vec!["a", "b", "c"].join(", ");
    assert_eq!(j.to_string(), "a, b, c");
    let e: Join = Vec::<&str>::new().join(";");
    assert_eq!(e.to_string(), "");
}

#[test]
fn timestamps() {
    assert_eq!(parse_timestamp("1594561955611"), Some(1594561955611));
    assert_eq!(parse_timestamp("-1"), Some(-1));
    assert_eq!(parse_timestamp("8210266876799999"), Some(8210266876799999));
    assert_eq!(parse_timestamp("8210266876800000"), None);
    assert_eq!(parse_timestamp("-8334601228800000"), Some(-8334601228800000));
    assert_eq!(parse_timestamp("-8334601228800001"), None);
    assert_eq!(parse_timestamp("x"), None);
    assert_eq!(parse_timestamp(""), None);
}

#[test]
fn badges_with_info() {
    let v = parse_badges("subscriber/12,bits/100,moderator/1", "subscriber/22,bits/5");
    assert_eq!(v.len(), 3);
    match &v[0] {
        Badge::Subscriber(s) => {
            assert_eq!(s.version(), "12");
            assert_eq!(s.months(), 22);
        },
        _ => panic!("expected a subscriber badge"),
    }
    let d = v[1].as_badge_data();
    assert_eq!((d.name(), d.version(), d.extra()), ("bits", "100", Some("5")));
    assert!(matches!(v[2], Badge::Moderator));
    assert!(parse_badges("", "subscriber/1").is_empty());
    let s = parse_badges("subscriber/0", "");
    match &s[0] {
        Badge::Subscriber(x) => assert_eq!(x.months(), 1),
        _ => panic!("expected a subscriber badge"),
    }
    let odd = parse_badges("noslash,a/b/c", "a/x");
    assert_eq!(odd.len(), 1);
    let d = odd[0].as_badge_data();
    assert_eq!((d.name(), d.version(), d.extra()), ("a", "b/c", Some("x")));
}

#[test]
fn badge_data_roundtrip() {
    let data = BadgeData::new("vip", "1", None);
    let b = Badge::from_data(data);
    let back = BadgeData::from_badge(b);
    assert_eq!((back.name(), back.version(), back.extra()), ("vip", "1", None));
    let staff = Badge::from_data(BadgeData::new("staff", "2", None));
    assert!(matches!(staff, Badge::Staff));
    assert_eq!(staff.as_badge_data().version(), "1");
}

#[test]
fn pinned_chat_levels() {
    for (n, s) in ["ONE", "TWO", "THREE", "FOUR", "FIVE", "SIX", "SEVEN", "EIGHT", "NINE", "TEN"].iter().enumerate() {
        let l = PinnedChatLevel::parse(s).unwrap();
        assert_eq!(l.as_str(), *s);
        assert_eq!(l.to_u8() as usize, n);
        assert_eq!(PinnedChatLevel::try_from_u8(n as u8), Ok(l));
    }
    assert_eq!(PinnedChatLevel::parse("ELEVEN"), Err(()));
    assert_eq!(PinnedChatLevel::try_from_u8(10), Err(()));
}

#[test]
fn typed_messages() {
    assert!(matches!(Message::parse(":tmi.twitch.tv RECONNECT"), Ok(Message::Reconnect)));
    assert!(matches!(Message::parse(":tmi.twitch.tv PING :x"), Ok(Message::Ping(_))));
    assert!(matches!(Message::parse(":tmi.twitch.tv 372 me :motd"), Ok(Message::Other(_))));
    assert!(Message::parse(":tmi.twitch.tv JOIN #chan").is_err());
    assert!(Message::parse("").is_err());
    match Message::parse("@room-id=1;tmi-sent-ts=5 :tmi.twitch.tv CLEARCHAT #c") {
        Ok(Message::ClearChat(c)) => assert_eq!(c.timestamp(), 5),
        _ => panic!("expected a clear chat"),
    }
}

#[test]
fn room_state() {
    let src = "@emote-only=0;followers-only=10;r9k=1;room-id=40286300;slow=5;subs-only=0 :tmi.twitch.tv ROOMSTATE #randers";
    let m = IrcMessageRef::parse(src).unwrap();
    assert!(RoomState::durations_fit(&m));
    let r = RoomState::from_irc(m).unwrap();
    assert_eq!(r.channel, "#randers");
    assert_eq!(r.channel_id, "40286300");
    assert_eq!(r.emote_only, Some(false));
    assert_eq!(r.followers_only, Some(FollowersOnly::Enabled(Some(600))));
    assert_eq!(r.r9k, Some(true));
    assert_eq!(r.slow, Some(5));
    assert_eq!(r.subs_only, Some(false));
    let off = IrcMessageRef::parse("@followers-only=-1;room-id=1 :tmi.twitch.tv ROOMSTATE #c").unwrap();
    let r = RoomState::from_irc(off).unwrap();
    assert_eq!(r.followers_only, Some(FollowersOnly::Disabled));
    assert_eq!(r.slow, None);
    let any = IrcMessageRef::parse("@followers-only=0;room-id=1 :tmi.twitch.tv ROOMSTATE #c").unwrap();
    assert_eq!(RoomState::from_irc(any).unwrap().followers_only, Some(FollowersOnly::Enabled(None)));
    let huge = IrcMessageRef::parse("@slow=9223372036854776;room-id=1 :tmi.twitch.tv ROOMSTATE #c").unwrap();
    assert!(!RoomState::durations_fit(&huge));
    let missing = IrcMessageRef::parse(":tmi.twitch.tv ROOMSTATE #c").unwrap();
    assert!(RoomState::from_irc(missing).is_err());
}

#[test]
fn bot_commands() {
    let mut s = ChannelStates::new();
    let lines = s.handle(Command::JoinAll { channels: vec!["a".to_string(), "#b".to_string(), "a".to_string()] });
    assert_eq!(lines, vec!["JOIN #a\r\n".to_string(), "JOIN #b\r\n".to_string()]);
    assert!(s.handle(Command::Join { channel: "#b".to_string() }).is_empty());
    let first = s.handle(Command::Privmsg { channel: "a".to_string(), text: "hi".to_string(), reply_to: None });
    assert_eq!(first, vec!["PRIVMSG a :hi\r\n".to_string()]);
    let second = s.handle(Command::Privmsg {
        channel: "a".to_string(),
        text: "hi".to_string(),
        reply_to: Some("abc".to_string()),
    });
    assert_eq!(second, vec!["@reply-parent-msg-id=abc PRIVMSG a :hi \u{2800}\r\n".to_string()]);
    assert_eq!(s.handle(Command::Part { channel: "a".to_string() }), vec!["PART #a\r\n".to_string()]);
    assert!(s.handle(Command::Part { channel: "a".to_string() }).is_empty());
    assert!(!s.contains("a"));
    assert!(s.contains("#b"));
}

#[test]
fn anonymous_privmsg() {
    assert!(Command::privmsg(true, "#a".to_string(), "hi".to_string(), None).is_none());
    match Command::privmsg(false, "#a".to_string(), "hi".to_string(), None) {
        Some(Command::Privmsg { channel, text, reply_to }) => {
            assert_eq!(channel, "#a");
            assert_eq!(text, "hi");
            assert!(reply_to.is_none());
        },
        _ => panic!("expected a privmsg request"),
    }
}

#[test]
fn read_failures() {
    assert!(ReadFailure::StreamClosed.is_disconnect());
    assert!(ReadFailure::Io(IoFailure::UnexpectedEof).is_disconnect());
    assert!(ReadFailure::Io(IoFailure::ConnectionAborted).is_disconnect());
    assert!(ReadFailure::Io(IoFailure::TimedOut).is_disconnect());
    assert!(!ReadFailure::Io(IoFailure::Other).is_disconnect());
    assert!(!ReadFailure::Parse.is_disconnect());
}

#[test]
fn connect_failures_to_retry() {
    assert!(ConnectFailure::Io.should_retry());
    assert!(ConnectFailure::Open.should_retry());
    for f in [
        ConnectFailure::Read,
        ConnectFailure::Dns,
        ConnectFailure::Tls,
        ConnectFailure::Timeout,
        ConnectFailure::Welcome,
        ConnectFailure::Auth,
        ConnectFailure::Notice,
    ] {
        assert!(!f.should_retry());
    }
}

#[test]
fn written_lines_are_terminated() {
    let lines = [
        ping_line("123"),
        pong_line(Some("123")),
        pong_line(None),
        join_line("forsen"),
        part_line("#forsen"),
        join_all_line(&["a", "#b"]),
        join_all_line(&[]),
        privmsg_line("#a", "hi", Some("id"), Some("n")),
        privmsg_line("#a", "", None, None),
    ];
    for line in lines.iter() {
        assert!(RawMessage::try_from(line.as_str()).is_ok(), "{line:?} is not terminated");
    }
}

#[test]
fn badge_to_data_and_back() {
    let datas = [
        BadgeData::new("staff", "2", None),
        BadgeData::new("moderator", "1", None),
        BadgeData::new("subscriber", "12", Some("14")),
        BadgeData::new("subscriber", "0", None),
        BadgeData::new("subscriber", "0", Some("x")),
        BadgeData::new("glitchcon2020", "1", Some("y")),
    ];
    for d in datas {
        let b = Badge::from_data(d);
        let again = Badge::from_data(b.as_badge_data());
        assert_eq!(again, b);
    }
}

#[test]
fn room_state_durations_at_the_limits() {
    let fits = |tags: &str| {
        let src = format!("@{tags} :tmi.twitch.tv ROOMSTATE #a");
        let m = IrcMessageRef::parse(&src).unwrap();
        RoomState::durations_fit(&m)
    };
    assert!(fits("slow=9223372036854775"));
    assert!(fits("slow=-9223372036854775"));
    assert!(!fits("slow=9223372036854776"));
    assert!(!fits("slow=-9223372036854776"));
    assert!(fits("followers-only=153722867280912"));
    assert!(!fits("followers-only=153722867280913"));
    assert!(!fits("followers-only=9223372036854775807"));
    assert!(fits("followers-only=-1"));
    assert!(fits("room-id=1"));
}
