//! Reading the parts of IRC messages.
use std::borrow::Cow;
use tmi::irc::wide::{find, find_first, Vector};
use tmi::irc::{channel, command, params, tags};
use tmi::{maybe_unescape, Command, IrcMessage, IrcMessageRef, Prefix, Tag};

#[test]
fn notice_without_channel() {
    let data = ":tmi.twitch.tv NOTICE * :Improperly formatted auth";

    let msg = IrcMessageRef::parse(data).unwrap();
    assert_eq!(msg.command(), Command::Notice);
    assert_eq!(msg.text(), Some("Improperly formatted auth"));
    assert_eq!(msg.params(), Some("* :Improperly formatted auth"));
}

#[test]
fn regression_parse_prefix() {
    let data = ":justinfan57624!justinfan57624@justinfan57624.tmi.twitch.tv JOIN #riotgames";

    let msg = IrcMessageRef::parse(data).unwrap();
    assert_eq!(
        msg.prefix(),
        Some(Prefix {
            nick: Some("justinfan57624"),
            user: Some("justinfan57624"),
            host: "justinfan57624.tmi.twitch.tv"
        })
    );
}

#[test]
fn regression_equals_in_tag_value() {
    let data = "@display-name=Dixtor334;emotes=;first-msg=0;flags=;id=0b4c70e4-9a47-4ce1-9c3e-8f78111cdc19;mod=0;reply-parent-display-name=minosura;reply-parent-msg-body=https://youtu.be/-ek4MFjz_eM?list=PL91C6439FD45DE2F3\\sannytfDinkDonk\\sstrimmer\\skorean\\sone;reply-parent-msg-id=7f811788-b897-4b4c-9f91-99fafe70eb7f;reply-parent-user-id=141993641;reply-parent-user-login=minosura;returning-chatter=0;room-id=56418014;subscriber=1;tmi-sent-ts=1686049636367;turbo=0;user-id=73714767;user-type= :dixtor334!dixtor334@dixtor334.tmi.twitch.tv PRIVMSG #anny :@minosura @anny";
    assert_eq!(
        "https://youtu.be/-ek4MFjz_eM?list=PL91C6439FD45DE2F3\\sannytfDinkDonk\\sstrimmer\\skorean\\sone",
        IrcMessageRef::parse(data).unwrap().tag(Tag::ReplyParentMsgBody).unwrap()
    );
}

#[test]
fn regression_equals_in_tag_value_2() {
    let data = "@room-id=11148817;tmi-sent-ts=1723702053033;color=#B7B6F9;reply-parent-msg-body=@RomeoGiggleToess\\shttps://www.youtube.com/watch?v=khMb3k-Wwvg;emotes=;flags=;reply-parent-user-id=53888434;id=96a5fb70-f54e-4640-979e-529a76ddf74b;reply-thread-parent-display-name=RomeoGiggleToess;reply-thread-parent-msg-id=fd2a5663-00cb-4e78-9c0d-aff6b66285bf;subscriber=0;historical=1;reply-parent-display-name=OGprodigy;mod=0;badges=twitch-dj/1;first-msg=0;user-id=86336791;reply-parent-user-login=ogprodigy;turbo=0;user-type=;reply-parent-msg-id=a504ba7e-d991-45d0-ab2f-c3045c6ae7b6;reply-thread-parent-user-login=romeogiggletoess;returning-chatter=0;display-name=RomeoGiggleToess;badge-info=;reply-thread-parent-user-id=86336791;rm-received-ts=1723702053240 :romeogiggletoess!romeogiggletoess@romeogiggletoess.tmi.twitch.tv PRIVMSG #pajlada :@OGprodigy klassiker";
    IrcMessageRef::parse(data).unwrap();
}

#[test]
fn channel() {
    let data = "#channel <rest>";
    let mut pos = 0;

    let channel = channel::parse(data, &mut pos).unwrap();
    assert_eq!(channel.get(data), "#channel");
    assert_eq!(&data[pos..], "<rest>");
}

#[test]
fn command() {
    let data = "PING <rest>";
    let mut pos = 0;

    let command = command::parse(data, &mut pos).unwrap();
    assert_eq!(command.get(data), Command::Ping);
    assert_eq!(&data[pos..], "<rest>");
}

#[test]
fn params() {
    let data = ":param_a :param_b";
    let params = params::parse(data, &0).unwrap();
    assert_eq!(params.get(data), data)
}

#[test]
fn roundtrip() {
    let src = "@some-key-a=some-value-a;some-key-b=some-value-b;some-key-c=some-value-c ";

    let mut pos = 0;
    let parsed = format!(
        "@{} ",
        tags::parse(src, &mut pos)
            .unwrap()
            .0
            .into_iter()
            .map(|tag| format!("{}={}", tag.key().get(src), tag.value().get(src)))
            .collect::<Vec<_>>()
            .join(";")
    );

    assert_eq!(&src[pos..], "");
    assert_eq!(src, parsed);
}

#[test]
fn find_first_test() {
    fn a(size: usize, needle_at: usize) -> Vec<u8> {
        let mut data = vec![b'.'; size];
        data[needle_at] = b'x';
        data
    }

    let cases: &[(&[u8], Option<usize>)] = &[
        // sub vector-size chunks
        (b"", None),
        (b"x", Some(0)),
        (b".", None),
        (b"xx", Some(0)),
        (b"x.", Some(0)),
        (b".x", Some(1)),
        // 16 bytes
        (b"x...............", Some(0)),
        (b".x..............", Some(1)),
        (b"..............x.", Some(14)),
        (b"...............x", Some(15)),
        // 17 bytes
        (b"x................", Some(0)),
        (b".x...............", Some(1)),
        (b"...............x.", Some(15)),
        (b"................x", Some(16)),
        // 32 bytes
        (b"x...............................", Some(0)),
        (b".x..............................", Some(1)),
        (b"..............................x.", Some(30)),
        (b"...............................x", Some(31)),
        // 1 KiB
        (&a(1024, 0)[..], Some(0)),
        (&a(1024, 1)[..], Some(1)),
        (&a(1024, 1022)[..], Some(1022)),
        (&a(1024, 1023)[..], Some(1023)),
    ];

    for (i, case) in cases.iter().enumerate() {
        let (data, expected) = *case;
        assert_eq!(find_first(data, b'x'), expected, "case {} failed", i);
    }
}

#[test]
fn unescape_in_place_non_escaped() {
    let v = maybe_unescape(Cow::Borrowed("test"));
    assert!(matches!(v, Cow::Borrowed(_)));
    assert_eq!(v, "test");
}

#[test]
fn unescape_in_place_escaped() {
    let v = maybe_unescape(Cow::Borrowed("\\\\\\n\\s"));
    assert!(matches!(v, Cow::Owned(_)));
    assert_eq!(v, "\\\n ");
}

#[test]
fn unescape_system_msg() {
    let v = tmi::irc::unescape("An\\sanonymous\\suser\\sgifted\\sa\\sTier\\s1\\ssub\\sto\\sDot0422!");
    assert_eq!(v, "An anonymous user gifted a Tier 1 sub to Dot0422!");
}

#[test]
fn owned_message_matches_borrowed() {
    let data = "@badge-info=;badges=;color=#FF0000;display-name=TESTUSER;emote-sets=0 :tmi.twitch.tv USERSTATE #randers :hi there";
    let msg = IrcMessageRef::parse(data).unwrap();
    let owned = msg.into_owned();
    assert_eq!(owned.raw(), data);
    assert_eq!(owned.channel(), Some("#randers"));
    assert_eq!(owned.tag(Tag::Color), Some("#FF0000"));
    assert_eq!(owned.text(), Some("hi there"));
    let again = owned.as_ref();
    assert_eq!(again.command(), Command::UserState);
    assert_eq!(again.tags().len(), 5);
}

#[test]
fn owned_message_parse() {
    let msg = IrcMessage::parse(":tmi.twitch.tv PING :nonce".to_string()).unwrap();
    assert_eq!(msg.command(), Command::Ping);
    assert_eq!(msg.text(), Some("nonce"));
    assert!(IrcMessage::parse(String::new()).is_none());
}

#[test]
fn tags_without_value_and_unknown_command() {
    let data = "@a;b=1 :host FOO bar";
    let msg = IrcMessageRef::parse(data).unwrap();
    assert_eq!(msg.tags(), vec![("b", "1")]);
    assert_eq!(msg.command(), Command::Other("FOO"));
    assert_eq!(msg.command().as_str(), "FOO");
    assert_eq!(msg.channel(), None);
    assert_eq!(msg.params(), Some("bar"));
    assert_eq!(msg.text(), Some("bar"));
}

#[test]
fn tag_names_roundtrip() {
    for t in [Tag::MsgId, Tag::Badges, Tag::DisplayName, Tag::TmiSentTs, Tag::Unknown("custom-key")] {
        assert_eq!(Tag::parse(t.as_str()), t);
    }
    assert_eq!(Tag::PinnedChatPaidCanonicalAmount.as_str(), "pinned-chat-paid-canonical-amount");
    assert_eq!(Tag::parse("pinned-chat-paid-canonical-amount"), Tag::PinnedChatPaidCanonicalAmount);
    assert_eq!(Tag::parse("pinned-chat-paid-amount"), Tag::PinnedChatPaidAmount);
}

#[test]
fn unknown_tag_with_a_known_name() {
    let data = "@msg-id=sub;custom-key=x;pinned-chat-paid-canonical-amount=5 :tmi.twitch.tv USERNOTICE #a";
    let msg = IrcMessageRef::parse(data).unwrap();
    assert_eq!(msg.tag(Tag::MsgId), Some("sub"));
    assert_eq!(msg.tag(Tag::Unknown("msg-id")), None);
    assert_eq!(msg.tag(Tag::Unknown("custom-key")), Some("x"));
    assert_eq!(msg.tag(Tag::Unknown("missing")), None);
    assert_eq!(msg.tag(Tag::PinnedChatPaidCanonicalAmount), Some("5"));
    assert_eq!(msg.tag_by_name("msg-id"), msg.tag(Tag::MsgId));
    assert_eq!(msg.tag_by_name("custom-key"), Some("x"));
    assert_eq!(msg.tag_by_name("missing"), None);
    let owned = msg.into_owned();
    assert_eq!(owned.tag_by_name("msg-id"), Some("sub"));
    assert_eq!(owned.tag(Tag::MsgId), Some("sub"));
    assert_eq!(owned.tag(Tag::Unknown("msg-id")), None);
    assert_eq!(owned.tag(Tag::Unknown("custom-key")), Some("x"));
}

#[test]
fn empty_and_odd_tag_sections() {
    let msg = IrcMessageRef::parse("@ PING :x").unwrap();
    assert!(msg.tags().is_empty());
    assert_eq!(msg.command(), Command::Ping);
    assert_eq!(msg.text(), Some("x"));

    let msg = IrcMessageRef::parse("@a=b; PING").unwrap();
    assert_eq!(msg.tags(), vec![("a", "b")]);
    let msg = IrcMessageRef::parse("@a=b=c;d=;=e PING").unwrap();
    assert_eq!(msg.tags(), vec![("a", "b=c"), ("d", ""), ("", "e")]);
}

#[test]
fn find_from_offset() {
    let mut data = vec![b'.'; 40];
    data[3] = b'x';
    data[20] = b'x';
    data[39] = b'x';
    assert_eq!(find(&data, 0, b'x'), Some(3));
    assert_eq!(find(&data, 3, b'x'), Some(3));
    assert_eq!(find(&data, 4, b'x'), Some(20));
    assert_eq!(find(&data, 21, b'x'), Some(39));
    assert_eq!(find(&data, 40, b'x'), None);
    assert_eq!(find(&data, 100, b'x'), None);
    assert_eq!(find(b"abc", 0, b'x'), None);
    assert_eq!(find(b"", 0, b'x'), None);
}

#[test]
fn tag_and_command_names_read_back() {
    let tags = [
        Tag::Id, Tag::Mod, Tag::R9K, Tag::Vip, Tag::Bits, Tag::Slow, Tag::Color, Tag::Flags, Tag::Login,
        Tag::Turbo, Tag::Badges, Tag::Emotes, Tag::MsgId, Tag::BadgeInfo, Tag::EmoteOnly, Tag::EmoteSets,
        Tag::MessageId, Tag::Subscriber, Tag::SystemMsg, Tag::ReplyParentMsgBody, Tag::PinnedChatPaidAmount,
        Tag::MsgParamGiftMonthBeingRedeemed,
    ];
    for t in tags {
        assert_eq!(Tag::parse(t.as_str()), t);
    }
    // names of a known length that no tag has
    assert_eq!(Tag::parse("vin"), Tag::Unknown("vin"));
    assert_eq!(Tag::parse("bads"), Tag::Unknown("bads"));
    assert_eq!(Tag::parse(""), Tag::Unknown(""));
    assert_eq!(Tag::parse("é"), Tag::Unknown("é"));

    for (word, command) in [
        ("PING", Command::Ping),
        ("PART", Command::Part),
        ("CAP", Command::Capability),
        ("376", Command::RplEndOfMotd),
        ("353", Command::RplNames),
        ("GLOBALUSERSTATE", Command::GlobalUserState),
        ("ROOMSTATE", Command::RoomState),
    ] {
        let line = format!("{word} #channel");
        let mut pos = 0;
        let raw = command::parse(&line, &mut pos).unwrap();
        assert_eq!(raw.get(&line), command);
        assert_eq!(command.as_str(), word);
    }
    let line = "PINGS #channel";
    let mut pos = 0;
    let raw = command::parse(line, &mut pos).unwrap();
    assert_eq!(raw.get(line), Command::Other("PINGS"));
}

#[test]
fn maybe_unescape_matches_unescape() {
    for v in [r"An\sanonymous\suser", r"a\:b\\c\rd\ne", "plain", r"trailing\"] {
        let m = maybe_unescape(Cow::Borrowed(v));
        assert_eq!(m.as_ref(), tmi::irc::unescape(v));
    }
    assert_eq!(maybe_unescape(Cow::Borrowed(r"An\sanonymous\suser")), "An anonymous user");
}

#[test]
fn vector_find_first() {
    let data = b"....x.....x.....tail";
    assert_eq!(Vector::load_unaligned(data, 0).find_first(b'x'), Some(4));
    assert_eq!(Vector::load_unaligned(data, 0).find_first(b'z'), None);
    assert_eq!(Vector::load_unaligned(data, 4).find_first(b'.'), Some(1));
}

#[test]
fn cloned_messages_read_the_same() {
    let src = "@badge-info=;badges=moderator/1;color=#FF0000;display-name=a;emotes=;id=1;mod=1;room-id=2;subscriber=0;tmi-sent-ts=1594545155039;turbo=0;user-id=3;user-type=mod :a!a@a.tmi.twitch.tv PRIVMSG #c :hi";
    let raw = IrcMessageRef::parse(src).unwrap();
    let copy = raw.clone();
    assert_eq!(copy.raw(), raw.raw());
    assert_eq!(copy.tags(), raw.tags());
    assert_eq!(copy.command(), raw.command());
    let typed = tmi::Message::from_irc(raw).unwrap();
    match (typed.clone(), typed) {
        (tmi::Message::Privmsg(a), tmi::Message::Privmsg(b)) => assert_eq!(a, b),
        _ => panic!("expected two chat messages"),
    }
}
