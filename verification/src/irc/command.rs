//! Message command: `COMMAND `.
use vstd::prelude::*;
use vstd::string::StrSliceExecFns;
use vstd::utf8::is_char_boundary;
use crate::common::{span, span_ok, span_text, Span};
use crate::strings::lemma_chars_differ;
use crate::text::{bytes_of, find_byte, index_of, lemma_ascii_boundary, lemma_ends_boundary, lemma_index_of, str_eq, substr, text_at};

verus! {

broadcast use vstd::utf8::group_utf8_lib;

/// `' '`
pub const SPACE: u8 = 32;

/// A command as parsed: a known command, or the range of an unknown one.
#[derive(Clone, Copy, Debug)]
pub enum RawCommand {
    /// `PING`
    Ping,
    /// `PONG`
    Pong,
    /// `JOIN`
    Join,
    /// `PART`
    Part,
    /// `PRIVMSG`
    Privmsg,
    /// `WHISPER`
    Whisper,
    /// `CLEARCHAT`
    Clearchat,
    /// `CLEARMSG`
    Clearmsg,
    /// `GLOBALUSERSTATE`
    GlobalUserState,
    /// `NOTICE`
    Notice,
    /// `RECONNECT`
    Reconnect,
    /// `ROOMSTATE`
    RoomState,
    /// `USERNOTICE`
    UserNotice,
    /// `USERSTATE`
    UserState,
    /// `CAP`
    Capability,
    /// `001`
    RplWelcome,
    /// `002`
    RplYourHost,
    /// `003`
    RplCreated,
    /// `004`
    RplMyInfo,
    /// `353`
    RplNamReply,
    /// `366`
    RplEndOfNames,
    /// `372`
    RplMotd,
    /// `375`
    RplMotdStart,
    /// `376`
    RplEndOfMotd,
    /// Any other command, by its range.
    Other(Span),
}

/// A Twitch IRC command.
#[derive(Clone, Copy, Debug, PartialEq, Eq, PartialOrd, Ord, Hash)]
pub enum Command<'src> {
    /// Ping the peer
    Ping,
    /// The peer's response to a [`Command::Ping`]
    Pong,
    /// Join a channel
    Join,
    /// Leave a channel
    Part,
    /// Send a message to a channel
    Privmsg,
    /// Send a private message to a user
    Whisper,
    /// Purge a user's messages in a channel
    ClearChat,
    /// Remove a single message
    ClearMsg,
    /// Sent upon successful authentication (PASS/NICK command)
    GlobalUserState,
    /// General notices from the server
    Notice,
    /// Rejoins channels after a restart
    Reconnect,
    /// Identifies the channel's chat settings
    RoomState,
    /// Announces Twitch-specific events to the channel
    UserNotice,
    /// Identifies a user's chat settings or properties
    UserState,
    /// Requesting an IRC capability
    Capability,
    /// `001`
    RplWelcome,
    /// `002`
    RplYourHost,
    /// `003`
    RplCreated,
    /// `004`
    RplMyInfo,
    /// `353`
    RplNames,
    /// `366`
    RplEndOfNames,
    /// `372`
    RplMotd,
    /// `375`
    RplMotdStart,
    /// `376`
    RplEndOfMotd,
    /// Unknown command
    Other(&'src str),
}

/// The string that [`Command::as_str`] returns.
pub open spec fn command_name(c: Command) -> Seq<char> {
    match c {
        Command::Ping => "PING"@,
        Command::Pong => "PONG"@,
        Command::Join => "JOIN"@,
        Command::Part => "PART"@,
        Command::Privmsg => "PRIVMSG"@,
        Command::Whisper => "WHISPER"@,
        Command::ClearChat => "CLEARCHAT"@,
        Command::ClearMsg => "CLEARMSG"@,
        Command::GlobalUserState => "GLOBALUSERSTATE"@,
        Command::Notice => "NOTICE"@,
        Command::Reconnect => "RECONNECT"@,
        Command::RoomState => "ROOMSTATE"@,
        Command::UserNotice => "USERNOTICE"@,
        Command::UserState => "USERSTATE"@,
        Command::Capability => "CAP"@,
        Command::RplWelcome => "001"@,
        Command::RplYourHost => "002"@,
        Command::RplCreated => "003"@,
        Command::RplMyInfo => "004"@,
        Command::RplNames => "353"@,
        Command::RplEndOfNames => "366"@,
        Command::RplMotd => "372"@,
        Command::RplMotdStart => "375"@,
        Command::RplEndOfMotd => "376"@,
        Command::Other(cmd) => cmd@,
    }
}

/// The known command that the word `w` names.
pub open spec fn command_of_word(w: Seq<char>) -> Option<RawCommand> {
    let n = w.len();
    if n == 3 {
        if w == "CAP"@ {
            Some(RawCommand::Capability)
        } else if w == "001"@ {
            Some(RawCommand::RplWelcome)
        } else if w == "002"@ {
            Some(RawCommand::RplYourHost)
        } else if w == "003"@ {
            Some(RawCommand::RplCreated)
        } else if w == "004"@ {
            Some(RawCommand::RplMyInfo)
        } else if w == "353"@ {
            Some(RawCommand::RplNamReply)
        } else if w == "366"@ {
            Some(RawCommand::RplEndOfNames)
        } else if w == "372"@ {
            Some(RawCommand::RplMotd)
        } else if w == "375"@ {
            Some(RawCommand::RplMotdStart)
        } else if w == "376"@ {
            Some(RawCommand::RplEndOfMotd)
        } else {
            None
        }
    } else if n == 4 {
        if w == "PING"@ {
            Some(RawCommand::Ping)
        } else if w == "PONG"@ {
            Some(RawCommand::Pong)
        } else if w == "JOIN"@ {
            Some(RawCommand::Join)
        } else if w == "PART"@ {
            Some(RawCommand::Part)
        } else {
            None
        }
    } else if n == 6 {
        if w == "NOTICE"@ {
            Some(RawCommand::Notice)
        } else {
            None
        }
    } else if n == 7 {
        if w == "PRIVMSG"@ {
            Some(RawCommand::Privmsg)
        } else if w == "WHISPER"@ {
            Some(RawCommand::Whisper)
        } else {
            None
        }
    } else if n == 8 {
        if w == "CLEARMSG"@ {
            Some(RawCommand::Clearmsg)
        } else {
            None
        }
    } else if n == 9 {
        if w == "CLEARCHAT"@ {
            Some(RawCommand::Clearchat)
        } else if w == "RECONNECT"@ {
            Some(RawCommand::Reconnect)
        } else if w == "ROOMSTATE"@ {
            Some(RawCommand::RoomState)
        } else if w == "USERSTATE"@ {
            Some(RawCommand::UserState)
        } else {
            None
        }
    } else if n == 10 {
        if w == "USERNOTICE"@ {
            Some(RawCommand::UserNotice)
        } else {
            None
        }
    } else if n == 15 {
        if w == "GLOBALUSERSTATE"@ {
            Some(RawCommand::GlobalUserState)
        } else {
            None
        }
    } else {
        None
    }
}

/// `c` is the command that `raw` stands for (for `Other`, its text is checked separately).
pub open spec fn command_matches(c: Command, raw: RawCommand) -> bool {
    match (c, raw) {
        (Command::Ping, RawCommand::Ping) => true,
        (Command::Pong, RawCommand::Pong) => true,
        (Command::Join, RawCommand::Join) => true,
        (Command::Part, RawCommand::Part) => true,
        (Command::Privmsg, RawCommand::Privmsg) => true,
        (Command::Whisper, RawCommand::Whisper) => true,
        (Command::ClearChat, RawCommand::Clearchat) => true,
        (Command::ClearMsg, RawCommand::Clearmsg) => true,
        (Command::GlobalUserState, RawCommand::GlobalUserState) => true,
        (Command::Notice, RawCommand::Notice) => true,
        (Command::Reconnect, RawCommand::Reconnect) => true,
        (Command::RoomState, RawCommand::RoomState) => true,
        (Command::UserNotice, RawCommand::UserNotice) => true,
        (Command::UserState, RawCommand::UserState) => true,
        (Command::Capability, RawCommand::Capability) => true,
        (Command::RplWelcome, RawCommand::RplWelcome) => true,
        (Command::RplYourHost, RawCommand::RplYourHost) => true,
        (Command::RplCreated, RawCommand::RplCreated) => true,
        (Command::RplMyInfo, RawCommand::RplMyInfo) => true,
        (Command::RplNames, RawCommand::RplNamReply) => true,
        (Command::RplEndOfNames, RawCommand::RplEndOfNames) => true,
        (Command::RplMotd, RawCommand::RplMotd) => true,
        (Command::RplMotdStart, RawCommand::RplMotdStart) => true,
        (Command::RplEndOfMotd, RawCommand::RplEndOfMotd) => true,
        (Command::Other(_), RawCommand::Other(_)) => true,
        _ => false,
    }
}

/// The command that `raw` stands for, as characters of `b`.
pub open spec fn raw_command_name(b: Seq<u8>, raw: RawCommand) -> Seq<char> {
    match raw {
        RawCommand::Ping => "PING"@,
        RawCommand::Pong => "PONG"@,
        RawCommand::Join => "JOIN"@,
        RawCommand::Part => "PART"@,
        RawCommand::Privmsg => "PRIVMSG"@,
        RawCommand::Whisper => "WHISPER"@,
        RawCommand::Clearchat => "CLEARCHAT"@,
        RawCommand::Clearmsg => "CLEARMSG"@,
        RawCommand::GlobalUserState => "GLOBALUSERSTATE"@,
        RawCommand::Notice => "NOTICE"@,
        RawCommand::Reconnect => "RECONNECT"@,
        RawCommand::RoomState => "ROOMSTATE"@,
        RawCommand::UserNotice => "USERNOTICE"@,
        RawCommand::UserState => "USERSTATE"@,
        RawCommand::Capability => "CAP"@,
        RawCommand::RplWelcome => "001"@,
        RawCommand::RplYourHost => "002"@,
        RawCommand::RplCreated => "003"@,
        RawCommand::RplMyInfo => "004"@,
        RawCommand::RplNamReply => "353"@,
        RawCommand::RplEndOfNames => "366"@,
        RawCommand::RplMotd => "372"@,
        RawCommand::RplMotdStart => "375"@,
        RawCommand::RplEndOfMotd => "376"@,
        RawCommand::Other(sp) => span_text(b, sp),
    }
}

impl RawCommand {
    /// The range of an unknown command is well formed in `b`.
    pub open spec fn ok(self, b: Seq<u8>) -> bool {
        match self {
            RawCommand::Other(sp) => span_ok(b, sp),
            _ => true,
        }
    }

    /// The command, taken from the message `src` that it was parsed from.
    pub fn get<'src>(&self, src: &'src str) -> (r: Command<'src>)
        requires
            self.ok(bytes_of(src@)),
        ensures
            command_matches(r, *self),
            command_name(r) == raw_command_name(bytes_of(src@), *self),
    {
        match self {
            RawCommand::Ping => Command::Ping,
            RawCommand::Pong => Command::Pong,
            RawCommand::Join => Command::Join,
            RawCommand::Part => Command::Part,
            RawCommand::Privmsg => Command::Privmsg,
            RawCommand::Whisper => Command::Whisper,
            RawCommand::Clearchat => Command::ClearChat,
            RawCommand::Clearmsg => Command::ClearMsg,
            RawCommand::GlobalUserState => Command::GlobalUserState,
            RawCommand::Notice => Command::Notice,
            RawCommand::Reconnect => Command::Reconnect,
            RawCommand::RoomState => Command::RoomState,
            RawCommand::UserNotice => Command::UserNotice,
            RawCommand::UserState => Command::UserState,
            RawCommand::Capability => Command::Capability,
            RawCommand::RplWelcome => Command::RplWelcome,
            RawCommand::RplYourHost => Command::RplYourHost,
            RawCommand::RplCreated => Command::RplCreated,
            RawCommand::RplMyInfo => Command::RplMyInfo,
            RawCommand::RplNamReply => Command::RplNames,
            RawCommand::RplEndOfNames => Command::RplEndOfNames,
            RawCommand::RplMotd => Command::RplMotd,
            RawCommand::RplMotdStart => Command::RplMotdStart,
            RawCommand::RplEndOfMotd => Command::RplEndOfMotd,
            RawCommand::Other(sp) => Command::Other(sp.get(src)),
        }
    }
}

impl<'src> Command<'src> {
    /// Get the string value of the [`Command`].
    pub fn as_str(&self) -> (r: &'src str)
        ensures
            r@ == command_name(*self),
    {
        match self {
            Command::Ping => "PING",
            Command::Pong => "PONG",
            Command::Join => "JOIN",
            Command::Part => "PART",
            Command::Privmsg => "PRIVMSG",
            Command::Whisper => "WHISPER",
            Command::ClearChat => "CLEARCHAT",
            Command::ClearMsg => "CLEARMSG",
            Command::GlobalUserState => "GLOBALUSERSTATE",
            Command::Notice => "NOTICE",
            Command::Reconnect => "RECONNECT",
            Command::RoomState => "ROOMSTATE",
            Command::UserNotice => "USERNOTICE",
            Command::UserState => "USERSTATE",
            Command::Capability => "CAP",
            Command::RplWelcome => "001",
            Command::RplYourHost => "002",
            Command::RplCreated => "003",
            Command::RplMyInfo => "004",
            Command::RplNames => "353",
            Command::RplEndOfNames => "366",
            Command::RplMotd => "372",
            Command::RplMotdStart => "375",
            Command::RplEndOfMotd => "376",
            Command::Other(cmd) => cmd,
        }
    }
}

fn known_command(w: &str) -> (r: Option<RawCommand>)
    ensures
        r == command_of_word(w@),
{
    let n = w.unicode_len();
    if n == 3 {
        if str_eq(w, "CAP") {
            return Some(RawCommand::Capability);
        }
        if str_eq(w, "001") {
            return Some(RawCommand::RplWelcome);
        }
        if str_eq(w, "002") {
            return Some(RawCommand::RplYourHost);
        }
        if str_eq(w, "003") {
            return Some(RawCommand::RplCreated);
        }
        if str_eq(w, "004") {
            return Some(RawCommand::RplMyInfo);
        }
        if str_eq(w, "353") {
            return Some(RawCommand::RplNamReply);
        }
        if str_eq(w, "366") {
            return Some(RawCommand::RplEndOfNames);
        }
        if str_eq(w, "372") {
            return Some(RawCommand::RplMotd);
        }
        if str_eq(w, "375") {
            return Some(RawCommand::RplMotdStart);
        }
        if str_eq(w, "376") {
            return Some(RawCommand::RplEndOfMotd);
        }
    } else if n == 4 {
        if str_eq(w, "PING") {
            return Some(RawCommand::Ping);
        }
        if str_eq(w, "PONG") {
            return Some(RawCommand::Pong);
        }
        if str_eq(w, "JOIN") {
            return Some(RawCommand::Join);
        }
        if str_eq(w, "PART") {
            return Some(RawCommand::Part);
        }
    } else if n == 6 {
        if str_eq(w, "NOTICE") {
            return Some(RawCommand::Notice);
        }
    } else if n == 7 {
        if str_eq(w, "PRIVMSG") {
            return Some(RawCommand::Privmsg);
        }
        if str_eq(w, "WHISPER") {
            return Some(RawCommand::Whisper);
        }
    } else if n == 8 {
        if str_eq(w, "CLEARMSG") {
            return Some(RawCommand::Clearmsg);
        }
    } else if n == 9 {
        if str_eq(w, "CLEARCHAT") {
            return Some(RawCommand::Clearchat);
        }
        if str_eq(w, "RECONNECT") {
            return Some(RawCommand::Reconnect);
        }
        if str_eq(w, "ROOMSTATE") {
            return Some(RawCommand::RoomState);
        }
        if str_eq(w, "USERSTATE") {
            return Some(RawCommand::UserState);
        }
    } else if n == 10 {
        if str_eq(w, "USERNOTICE") {
            return Some(RawCommand::UserNotice);
        }
    } else if n == 15 {
        if str_eq(w, "GLOBALUSERSTATE") {
            return Some(RawCommand::GlobalUserState);
        }
    }
    None
}

/// The end of the command word at `pos`, and the position after it.
pub open spec fn command_end(b: Seq<u8>, pos: int) -> (int, int) {
    match index_of(b, pos, b.len() as int, SPACE) {
        Some(e) => (e, e + 1),
        None => (b.len() as int, b.len() as int),
    }
}

/// What [`parse`] finds at `pos`: the word up to the next space (or the end)
/// is the command, and the position after the space.
/// An empty word is no command.
pub open spec fn spec_parse_command(b: Seq<u8>, pos: int) -> Option<(RawCommand, int)> {
    let (end, next) = command_end(b, pos);
    match command_of_word(text_at(b, pos, end)) {
        Some(c) => Some((c, next)),
        None => if end > pos {
            Some((RawCommand::Other(span(pos, end)), next))
        } else {
            None
        },
    }
}

/// `COMMAND <rest>`
///
/// Returns `None` if command is unknown *and* empty.
/// On success, `pos` moves past the space that ends the command.
pub fn parse(src: &str, pos: &mut usize) -> (r: Option<RawCommand>)
    requires
        bytes_of(src@).len() <= u32::MAX,
        *old(pos) <= bytes_of(src@).len(),
        is_char_boundary(bytes_of(src@), *old(pos) as int),
    ensures
        match spec_parse_command(bytes_of(src@), *old(pos) as int) {
            Some((c, next)) => r == Some(c) && *final(pos) == next,
            None => r is None && *final(pos) == *old(pos),
        },
        r matches Some(c) ==> c.ok(bytes_of(src@)),
        is_char_boundary(bytes_of(src@), *final(pos) as int),
{
    let b = src.as_bytes();
    let ghost bs = b@;
    let p = *pos;
    proof {
        lemma_index_of(bs, p as int, bs.len() as int, SPACE);
        lemma_ends_boundary(bs);
    }
    let (end, next) = match find_byte(b, p, b.len(), SPACE) {
        Some(e) => {
            proof {
                lemma_ascii_boundary(bs, e as int);
            }
            (e, e + 1)
        },
        None => (b.len(), b.len()),
    };
    let word = substr(src, p, end);
    match known_command(word) {
        Some(c) => {
            *pos = next;
            Some(c)
        },
        None => if end > p {
            *pos = next;
            Some(RawCommand::Other(Span::new(p as u32, end as u32)))
        } else {
            None
        },
    }
}


/// Reading the name of a known command gives the command back.
pub proof fn lemma_command_name_roundtrip(c: Command)
    requires
        !(c is Other),
    ensures
        command_of_word(command_name(c)) matches Some(raw) && command_matches(c, raw),
{
    match c {
        Command::Capability => reveal_strlit("CAP"),
        Command::RplWelcome => {
            reveal_strlit("001");
            reveal_strlit("CAP");
            lemma_chars_differ("001", "CAP", 0);
        },
        Command::RplYourHost => {
            reveal_strlit("002");
            reveal_strlit("CAP");
            lemma_chars_differ("002", "CAP", 0);
            reveal_strlit("001");
            lemma_chars_differ("002", "001", 2);
        },
        Command::RplCreated => {
            reveal_strlit("003");
            reveal_strlit("CAP");
            lemma_chars_differ("003", "CAP", 0);
            reveal_strlit("001");
            lemma_chars_differ("003", "001", 2);
            reveal_strlit("002");
            lemma_chars_differ("003", "002", 2);
        },
        Command::RplMyInfo => {
            reveal_strlit("004");
            reveal_strlit("CAP");
            lemma_chars_differ("004", "CAP", 0);
            reveal_strlit("001");
            lemma_chars_differ("004", "001", 2);
            reveal_strlit("002");
            lemma_chars_differ("004", "002", 2);
            reveal_strlit("003");
            lemma_chars_differ("004", "003", 2);
        },
        Command::RplNames => {
            reveal_strlit("353");
            reveal_strlit("CAP");
            lemma_chars_differ("353", "CAP", 0);
            reveal_strlit("001");
            lemma_chars_differ("353", "001", 0);
            reveal_strlit("002");
            lemma_chars_differ("353", "002", 0);
            reveal_strlit("003");
            lemma_chars_differ("353", "003", 0);
            reveal_strlit("004");
            lemma_chars_differ("353", "004", 0);
        },
        Command::RplEndOfNames => {
            reveal_strlit("366");
            reveal_strlit("CAP");
            lemma_chars_differ("366", "CAP", 0);
            reveal_strlit("001");
            lemma_chars_differ("366", "001", 0);
            reveal_strlit("002");
            lemma_chars_differ("366", "002", 0);
            reveal_strlit("003");
            lemma_chars_differ("366", "003", 0);
            reveal_strlit("004");
            lemma_chars_differ("366", "004", 0);
            reveal_strlit("353");
            lemma_chars_differ("366", "353", 1);
        },
        Command::RplMotd => {
            reveal_strlit("372");
            reveal_strlit("CAP");
            lemma_chars_differ("372", "CAP", 0);
            reveal_strlit("001");
            lemma_chars_differ("372", "001", 0);
            reveal_strlit("002");
            lemma_chars_differ("372", "002", 0);
            reveal_strlit("003");
            lemma_chars_differ("372", "003", 0);
            reveal_strlit("004");
            lemma_chars_differ("372", "004", 0);
            reveal_strlit("353");
            lemma_chars_differ("372", "353", 1);
            reveal_strlit("366");
            lemma_chars_differ("372", "366", 1);
        },
        Command::RplMotdStart => {
            reveal_strlit("375");
            reveal_strlit("CAP");
            lemma_chars_differ("375", "CAP", 0);
            reveal_strlit("001");
            lemma_chars_differ("375", "001", 0);
            reveal_strlit("002");
            lemma_chars_differ("375", "002", 0);
            reveal_strlit("003");
            lemma_chars_differ("375", "003", 0);
            reveal_strlit("004");
            lemma_chars_differ("375", "004", 0);
            reveal_strlit("353");
            lemma_chars_differ("375", "353", 1);
            reveal_strlit("366");
            lemma_chars_differ("375", "366", 1);
            reveal_strlit("372");
            lemma_chars_differ("375", "372", 2);
        },
        Command::RplEndOfMotd => {
            reveal_strlit("376");
            reveal_strlit("CAP");
            lemma_chars_differ("376", "CAP", 0);
            reveal_strlit("001");
            lemma_chars_differ("376", "001", 0);
            reveal_strlit("002");
            lemma_chars_differ("376", "002", 0);
            reveal_strlit("003");
            lemma_chars_differ("376", "003", 0);
            reveal_strlit("004");
            lemma_chars_differ("376", "004", 0);
            reveal_strlit("353");
            lemma_chars_differ("376", "353", 1);
            reveal_strlit("366");
            lemma_chars_differ("376", "366", 1);
            reveal_strlit("372");
            lemma_chars_differ("376", "372", 2);
            reveal_strlit("375");
            lemma_chars_differ("376", "375", 2);
        },
        Command::Ping => reveal_strlit("PING"),
        Command::Pong => {
            reveal_strlit("PONG");
            reveal_strlit("PING");
            lemma_chars_differ("PONG", "PING", 1);
        },
        Command::Join => {
            reveal_strlit("JOIN");
            reveal_strlit("PING");
            lemma_chars_differ("JOIN", "PING", 0);
            reveal_strlit("PONG");
            lemma_chars_differ("JOIN", "PONG", 0);
        },
        Command::Part => {
            reveal_strlit("PART");
            reveal_strlit("PING");
            lemma_chars_differ("PART", "PING", 1);
            reveal_strlit("PONG");
            lemma_chars_differ("PART", "PONG", 1);
            reveal_strlit("JOIN");
            lemma_chars_differ("PART", "JOIN", 0);
        },
        Command::Notice => reveal_strlit("NOTICE"),
        Command::Privmsg => reveal_strlit("PRIVMSG"),
        Command::Whisper => {
            reveal_strlit("WHISPER");
            reveal_strlit("PRIVMSG");
            lemma_chars_differ("WHISPER", "PRIVMSG", 0);
        },
        Command::ClearMsg => reveal_strlit("CLEARMSG"),
        Command::ClearChat => reveal_strlit("CLEARCHAT"),
        Command::Reconnect => {
            reveal_strlit("RECONNECT");
            reveal_strlit("CLEARCHAT");
            lemma_chars_differ("RECONNECT", "CLEARCHAT", 0);
        },
        Command::RoomState => {
            reveal_strlit("ROOMSTATE");
            reveal_strlit("CLEARCHAT");
            lemma_chars_differ("ROOMSTATE", "CLEARCHAT", 0);
            reveal_strlit("RECONNECT");
            lemma_chars_differ("ROOMSTATE", "RECONNECT", 1);
        },
        Command::UserState => {
            reveal_strlit("USERSTATE");
            reveal_strlit("CLEARCHAT");
            lemma_chars_differ("USERSTATE", "CLEARCHAT", 0);
            reveal_strlit("RECONNECT");
            lemma_chars_differ("USERSTATE", "RECONNECT", 0);
            reveal_strlit("ROOMSTATE");
            lemma_chars_differ("USERSTATE", "ROOMSTATE", 0);
        },
        Command::UserNotice => reveal_strlit("USERNOTICE"),
        Command::GlobalUserState => reveal_strlit("GLOBALUSERSTATE"),
        _ => {},
    }
}

/// The command is the word at `p`, up to the next space or the end: there is none
/// exactly when the word is empty, and its name is the word.
pub proof fn lemma_command_token(b: Seq<u8>, p: int)
    requires
        0 <= p <= b.len() <= u32::MAX,
    ensures
        spec_parse_command(b, p) is None <==> command_end(b, p).0 == p,
        spec_parse_command(b, p) matches Some((c, next)) ==> raw_command_name(b, c) == text_at(
            b,
            p,
            command_end(b, p).0,
        ) && next == command_end(b, p).1,
{
    lemma_index_of(b, p, b.len() as int, SPACE);
    let end = command_end(b, p).0;
    if end == p {
        assert(b.subrange(p, p) =~= Seq::<u8>::empty());
        assert(text_at(b, p, p) =~= Seq::<char>::empty());
    }
}

} // verus!
