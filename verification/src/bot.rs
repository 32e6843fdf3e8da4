//! A bot: the configuration it connects with, the channels it joins, and what it keeps
//! of each joined channel.
use vstd::prelude::*;
use vstd::string::StringExecFns;
use crate::client::channel::Channel;
use crate::client::write::{bypass_suffix, channel_text, join_line, part_line, privmsg_line, privmsg_text, SameMessageBypass};
use crate::client::{anon_login, Backoff, Config, Credentials, DEFAULT_TIMEOUT};
use crate::strings::strs_view;

verus! {

broadcast use vstd::string::group_string_axioms;

/// A bot's setup: the configuration it connects with and the channels it joins.
#[derive(Debug)]
pub struct Bot {
    config: Config,
    channels: Vec<String>,
}

/// The characters of each string.
pub open spec fn strings_view(v: Seq<String>) -> Seq<Seq<char>> {
    v.map_values(|s: String| s@)
}

impl Bot {
    /// The configuration.
    pub closed spec fn config(self) -> Config {
        self.config
    }

    /// The channels to join.
    pub closed spec fn channel_names(self) -> Seq<Seq<char>> {
        strings_view(self.channels@)
    }

    /// A bot with the default configuration, which logs in anonymously, and no channels.
    pub fn new() -> (r: Bot)
        ensures
            r.config().credentials.token is None,
            anon_login(r.config().credentials.login@),
            r.config().timeout == DEFAULT_TIMEOUT,
            r.config().backoff == (Backoff { max_tries: Some(8), initial_delay: 1000, delay_multiplier: 3, max_delay: 12000 }),
            r.channel_names() == Seq::<Seq<char>>::empty(),
    {
        let channels: Vec<String> = Vec::new();
        assert(strings_view(channels@) =~= Seq::<Seq<char>>::empty());
        Bot { config: Config::default(), channels }
    }

    /// Sets the credentials; without any the bot logs in anonymously.
    pub fn auth(self, auth: Option<Credentials>) -> (r: Bot)
        ensures
            r.channel_names() == self.channel_names(),
            r.config().timeout == self.config().timeout,
            r.config().backoff == self.config().backoff,
            match auth {
                Some(c) => r.config().credentials == c,
                None => r.config().credentials.token is None && anon_login(r.config().credentials.login@),
            },
    {
        let mut b = self;
        b.config.credentials = match auth {
            Some(c) => c,
            None => Credentials::anon(),
        };
        b
    }

    /// Sets the channels to join.
    pub fn channels(self, channels: Vec<String>) -> (r: Bot)
        ensures
            r.config() == self.config(),
            r.channel_names() == strings_view(channels@),
    {
        let mut b = self;
        b.channels = channels;
        b
    }

    /// The configuration and the channels, to start the bot with.
    pub fn into_parts(self) -> (r: (Config, Vec<String>))
        ensures
            r.0 == self.config(),
            strings_view(r.1@) == self.channel_names(),
    {
        (self.config, self.channels)
    }
}

impl Default for Bot {
    fn default() -> (r: Bot)
        ensures
            r.config().credentials.token is None,
            r.channel_names() == Seq::<Seq<char>>::empty(),
    {
        Bot::new()
    }
}

/// The joined channels and, for each, whether its same-message bypass appends next.
pub open spec fn channels_map(v: Seq<Channel>) -> Map<Seq<char>, bool>
    decreases v.len(),
{
    if v.len() == 0 {
        Map::empty()
    } else {
        channels_map(v.drop_last()).insert(v.last().name@, v.last().smb.appends())
    }
}

/// No two channels have the same name.
pub open spec fn distinct_names(v: Seq<Channel>) -> bool {
    forall|i: int, j: int| 0 <= i < j < v.len() ==> v[i].name@ != v[j].name@
}

/// A name is in the map exactly when a channel has it, and maps to that channel's bypass.
proof fn lemma_channels_map(v: Seq<Channel>)
    requires
        distinct_names(v),
    ensures
        forall|k: Seq<char>| #[trigger] channels_map(v).contains_key(k) <==> exists|i: int| 0 <= i < v.len() && v[i].name@ == k,
        forall|i: int| 0 <= i < v.len() ==> #[trigger] channels_map(v)[v[i].name@] == v[i].smb.appends(),
    decreases v.len(),
{
    if v.len() > 0 {
        let w = v.drop_last();
        assert(distinct_names(w));
        lemma_channels_map(w);
        assert forall|k: Seq<char>| #[trigger] channels_map(v).contains_key(k) <==> exists|i: int| 0 <= i < v.len() && v[i].name@ == k by {
            if channels_map(w).contains_key(k) {
                let i = choose|i: int| 0 <= i < w.len() && w[i].name@ == k;
                assert(v[i] == w[i]);
            }
            if exists|i: int| 0 <= i < v.len() && v[i].name@ == k {
                let i = choose|i: int| 0 <= i < v.len() && v[i].name@ == k;
                if i < v.len() - 1 {
                    assert(w[i] == v[i]);
                }
            }
        }
        assert forall|i: int| 0 <= i < v.len() implies #[trigger] channels_map(v)[v[i].name@] == v[i].smb.appends() by {
            if i < v.len() - 1 {
                assert(w[i] == v[i]);
                assert(v[i].name@ != v.last().name@);
                assert(channels_map(w)[w[i].name@] == w[i].smb.appends());
            }
        }
    }
}

/// Every map with the same keys and values is the map of the channels.
proof fn lemma_channels_map_ext(v: Seq<Channel>, m: Map<Seq<char>, bool>)
    requires
        distinct_names(v),
        forall|k: Seq<char>| #[trigger] m.contains_key(k) <==> exists|i: int| 0 <= i < v.len() && v[i].name@ == k,
        forall|i: int| 0 <= i < v.len() ==> #[trigger] m[v[i].name@] == v[i].smb.appends(),
    ensures
        channels_map(v) == m,
{
    lemma_channels_map(v);
    assert forall|k: Seq<char>| #[trigger] channels_map(v).contains_key(k) implies channels_map(v)[k] == m[k] by {
        let i = choose|i: int| 0 <= i < v.len() && v[i].name@ == k;
    }
    assert(channels_map(v) =~= m);
}

/// The joined channels of a bot, each with its same-message bypass.
#[derive(Debug)]
pub struct ChannelStates {
    channels: Vec<Channel>,
}

impl View for ChannelStates {
    type V = Map<Seq<char>, bool>;

    closed spec fn view(&self) -> Map<Seq<char>, bool> {
        channels_map(self.channels@)
    }
}

impl ChannelStates {
    #[verifier::type_invariant]
    spec fn inv(self) -> bool {
        distinct_names(self.channels@)
    }

    /// No channel joined yet.
    pub fn new() -> (r: ChannelStates)
        ensures
            r@ == Map::<Seq<char>, bool>::empty(),
    {
        ChannelStates { channels: Vec::new() }
    }

    /// The index of the channel named `name`.
    fn position(&self, name: &str) -> (r: Option<usize>)
        ensures
            match r {
                Some(i) => i < self.channels@.len() && self.channels@[i as int].name@ == name@,
                None => forall|i: int| 0 <= i < self.channels@.len() ==> self.channels@[i].name@ != name@,
            },
    {
        let mut i: usize = 0;
        while i < self.channels.len()
            invariant
                i <= self.channels@.len(),
                forall|k: int| 0 <= k < i ==> self.channels@[k].name@ != name@,
            decreases self.channels@.len() - i,
        {
            if crate::text::str_eq(self.channels[i].name.as_str(), name) {
                return Some(i);
            }
            i = i + 1;
        }
        None
    }

    /// Whether the channel named `name` is joined.
    pub fn contains(&self, name: &str) -> (r: bool)
        ensures
            r == self@.contains_key(name@),
    {
        proof {
            use_type_invariant(self);
            lemma_channels_map(self.channels@);
        }
        match self.position(name) {
            Some(i) => {
                assert(self.channels@[i as int].name@ == name@);
                true
            },
            None => false,
        }
    }

    /// The names of the joined channels.
    pub fn names(&self) -> (r: Vec<&str>)
        ensures
            forall|k: Seq<char>| self@.contains_key(k) <==> strs_view(r@).contains(k),
            r@.len() == self@.len(),
    {
        proof {
            use_type_invariant(self);
            lemma_channels_map(self.channels@);
        }
        let mut out: Vec<&str> = Vec::new();
        let mut i: usize = 0;
        while i < self.channels.len()
            invariant
                i <= self.channels@.len(),
                out@.len() == i,
                forall|k: int| 0 <= k < i ==> out@[k]@ == self.channels@[k].name@,
            decreases self.channels@.len() - i,
        {
            out.push(self.channels[i].name.as_str());
            i = i + 1;
        }
        proof {
            assert forall|k: Seq<char>| self@.contains_key(k) <==> strs_view(out@).contains(k) by {
                if self@.contains_key(k) {
                    let j = choose|j: int| 0 <= j < self.channels@.len() && self.channels@[j].name@ == k;
                    assert(strs_view(out@)[j] == k);
                }
                if strs_view(out@).contains(k) {
                    let j = choose|j: int| 0 <= j < strs_view(out@).len() && strs_view(out@)[j] == k;
                    assert(self.channels@[j].name@ == k);
                }
            }
            lemma_map_len(self.channels@);
        }
        out
    }

    /// Joins the channel named `name`, unless it is already joined; the result says
    /// whether it was joined now, so that a `JOIN` must be sent.
    pub fn maybe_join(&mut self, name: String) -> (r: bool)
        ensures
            r == !old(self)@.contains_key(name@),
            final(self)@ == if r {
                old(self)@.insert(name@, false)
            } else {
                old(self)@
            },
    {
        proof {
            use_type_invariant(&*self);
            lemma_channels_map(self.channels@);
        }
        match self.position(name.as_str()) {
            Some(i) => {
                assert(self.channels@[i as int].name@ == name@);
                false
            },
            None => {
                let ghost before = self.channels@;
                let smb = SameMessageBypass::default();
                let c = Channel { name, smb };
                let mut channels: Vec<Channel> = Vec::new();
                std::mem::swap(&mut channels, &mut self.channels);
                channels.push(c);
                assert(channels@.drop_last() =~= before);
                assert(distinct_names(channels@));
                self.channels = channels;
                true
            },
        }
    }

    /// Leaves the channel named `name`, if it is joined; the result says whether it was
    /// joined, so that a `PART` must be sent.
    pub fn maybe_part(&mut self, name: &str) -> (r: bool)
        ensures
            r == old(self)@.contains_key(name@),
            final(self)@ == old(self)@.remove(name@),
    {
        proof {
            use_type_invariant(&*self);
            lemma_channels_map(self.channels@);
        }
        match self.position(name) {
            Some(i) => {
                let ghost before = self.channels@;
                let mut channels: Vec<Channel> = Vec::new();
                std::mem::swap(&mut channels, &mut self.channels);
                channels.remove(i);
                proof {
                    let v = channels@;
                    assert(v =~= before.remove(i as int));
                    assert(distinct_names(v)) by {
                        assert forall|a: int, b: int| 0 <= a < b < v.len() implies v[a].name@ != v[b].name@ by {
                            let a0 = if a < i { a } else { a + 1 };
                            let b0 = if b < i { b } else { b + 1 };
                            assert(v[a] == before[a0] && v[b] == before[b0]);
                        }
                    }
                    let m = channels_map(before).remove(name@);
                    assert forall|k: Seq<char>| #[trigger] m.contains_key(k) <==> exists|j: int| 0 <= j < v.len() && v[j].name@ == k by {
                        if m.contains_key(k) {
                            let j0 = choose|j: int| 0 <= j < before.len() && before[j].name@ == k;
                            assert(j0 != i);
                            let j = if j0 < i { j0 } else { j0 - 1 };
                            assert(v[j] == before[j0]);
                        }
                        if exists|j: int| 0 <= j < v.len() && v[j].name@ == k {
                            let j = choose|j: int| 0 <= j < v.len() && v[j].name@ == k;
                            let j0 = if j < i { j } else { j + 1 };
                            assert(v[j] == before[j0]);
                            assert(j0 != i);
                        }
                    }
                    assert forall|j: int| 0 <= j < v.len() implies #[trigger] m[v[j].name@] == v[j].smb.appends() by {
                        let j0 = if j < i { j } else { j + 1 };
                        assert(v[j] == before[j0]);
                        assert(j0 != i);
                    }
                    lemma_channels_map_ext(v, m);
                }
                self.channels = channels;
                true
            },
            None => {
                proof {
                    assert(!channels_map(self.channels@).contains_key(name@));
                    assert(channels_map(self.channels@).remove(name@) =~= channels_map(self.channels@));
                }
                false
            },
        }
    }

    /// The same-message bypass to append to a message sent to the channel named `name`;
    /// a channel that is not joined yet is added first.
    pub fn bypass(&mut self, name: &str) -> (r: &'static str)
        ensures
            r@ == (if old(self)@.contains_key(name@) && old(self)@[name@] {
                bypass_suffix()
            } else {
                Seq::<char>::empty()
            }),
            final(self)@ == old(self)@.insert(
                name@,
                !(old(self)@.contains_key(name@) && old(self)@[name@]),
            ),
    {
        proof {
            use_type_invariant(&*self);
        }
        let _ = self.maybe_join(String::from_str(name));
        proof {
            use_type_invariant(&*self);
            lemma_channels_map(self.channels@);
        }
        let i = match self.position(name) {
            Some(i) => i,
            None => {
                proof {
                    assert(self@.contains_key(name@));
                    let j = choose|j: int| 0 <= j < self.channels@.len() && self.channels@[j].name@ == name@;
                    assert(false);
                }
                0
            },
        };
        let ghost before = self.channels@;
        let mut channels: Vec<Channel> = Vec::new();
        std::mem::swap(&mut channels, &mut self.channels);
        let mut c = channels.remove(i);
        let ghost c_old = c;
        proof {
            assert(c_old == before[i as int]);
            assert(channels_map(before)[name@] == c_old.smb.appends());
        }
        let out = c.smb.get();
        channels.insert(i, c);
        proof {
            let v = channels@;
            assert(v =~= before.update(i as int, c));
            assert(distinct_names(v)) by {
                assert forall|a: int, b: int| 0 <= a < b < v.len() implies v[a].name@ != v[b].name@ by {
                    assert(v[a].name@ == before[a].name@ && v[b].name@ == before[b].name@);
                }
            }
            let m = channels_map(before).insert(name@, c.smb.appends());
            assert forall|k: Seq<char>| #[trigger] m.contains_key(k) <==> exists|j: int| 0 <= j < v.len() && v[j].name@ == k by {
                if m.contains_key(k) && k != name@ {
                    let j = choose|j: int| 0 <= j < before.len() && before[j].name@ == k;
                    assert(v[j].name@ == before[j].name@);
                }
                if k == name@ {
                    assert(v[i as int].name@ == k);
                }
                if exists|j: int| 0 <= j < v.len() && v[j].name@ == k {
                    let j = choose|j: int| 0 <= j < v.len() && v[j].name@ == k;
                    assert(v[j].name@ == before[j].name@);
                }
            }
            assert forall|j: int| 0 <= j < v.len() implies #[trigger] m[v[j].name@] == v[j].smb.appends() by {
                if j != i {
                    assert(v[j] == before[j]);
                    assert(before[j].name@ != before[i as int].name@);
                }
            }
            lemma_channels_map_ext(v, m);
        }
        self.channels = channels;
        out
    }
}

/// The map of distinct channels has one key per channel.
proof fn lemma_map_len(v: Seq<Channel>)
    requires
        distinct_names(v),
    ensures
        channels_map(v).len() == v.len(),
        channels_map(v).dom().finite(),
    decreases v.len(),
{
    if v.len() > 0 {
        let w = v.drop_last();
        assert(distinct_names(w));
        lemma_map_len(w);
        lemma_channels_map(w);
        assert(!channels_map(w).contains_key(v.last().name@)) by {
            if channels_map(w).contains_key(v.last().name@) {
                let i = choose|i: int| 0 <= i < w.len() && w[i].name@ == v.last().name@;
                assert(v[i] == w[i]);
            }
        }
    }
}

/// What a bot's handle asks its runtime to do.
#[derive(Debug)]
pub enum Command {
    /// Join a channel.
    Join { channel: String },
    /// Join several channels, in order.
    JoinAll { channels: Vec<String> },
    /// Leave a channel.
    Part { channel: String },
    /// Send a message to a channel, optionally as a reply to the message with id `reply_to`.
    Privmsg { channel: String, text: String, reply_to: Option<String> },
}

impl Command {
    /// The request to send `text` to `channel`, optionally as a reply; an anonymous
    /// sender cannot send messages, so there is no request for it.
    pub fn privmsg(is_anon: bool, channel: String, text: String, reply_to: Option<String>) -> (r: Option<Command>)
        ensures
            is_anon ==> r is None,
            !is_anon ==> r == Some(Command::Privmsg { channel, text, reply_to }),
    {
        if is_anon {
            None
        } else {
            Some(Command::Privmsg { channel, text, reply_to })
        }
    }
}

/// The `JOIN` line for one channel.
pub open spec fn join_text(c: Seq<char>) -> Seq<char> {
    "JOIN "@ + channel_text(c) + "\r\n"@
}

/// The `PART` line for one channel.
pub open spec fn part_text(c: Seq<char>) -> Seq<char> {
    "PART "@ + channel_text(c) + "\r\n"@
}

/// Joining one channel: a `JOIN` line and a fresh bypass, unless it is joined already.
pub open spec fn join_step(m: Map<Seq<char>, bool>, c: Seq<char>) -> (Seq<Seq<char>>, Map<Seq<char>, bool>) {
    if m.contains_key(c) {
        (Seq::empty(), m)
    } else {
        (seq![join_text(c)], m.insert(c, false))
    }
}

/// Leaving one channel: a `PART` line, if it is joined.
pub open spec fn part_step(m: Map<Seq<char>, bool>, c: Seq<char>) -> (Seq<Seq<char>>, Map<Seq<char>, bool>) {
    if m.contains_key(c) {
        (seq![part_text(c)], m.remove(c))
    } else {
        (Seq::empty(), m)
    }
}

/// Joining channels one after the other.
pub open spec fn join_steps(m: Map<Seq<char>, bool>, cs: Seq<Seq<char>>) -> (Seq<Seq<char>>, Map<Seq<char>, bool>)
    decreases cs.len(),
{
    if cs.len() == 0 {
        (Seq::empty(), m)
    } else {
        let (lines, m1) = join_steps(m, cs.drop_last());
        let (more, m2) = join_step(m1, cs.last());
        (lines + more, m2)
    }
}

/// The characters of an optional string.
pub open spec fn opt_string_view(o: Option<String>) -> Option<Seq<char>> {
    match o {
        Some(s) => Some(s@),
        None => None,
    }
}

/// What a command makes the runtime send, and the channels afterwards.
pub open spec fn command_step(m: Map<Seq<char>, bool>, cmd: Command) -> (Seq<Seq<char>>, Map<Seq<char>, bool>) {
    match cmd {
        Command::Join { channel } => join_step(m, channel@),
        Command::JoinAll { channels } => join_steps(m, strings_view(channels@)),
        Command::Part { channel } => part_step(m, channel@),
        Command::Privmsg { channel, text, reply_to } => {
            let appends = m.contains_key(channel@) && m[channel@];
            let suffix = if appends {
                bypass_suffix()
            } else {
                Seq::<char>::empty()
            };
            (
                seq![privmsg_text(channel@, text@ + suffix, opt_string_view(reply_to), None)],
                m.insert(channel@, !appends),
            )
        },
    }
}

impl ChannelStates {
    /// Joins one channel unless it is joined; the lines to send go to `out`.
    fn join_into(&mut self, channel: String, out: &mut Vec<String>)
        ensures
            strings_view(final(out)@) == strings_view(old(out)@) + join_step(old(self)@, channel@).0,
            final(self)@ == join_step(old(self)@, channel@).1,
    {
        let line = join_line(channel.as_str());
        let ghost c = channel@;
        let ghost before = out@;
        if self.maybe_join(channel) {
            out.push(line);
            assert(strings_view(out@) =~= strings_view(before) + seq![join_text(c)]);
        } else {
            assert(strings_view(out@) =~= strings_view(before) + Seq::<Seq<char>>::empty());
        }
    }

    /// Carries out a command: updates the channels and gives the lines to send, in order.
    pub fn handle(&mut self, cmd: Command) -> (r: Vec<String>)
        ensures
            (strings_view(r@), final(self)@) == command_step(old(self)@, cmd),
    {
        let ghost m = self@;
        let mut out: Vec<String> = Vec::new();
        match cmd {
            Command::Join { channel } => {
                self.join_into(channel, &mut out);
                assert(strings_view(out@) =~= join_step(m, channel@).0);
            },
            Command::JoinAll { channels } => {
                let ghost cs = strings_view(channels@);
                let mut i: usize = 0;
                assert(strings_view(out@) =~= join_steps(m, cs.take(0)).0);
                while i < channels.len()
                    invariant
                        i <= channels@.len(),
                        cs == strings_view(channels@),
                        (strings_view(out@), self@) == join_steps(m, cs.take(i as int)),
                    decreases channels@.len() - i,
                {
                    let channel = channels[i].clone();
                    self.join_into(channel, &mut out);
                    proof {
                        assert(cs.take(i + 1).drop_last() =~= cs.take(i as int));
                        assert(cs.take(i + 1).last() == cs[i as int]);
                        assert(strings_view(out@) =~= join_steps(m, cs.take(i + 1)).0);
                    }
                    i = i + 1;
                }
                assert(cs.take(i as int) =~= cs);
            },
            Command::Part { channel } => {
                let line = part_line(channel.as_str());
                if self.maybe_part(channel.as_str()) {
                    out.push(line);
                    assert(strings_view(out@) =~= seq![part_text(channel@)]);
                } else {
                    assert(strings_view(out@) =~= Seq::<Seq<char>>::empty());
                }
            },
            Command::Privmsg { channel, text, reply_to } => {
                let suffix = self.bypass(channel.as_str());
                let mut body = text;
                body.append(suffix);
                let line = match &reply_to {
                    Some(r) => privmsg_line(channel.as_str(), body.as_str(), Some(r.as_str()), None),
                    None => privmsg_line(channel.as_str(), body.as_str(), None, None),
                };
                out.push(line);
                assert(strings_view(out@) =~= seq![line@]);
            },
        }
        out
    }
}

/// Joining a channel and then leaving it sends a `PART` for it, and leaves the other
/// channels as they were.
pub proof fn lemma_join_then_part(m: Map<Seq<char>, bool>, c: Seq<char>)
    ensures
        part_step(join_step(m, c).1, c).0 == seq![part_text(c)],
        part_step(join_step(m, c).1, c).1 == m.remove(c),
{
    if !m.contains_key(c) {
        assert(m.insert(c, false).remove(c) =~= m.remove(c));
    }
}

/// Joining a channel that was just joined sends nothing and changes nothing.
pub proof fn lemma_join_twice(m: Map<Seq<char>, bool>, c: Seq<char>)
    ensures
        join_step(join_step(m, c).1, c) == (Seq::<Seq<char>>::empty(), join_step(m, c).1),
{
}

/// Leaving a channel that is not joined sends nothing and changes nothing.
pub proof fn lemma_part_unjoined(m: Map<Seq<char>, bool>, c: Seq<char>)
    requires
        !m.contains_key(c),
    ensures
        part_step(m, c) == (Seq::<Seq<char>>::empty(), m),
{
}

/// Two messages in a row to one channel differ in their bypass: exactly one of them
/// carries the suffix.
pub proof fn lemma_privmsg_alternates(m: Map<Seq<char>, bool>, channel: String, t1: String, t2: String)
    ensures
        ({
            let (l1, m1) = command_step(m, Command::Privmsg { channel: channel, text: t1, reply_to: None });
            let (l2, m2) = command_step(m1, Command::Privmsg { channel: channel, text: t2, reply_to: None });
            ||| l1 == seq![privmsg_text(channel@, t1@ + bypass_suffix(), None, None)]
                && l2 == seq![privmsg_text(channel@, t2@, None, None)]
            ||| l1 == seq![privmsg_text(channel@, t1@, None, None)]
                && l2 == seq![privmsg_text(channel@, t2@ + bypass_suffix(), None, None)]
        }),
{
    assert(t1@ + Seq::<char>::empty() =~= t1@);
    assert(t2@ + Seq::<char>::empty() =~= t2@);
}

} // verus!
