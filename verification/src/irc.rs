//! ## IRCv3 Message parser
//!
//! The entrypoint to this module is [`IrcMessage`].
//!
//! ⚠ This parser is _not_ compliant with the IRCv3 spec!
//! It assumes that it will only ever parse messages sent by Twitch,
//! which means it handles Twitch-specific quirks, but it also means
//! that it's unlikely to work for IRC messages sent by other servers.
use vstd::prelude::*;
use vstd::string::StringExecFns;
use crate::common::{span_ok, span_text, Span};
use crate::text::{bytes_of, find_byte, index_of, lemma_ascii_boundary, lemma_index_of, lemma_index_of_shift, lemma_prefix_boundary, str_eq, substr, text_at};

pub mod tags;
pub mod prefix;
pub mod command;
pub mod channel;
pub mod params;
pub mod wide;

pub use command::{Command, RawCommand};
pub use prefix::{Prefix, RawPrefix};
pub use tags::{RawTags, Tag, TagPair};
pub use crate::unescape::unescape;

use command::{command_end, command_matches, command_name, lemma_command_token, raw_command_name, spec_parse_command};
use channel::spec_parse_channel;
use params::spec_parse_params;
use prefix::{opt_span_ok, opt_text, opt_view, spec_parse_prefix};
use tags::{lemma_tag_name_roundtrip, pairs_ok, spec_parse_tags, tag_name};

verus! {

broadcast use vstd::utf8::group_utf8_lib;

/// `':'`
pub const COLON: u8 = 58;

/// Where the parts of a message lie in it.
pub struct Layout {
    /// The tag pairs.
    pub tags: Seq<TagPair>,
    /// The prefix.
    pub prefix: Option<RawPrefix>,
    /// The command.
    pub command: RawCommand,
    /// The channel.
    pub channel: Option<Span>,
    /// The params.
    pub params: Option<Span>,
}

impl Layout {
    /// Every range is well formed in `b`.
    pub open spec fn ok(self, b: Seq<u8>) -> bool {
        &&& pairs_ok(b, self.tags)
        &&& match self.prefix {
            Some(p) => p.ok(b),
            None => true,
        }
        &&& self.command.ok(b)
        &&& opt_span_ok(b, self.channel)
        &&& opt_span_ok(b, self.params)
    }
}

/// How a message is read: optional tags, an optional prefix, the command
/// (without which there is no message), an optional channel, and the rest as params.
pub open spec fn spec_parse(b: Seq<u8>) -> Option<Layout> {
    let (tags, p1) = match spec_parse_tags(b, 0) {
        Some((t, p)) => (t, p),
        None => (Seq::<TagPair>::empty(), 0int),
    };
    let (prefix, p2) = match spec_parse_prefix(b, p1) {
        Some((x, p)) => (Some(x), p),
        None => (None, p1),
    };
    match spec_parse_command(b, p2) {
        Some((command, p3)) => {
            let (channel, p4) = match spec_parse_channel(b, p3) {
                Some((c, p)) => (Some(c), p),
                None => (None, p3),
            };
            Some(Layout { tags, prefix, command, channel, params: spec_parse_params(b, p4) })
        },
        None => None,
    }
}

/// The value of the first tag pair whose key is `name`.
pub open spec fn lookup(b: Seq<u8>, pairs: Seq<TagPair>, name: Seq<char>) -> Option<Seq<char>>
    decreases pairs.len(),
{
    if pairs.len() == 0 {
        None
    } else if span_text(b, pairs[0].key) == name {
        Some(span_text(b, pairs[0].value))
    } else {
        lookup(b, pairs.drop_first(), name)
    }
}

/// The params after their first `:`, or all of them if there is no `:`.
pub open spec fn params_text(b: Seq<u8>, params: Option<Span>) -> Option<Seq<char>> {
    match params {
        Some(p) => match index_of(b, p.start as int, p.end as int, COLON) {
            Some(i) => Some(text_at(b, i + 1, p.end as int)),
            None => Some(span_text(b, p)),
        },
        None => None,
    }
}

/// The params after their first `:`, and nothing if there is no `:`.
pub open spec fn params_trailing(b: Seq<u8>, params: Option<Span>) -> Option<Seq<char>> {
    match params {
        Some(p) => match index_of(b, p.start as int, p.end as int, COLON) {
            Some(i) => Some(text_at(b, i + 1, p.end as int)),
            None => None,
        },
        None => None,
    }
}

/// `v` holds the characters of the key and the value of each tag pair.
pub open spec fn pairs_match(b: Seq<u8>, pairs: Seq<TagPair>, v: Seq<(&str, &str)>) -> bool {
    &&& v.len() == pairs.len()
    &&& forall|j: int|
        0 <= j < v.len() ==> (#[trigger] v[j]).0@ == span_text(b, pairs[j].key) && v[j].1@
            == span_text(b, pairs[j].value)
}

/// The ranges of the parts of a message.
#[derive(Debug)]
pub struct IrcMessageParts {
    tags: RawTags,
    prefix: Option<RawPrefix>,
    command: RawCommand,
    channel: Option<Span>,
    params: Option<Span>,
}

impl IrcMessageParts {
    /// Where the parts lie.
    pub closed spec fn layout(self) -> Layout {
        Layout {
            tags: self.tags.0@,
            prefix: self.prefix,
            command: self.command,
            channel: self.channel,
            params: self.params,
        }
    }

    /// These are the parts of the message `src`.
    pub open spec fn of(self, src: Seq<char>) -> bool {
        &&& bytes_of(src).len() <= u32::MAX
        &&& spec_parse(bytes_of(src)) == Some(self.layout())
        &&& self.layout().ok(bytes_of(src))
    }

    /// An equal copy.
    pub fn copy(&self) -> (r: IrcMessageParts)
        ensures
            r.layout() == self.layout(),
    {
        let mut pairs: Vec<TagPair> = Vec::new();
        let n = self.tags.0.len();
        let mut i: usize = 0;
        while i < n
            invariant
                n == self.tags.0@.len(),
                i <= n,
                pairs@ == self.tags.0@.subrange(0, i as int),
            decreases n - i,
        {
            let p = self.tags.0[i];
            pairs.push(TagPair { key: p.key, value: p.value });
            i = i + 1;
            assert(pairs@ =~= self.tags.0@.subrange(0, i as int));
        }
        assert(pairs@ =~= self.tags.0@);
        IrcMessageParts {
            tags: RawTags(pairs),
            prefix: self.prefix,
            command: self.command,
            channel: self.channel,
            params: self.params,
        }
    }

    /// Finds the parts of `src`.
    fn parse(src: &str) -> (r: Option<IrcMessageParts>)
        ensures
            r is Some <==> bytes_of(src@).len() <= u32::MAX && spec_parse(bytes_of(src@)) is Some,
            r matches Some(p) ==> p.of(src@),
    {
        if src.as_bytes().len() > 4294967295 {
            return None;
        }
        let ghost b = bytes_of(src@);
        let mut pos: usize = 0;
        proof {
            vstd::utf8::is_char_boundary_start_end_of_seq(b);
        }
        let tags = match tags::parse(src, &mut pos) {
            Some(t) => t,
            None => RawTags(Vec::new()),
        };
        proof {
            assert(tags.0@ =~= match spec_parse_tags(b, 0) {
                Some((t, _)) => t,
                None => Seq::<TagPair>::empty(),
            });
        }
        let prefix = prefix::parse(src, &mut pos);
        let command = match command::parse(src, &mut pos) {
            Some(c) => c,
            None => return None,
        };
        let channel = channel::parse(src, &mut pos);
        let params = params::parse(src, &pos);
        Some(IrcMessageParts { tags, prefix, command, channel, params })
    }
}

/// The tag pairs of `src`, as string pairs.
fn tags_of<'a>(src: &'a str, parts: &IrcMessageParts) -> (r: Vec<(&'a str, &'a str)>)
    requires
        parts.of(src@),
    ensures
        pairs_match(bytes_of(src@), parts.layout().tags, r@),
{
    let ghost b = bytes_of(src@);
    let ghost pairs = parts.layout().tags;
    let mut out: Vec<(&'a str, &'a str)> = Vec::new();
    let n = parts.tags.0.len();
    let mut i: usize = 0;
    while i < n
        invariant
            parts.of(src@),
            b == bytes_of(src@),
            pairs == parts.layout().tags,
            n == pairs.len(),
            i <= n,
            pairs_match(b, pairs.subrange(0, i as int), out@),
        decreases n - i,
    {
        let p = parts.tags.0[i];
        assert(pairs[i as int] == p);
        assert(span_ok(b, pairs[i as int].key) && span_ok(b, pairs[i as int].value));
        out.push(p.get(src));
        i = i + 1;
        assert(pairs_match(b, pairs.subrange(0, i as int), out@));
    }
    assert(pairs.subrange(0, n as int) =~= pairs);
    out
}

/// The prefix of `src`.
fn prefix_of<'a>(src: &'a str, parts: &IrcMessageParts) -> (r: Option<Prefix<'a>>)
    requires
        parts.of(src@),
    ensures
        match parts.layout().prefix {
            Some(p) => r matches Some(x) && x.parts() == p.parts(bytes_of(src@)),
            None => r is None,
        },
{
    match parts.prefix {
        Some(p) => Some(p.get(src)),
        None => None,
    }
}

/// The text of an optional range of `src`.
fn opt_span_str<'a>(src: &'a str, o: Option<Span>) -> (r: Option<&'a str>)
    requires
        opt_span_ok(bytes_of(src@), o),
    ensures
        opt_view(r) == opt_text(bytes_of(src@), o),
{
    match o {
        Some(sp) => Some(sp.get(src)),
        None => None,
    }
}

/// `tag` is an [`Tag::Unknown`] that holds the name of a known tag.
pub open spec fn unknown_known(tag: Tag) -> bool {
    match tag {
        Tag::Unknown(k) => !(tags::tag_of(k) is Unknown),
        _ => false,
    }
}

/// The value of `tag` among `pairs`: nothing for an `Unknown` that holds the name of a
/// known tag, else the value of the first pair whose key is the tag's name.
pub open spec fn tag_lookup(b: Seq<u8>, pairs: Seq<TagPair>, tag: Tag) -> Option<Seq<char>> {
    if unknown_known(tag) {
        None
    } else {
        lookup(b, pairs, tag_name(tag))
    }
}

/// Whether `tag` is an `Unknown` that holds the name of a known tag.
fn is_known_name(tag: Tag) -> (r: bool)
    ensures
        r == unknown_known(tag),
{
    match tag {
        Tag::Unknown(k) => match Tag::parse(k) {
            Tag::Unknown(_) => false,
            _ => true,
        },
        _ => false,
    }
}

/// The value of the first tag pair of `src` whose key is `name`.
fn find_tag<'a>(src: &'a str, parts: &IrcMessageParts, name: &str) -> (r: Option<&'a str>)
    requires
        parts.of(src@),
    ensures
        opt_view(r) == lookup(bytes_of(src@), parts.layout().tags, name@),
{
    let ghost b = bytes_of(src@);
    let ghost pairs = parts.layout().tags;
    let n = parts.tags.0.len();
    let mut i: usize = 0;
    assert(pairs.skip(0) =~= pairs);
    while i < n
        invariant
            parts.of(src@),
            b == bytes_of(src@),
            pairs == parts.layout().tags,
            n == pairs.len(),
            i <= n,
            lookup(b, pairs, name@) == lookup(b, pairs.skip(i as int), name@),
        decreases n - i,
    {
        let p = parts.tags.0[i];
        assert(pairs.skip(i as int)[0] == p);
        assert(span_ok(b, pairs[i as int].key) && span_ok(b, pairs[i as int].value));
        let key = p.key.get(src);
        if str_eq(key, name) {
            return Some(p.value.get(src));
        }
        assert(pairs.skip(i as int).drop_first() =~= pairs.skip(i + 1));
        i = i + 1;
    }
    assert(pairs.skip(n as int) =~= Seq::<TagPair>::empty());
    None
}

/// The params of `src` after their first `:`; all params if `fallback` and there is no `:`.
fn text_of<'a>(src: &'a str, parts: &IrcMessageParts, fallback: bool) -> (r: Option<&'a str>)
    requires
        parts.of(src@),
    ensures
        opt_view(r) == if fallback {
            params_text(bytes_of(src@), parts.layout().params)
        } else {
            params_trailing(bytes_of(src@), parts.layout().params)
        },
{
    let ghost b = bytes_of(src@);
    match parts.params {
        Some(p) => {
            let bytes = src.as_bytes();
            proof {
                lemma_index_of(b, p.start as int, p.end as int, COLON);
            }
            match find_byte(bytes, p.start as usize, p.end as usize, COLON) {
                Some(i) => {
                    proof {
                        lemma_ascii_boundary(b, i as int);
                    }
                    Some(substr(src, i + 1, p.end as usize))
                },
                None => if fallback {
                    Some(p.get(src))
                } else {
                    None
                },
            }
        },
        None => None,
    }
}

/// A base IRC message.
///
/// This variant references the original string instead of owning it.
#[derive(Debug)]
pub struct IrcMessageRef<'src> {
    src: &'src str,
    parts: IrcMessageParts,
}

impl<'src> Clone for IrcMessageRef<'src> {
    /// A copy of the message: the same source and the same parts.
    fn clone(&self) -> (r: Self)
        ensures
            r.source() == self.source(),
            r.layout() == self.layout(),
    {
        proof {
            use_type_invariant(self);
        }
        IrcMessageRef { src: self.src, parts: self.parts.copy() }
    }
}

impl<'src> IrcMessageRef<'src> {
    #[verifier::type_invariant]
    spec fn inv(self) -> bool {
        self.parts.of(self.src@)
    }

    /// The string from which this message was parsed.
    pub closed spec fn source(self) -> Seq<char> {
        self.src@
    }

    /// Where the parts of this message lie in the encoding of its source.
    pub closed spec fn layout(self) -> Layout {
        self.parts.layout()
    }

    /// The encoding of the source.
    pub open spec fn bytes(self) -> Seq<u8> {
        bytes_of(self.source())
    }

    /// The value of the tag `name`.
    pub open spec fn spec_tag(self, name: Seq<char>) -> Option<Seq<char>> {
        lookup(self.bytes(), self.layout().tags, name)
    }

    /// What [`IrcMessageRef::tag`] gives for `tag`: nothing for a [`Tag::Unknown`] that
    /// holds the name of a known tag, else the value of the first tag pair whose key is
    /// the tag's name.
    pub open spec fn tag_value(self, tag: Tag) -> Option<Seq<char>> {
        tag_lookup(self.bytes(), self.layout().tags, tag)
    }

    /// The channel name.
    pub open spec fn spec_channel(self) -> Option<Seq<char>> {
        opt_text(self.bytes(), self.layout().channel)
    }

    /// The params.
    pub open spec fn spec_params(self) -> Option<Seq<char>> {
        opt_text(self.bytes(), self.layout().params)
    }

    /// The params after the first `:`, or all of them.
    pub open spec fn spec_text(self) -> Option<Seq<char>> {
        params_text(self.bytes(), self.layout().params)
    }

    /// The nick of the prefix.
    pub open spec fn spec_nick(self) -> Option<Seq<char>> {
        match self.layout().prefix {
            Some(p) => opt_text(self.bytes(), p.nick),
            None => None,
        }
    }

    /// The command.
    pub open spec fn spec_command(self) -> RawCommand {
        self.layout().command
    }

    /// Parse a single Twitch IRC message.
    ///
    /// There is a message where there is a command; messages longer than
    /// `u32::MAX` bytes are refused.
    pub fn parse(src: &'src str) -> (r: Option<Self>)
        ensures
            r is Some <==> bytes_of(src@).len() <= u32::MAX && spec_parse(bytes_of(src@)) is Some,
            r matches Some(m) ==> m.source() == src@ && Some(m.layout()) == spec_parse(
                bytes_of(src@),
            ),
    {
        Self::parse_inner(src)
    }

    fn parse_inner(src: &'src str) -> (r: Option<Self>)
        ensures
            r is Some <==> bytes_of(src@).len() <= u32::MAX && spec_parse(bytes_of(src@)) is Some,
            r matches Some(m) ==> m.source() == src@ && Some(m.layout()) == spec_parse(
                bytes_of(src@),
            ),
    {
        match IrcMessageParts::parse(src) {
            Some(parts) => Some(IrcMessageRef { src, parts }),
            None => None,
        }
    }

    /// Get the string from which this message was parsed.
    pub fn raw(&self) -> (r: &'src str)
        ensures
            r@ == self.source(),
    {
        self.src
    }

    /// Get the message tags, in order, as `(key, value)` pairs.
    pub fn tags(&self) -> (r: Vec<(&'src str, &'src str)>)
        ensures
            pairs_match(self.bytes(), self.layout().tags, r@),
    {
        proof {
            use_type_invariant(self);
        }
        tags_of(self.src, &self.parts)
    }

    /// Get the message [`Prefix`].
    pub fn prefix(&self) -> (r: Option<Prefix<'src>>)
        ensures
            match self.layout().prefix {
                Some(p) => r matches Some(x) && x.parts() == p.parts(self.bytes()),
                None => r is None,
            },
    {
        proof {
            use_type_invariant(self);
        }
        prefix_of(self.src, &self.parts)
    }

    /// Get the message [`Command`].
    pub fn command(&self) -> (r: Command<'src>)
        ensures
            command_matches(r, self.spec_command()),
            command_name(r) == raw_command_name(self.bytes(), self.spec_command()),
            command_name(r) == text_at(
                self.bytes(),
                command_start(self.bytes()),
                command_end(self.bytes(), command_start(self.bytes())).0,
            ),
    {
        proof {
            use_type_invariant(self);
            lemma_command_is_word(self.bytes());
        }
        self.parts.command.get(self.src)
    }

    /// Get the channel name this message was sent to.
    pub fn channel(&self) -> (r: Option<&'src str>)
        ensures
            opt_view(r) == self.spec_channel(),
    {
        proof {
            use_type_invariant(self);
        }
        opt_span_str(self.src, self.parts.channel)
    }

    /// Get the raw message params.
    ///
    /// You have to call `split_whitespace` on it yourself.
    pub fn params(&self) -> (r: Option<&'src str>)
        ensures
            opt_view(r) == self.spec_params(),
    {
        proof {
            use_type_invariant(self);
        }
        opt_span_str(self.src, self.parts.params)
    }

    /// Retrieve the value of `tag`: the value of the first tag whose key is `tag.as_str()`.
    ///
    /// ⚠ [`Tag::Unknown`] has a different meaning from a specific [`Tag`] variant: an
    /// `Unknown` that holds the name of a known tag does _not_ match it, and gives `None`.
    pub fn tag(&self, tag: Tag) -> (r: Option<&'src str>)
        ensures
            opt_view(r) == self.tag_value(tag),
    {
        proof {
            use_type_invariant(self);
        }
        if is_known_name(tag) {
            return None;
        }
        find_tag(self.src, &self.parts, tag.as_str())
    }

    /// Retrieve the value of the tag named `name`, given in kebab-case: this is
    /// `tag(Tag::parse(name))`, so a known tag's name matches that tag.
    pub fn tag_by_name(&self, name: &str) -> (r: Option<&'src str>)
        ensures
            opt_view(r) == self.tag_value(tags::tag_of(name)),
            opt_view(r) == self.spec_tag(name@),
    {
        proof {
            lemma_tag_by_name(self.bytes(), self.layout().tags, name);
        }
        self.tag(Tag::parse(name))
    }

    /// Returns the contents of the params after the first `:`.
    ///
    /// If `:` is not present, returns all params.
    pub fn text(&self) -> (r: Option<&'src str>)
        ensures
            opt_view(r) == self.spec_text(),
            opt_view(r) == match self.spec_params() {
                None => None,
                Some(p) => match index_of(bytes_of(p), 0, bytes_of(p).len() as int, COLON) {
                    Some(i) => Some(text_at(bytes_of(p), i + 1, bytes_of(p).len() as int)),
                    None => Some(p),
                },
            },
    {
        proof {
            use_type_invariant(self);
            lemma_text_after_colon(self.bytes(), self.layout().params);
        }
        text_of(self.src, &self.parts, true)
    }

    /// Turn the [`IrcMessageRef`] into its owned variant, [`IrcMessage`].
    pub fn into_owned(self) -> (r: IrcMessage)
        ensures
            r.source() == self.source(),
            r.layout() == self.layout(),
    {
        proof {
            use_type_invariant(&self);
        }
        IrcMessage { src: String::from_str(self.src), parts: self.parts.copy() }
    }
}

/// A base IRC message.
///
/// This variants owns the input message.
#[derive(Debug)]
pub struct IrcMessage {
    src: String,
    parts: IrcMessageParts,
}

impl IrcMessage {
    #[verifier::type_invariant]
    spec fn inv(self) -> bool {
        self.parts.of(self.src@)
    }

    /// The string from which this message was parsed.
    pub closed spec fn source(self) -> Seq<char> {
        self.src@
    }

    /// Where the parts of this message lie in the encoding of its source.
    pub closed spec fn layout(self) -> Layout {
        self.parts.layout()
    }

    /// The encoding of the source.
    pub open spec fn bytes(self) -> Seq<u8> {
        bytes_of(self.source())
    }

    /// Parse a single Twitch IRC message.
    pub fn parse(src: String) -> (r: Option<Self>)
        ensures
            r is Some <==> bytes_of(src@).len() <= u32::MAX && spec_parse(bytes_of(src@)) is Some,
            r matches Some(m) ==> m.source() == src@ && Some(m.layout()) == spec_parse(
                bytes_of(src@),
            ),
    {
        match IrcMessageParts::parse(src.as_str()) {
            Some(parts) => Some(IrcMessage { src, parts }),
            None => None,
        }
    }

    /// Get the string from which this message was parsed.
    pub fn raw(&self) -> (r: &str)
        ensures
            r@ == self.source(),
    {
        self.src.as_str()
    }

    /// Get the message tags, in order, as `(key, value)` pairs.
    pub fn tags(&self) -> (r: Vec<(&str, &str)>)
        ensures
            pairs_match(self.bytes(), self.layout().tags, r@),
    {
        proof {
            use_type_invariant(self);
        }
        tags_of(self.src.as_str(), &self.parts)
    }

    /// Get the message [`Prefix`].
    pub fn prefix(&self) -> (r: Option<Prefix<'_>>)
        ensures
            match self.layout().prefix {
                Some(p) => r matches Some(x) && x.parts() == p.parts(self.bytes()),
                None => r is None,
            },
    {
        proof {
            use_type_invariant(self);
        }
        prefix_of(self.src.as_str(), &self.parts)
    }

    /// Get the message [`Command`].
    pub fn command(&self) -> (r: Command<'_>)
        ensures
            command_matches(r, self.layout().command),
            command_name(r) == raw_command_name(self.bytes(), self.layout().command),
    {
        proof {
            use_type_invariant(self);
        }
        self.parts.command.get(self.src.as_str())
    }

    /// Get the channel name this message was sent to.
    pub fn channel(&self) -> (r: Option<&str>)
        ensures
            opt_view(r) == opt_text(self.bytes(), self.layout().channel),
    {
        proof {
            use_type_invariant(self);
        }
        opt_span_str(self.src.as_str(), self.parts.channel)
    }

    /// Get the raw message params.
    ///
    /// You have to call `split_whitespace` on it yourself.
    pub fn params(&self) -> (r: Option<&str>)
        ensures
            opt_view(r) == opt_text(self.bytes(), self.layout().params),
    {
        proof {
            use_type_invariant(self);
        }
        opt_span_str(self.src.as_str(), self.parts.params)
    }

    /// Retrieve the value of `tag`: the value of the first tag whose key is `tag.as_str()`.
    ///
    /// ⚠ [`Tag::Unknown`] has a different meaning from a specific [`Tag`] variant: an
    /// `Unknown` that holds the name of a known tag does _not_ match it, and gives `None`.
    pub fn tag(&self, tag: Tag) -> (r: Option<&str>)
        ensures
            opt_view(r) == tag_lookup(self.bytes(), self.layout().tags, tag),
    {
        proof {
            use_type_invariant(self);
        }
        if is_known_name(tag) {
            return None;
        }
        find_tag(self.src.as_str(), &self.parts, tag.as_str())
    }

    /// Retrieve the value of the tag named `name`, given in kebab-case: this is
    /// `tag(Tag::parse(name))`, so a known tag's name matches that tag.
    pub fn tag_by_name(&self, name: &str) -> (r: Option<&str>)
        ensures
            opt_view(r) == tag_lookup(self.bytes(), self.layout().tags, tags::tag_of(name)),
            opt_view(r) == lookup(self.bytes(), self.layout().tags, name@),
    {
        proof {
            lemma_tag_by_name(self.bytes(), self.layout().tags, name);
        }
        self.tag(Tag::parse(name))
    }

    /// Returns the contents of the params after the first `:`, if there is one.
    pub fn text(&self) -> (r: Option<&str>)
        ensures
            opt_view(r) == params_trailing(self.bytes(), self.layout().params),
    {
        proof {
            use_type_invariant(self);
        }
        text_of(self.src.as_str(), &self.parts, false)
    }

    /// Turn the [`IrcMessage`] into its borrowed variant, [`IrcMessageRef`].
    pub fn as_ref(&self) -> (r: IrcMessageRef<'_>)
        ensures
            r.source() == self.source(),
            r.layout() == self.layout(),
    {
        proof {
            use_type_invariant(self);
        }
        IrcMessageRef { src: self.src.as_str(), parts: self.parts.copy() }
    }
}

/// A known tag and its name as [`Tag::Unknown`] do not look up the same thing: the tag
/// gives the value of the first pair whose key is its name, and the `Unknown` gives
/// nothing.
pub proof fn lemma_unknown_does_not_match(b: Seq<u8>, pairs: Seq<TagPair>, t: Tag, name: &str)
    requires
        name@ == tag_name(t),
        !(t is Unknown),
    ensures
        tag_lookup(b, pairs, t) == lookup(b, pairs, name@),
        tag_lookup(b, pairs, Tag::Unknown(name)) is None,
{
    lemma_tag_name_roundtrip(t, name);
}

/// The encoding of the text of a well-formed range is the range's bytes.
proof fn lemma_span_bytes(b: Seq<u8>, sp: Span)
    requires
        vstd::utf8::valid_utf8(b),
        span_ok(b, sp),
    ensures
        bytes_of(span_text(b, sp)) == b.subrange(sp.start as int, sp.end as int),
{
    let (st, en) = (sp.start as int, sp.end as int);
    lemma_prefix_boundary(b, st, en);
    let h = b.subrange(0, en);
    vstd::utf8::valid_utf8_split(h, st);
    assert(h.subrange(st, h.len() as int) =~= b.subrange(st, en));
    vstd::utf8::decode_utf8_encode_utf8(b.subrange(st, en));
}

/// The text of the params is what follows the first `:` in them, or all of them where
/// there is no `:`: the params' own search for `:` gives the same text.
pub proof fn lemma_text_after_colon(b: Seq<u8>, params: Option<Span>)
    requires
        vstd::utf8::valid_utf8(b),
        opt_span_ok(b, params),
    ensures
        params_text(b, params) == match opt_text(b, params) {
            None => None,
            Some(p) => match index_of(bytes_of(p), 0, bytes_of(p).len() as int, COLON) {
                Some(i) => Some(text_at(bytes_of(p), i + 1, bytes_of(p).len() as int)),
                None => Some(p),
            },
        },
{
    match params {
        Some(sp) => {
            let (st, en) = (sp.start as int, sp.end as int);
            lemma_span_bytes(b, sp);
            let sub = b.subrange(st, en);
            lemma_index_of_shift(b, st, en, COLON, st);
            lemma_index_of(b, st, en, COLON);
            match index_of(b, st, en, COLON) {
                Some(i) => {
                    assert(sub.subrange(i - st + 1, sub.len() as int) =~= b.subrange(i + 1, en));
                },
                None => {},
            }
        },
        None => {},
    }
}

/// Where the command of a message begins: after the tags section and the prefix, if
/// there are any.
pub open spec fn command_start(b: Seq<u8>) -> int {
    let p1 = match spec_parse_tags(b, 0) {
        Some((_, p)) => p,
        None => 0int,
    };
    match spec_parse_prefix(b, p1) {
        Some((_, p)) => p,
        None => p1,
    }
}

/// The name of a message's command is its command word: the text after the tags and
/// the prefix, up to the next space or the end.
pub proof fn lemma_command_is_word(b: Seq<u8>)
    requires
        b.len() <= u32::MAX,
        spec_parse(b) is Some,
    ensures
        raw_command_name(b, spec_parse(b)->0.command) == text_at(
            b,
            command_start(b),
            command_end(b, command_start(b)).0,
        ),
{
    lemma_index_of(b, 1, b.len() as int, tags::SPACE);
    if 0 < b.len() {
        let p1 = match spec_parse_tags(b, 0) {
            Some((_, p)) => p,
            None => 0int,
        };
        if 0 <= p1 < b.len() {
            lemma_index_of(b, p1 + 1, b.len() as int, tags::SPACE);
        }
    }
    lemma_command_token(b, command_start(b));
}

/// A tag given by its kebab-case name looks up that name: a known tag's name and the
/// tag itself give the same value.
pub proof fn lemma_tag_by_name(b: Seq<u8>, pairs: Seq<TagPair>, name: &str)
    ensures
        tag_lookup(b, pairs, tags::tag_of(name)) == lookup(b, pairs, name@),
{
    tags::lemma_tag_of_name(name);
}

/// The value of a tag is that of the first pair whose key is its name, and there is none
/// where no key is its name.
pub proof fn lemma_lookup_first(b: Seq<u8>, pairs: Seq<TagPair>, name: Seq<char>, j: int)
    requires
        0 <= j <= pairs.len(),
        forall|i: int| 0 <= i < j ==> span_text(b, #[trigger] pairs[i].key) != name,
        j < pairs.len() ==> span_text(b, pairs[j].key) == name,
    ensures
        lookup(b, pairs, name) == if j < pairs.len() {
            Some(span_text(b, pairs[j].value))
        } else {
            None::<Seq<char>>
        },
    decreases j,
{
    if j > 0 {
        let rest = pairs.drop_first();
        assert(span_text(b, pairs[0].key) != name);
        assert forall|i: int| 0 <= i < j - 1 implies span_text(b, #[trigger] rest[i].key) != name by {
            assert(rest[i] == pairs[i + 1]);
        }
        if j < pairs.len() {
            assert(rest[j - 1] == pairs[j]);
        }
        lemma_lookup_first(b, rest, name, j - 1);
    }
}

/// A message `:nick!user@host COMMAND #channel params` without tags reads as that prefix,
/// the command named by its word, that channel, and the rest after the space that ends the
/// channel as its params (none where nothing follows).
pub proof fn lemma_message_layout(b: Seq<u8>, bang: int, at: int, sp: int, ce: int, he: int)
    requires
        b.len() <= u32::MAX,
        0 < bang < at < sp,
        sp + 1 < ce,
        ce + 1 < he <= b.len(),
        b[0] == prefix::COLON,
        b[bang] == prefix::BANG,
        b[at] == prefix::AT,
        b[sp] == prefix::SPACE,
        forall|i: int| 0 < i < sp ==> b[i] != prefix::SPACE,
        forall|i: int| bang < i < sp ==> b[i] != prefix::BANG,
        forall|i: int| at < i < sp ==> b[i] != prefix::AT,
        forall|i: int| sp < i < ce ==> b[i] != prefix::SPACE,
        b[ce] == prefix::SPACE,
        b[ce + 1] == channel::HASH,
        forall|i: int| ce < i < he ==> b[i] != prefix::SPACE,
        he < b.len() ==> b[he] == prefix::SPACE,
    ensures
        spec_parse(b) matches Some(l) && {
            &&& l.tags.len() == 0
            &&& l.prefix == Some(
                RawPrefix {
                    nick: Some(crate::common::span(1, bang)),
                    user: Some(crate::common::span(bang + 1, at)),
                    host: crate::common::span(at + 1, sp),
                },
            )
            &&& raw_command_name(b, l.command) == text_at(b, sp + 1, ce)
            &&& l.channel == Some(crate::common::span(ce + 1, he))
            &&& l.params == if he + 1 < b.len() {
                Some(crate::common::span(he + 1, b.len() as int))
            } else {
                None::<Span>
            }
        },
{
    prefix::lemma_prefix_full(b, 0, bang, at, sp);
    crate::text::lemma_index_of_unique(b, sp + 1, b.len() as int, prefix::SPACE, ce);
    lemma_command_token(b, sp + 1);
    channel::lemma_channel_word(b, ce + 1, he);
}

} // verus!
