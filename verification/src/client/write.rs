//! The lines a client writes.
use vstd::prelude::*;
use vstd::string::StringExecFns;
use crate::common::channel::starts_with_char;
use crate::strings::{ends_with_str, strs_view};
use crate::text::push_char;

verus! {

broadcast use vstd::string::group_string_axioms;

/// A channel name as a client writes it: with a `#` in front, unless there is one.
pub open spec fn channel_text(c: Seq<char>) -> Seq<char> {
    if c.len() > 0 && c[0] == '#' {
        c
    } else {
        seq!['#'] + c
    }
}

/// Appends a channel name to `s`, with a `#` in front unless there is one.
fn push_channel(s: &mut String, channel: &str)
    ensures
        final(s)@ == old(s)@ + channel_text(channel@),
{
    if !starts_with_char(channel, '#') {
        push_char(s, '#');
    }
    s.append(channel);
}

/// The channel names, each as a client writes it, separated by commas.
pub open spec fn channels_text(v: Seq<Seq<char>>) -> Seq<char>
    decreases v.len(),
{
    if v.len() == 0 {
        Seq::<char>::empty()
    } else if v.len() == 1 {
        channel_text(v[0])
    } else {
        channels_text(v.drop_last()) + seq![','] + channel_text(v.last())
    }
}

/// A `PING` line with a nonce.
pub fn ping_line(nonce: &str) -> (r: String)
    ensures
        r@ == "PING :"@ + nonce@ + "\r\n"@,
{
    let mut s = String::from_str("PING :");
    s.append(nonce);
    s.append("\r\n");
    s
}

/// A `PONG` line in response to a `PING` with the given nonce, if it had one.
pub fn pong_line(nonce: Option<&str>) -> (r: String)
    ensures
        r@ == match nonce {
            Some(n) => "PONG :"@ + n@ + "\r\n"@,
            None => "PONG\r\n"@,
        },
{
    match nonce {
        Some(n) => {
            let mut s = String::from_str("PONG :");
            s.append(n);
            s.append("\r\n");
            s
        },
        None => String::from_str("PONG\r\n"),
    }
}

/// A `JOIN` line for one channel.
pub fn join_line(channel: &str) -> (r: String)
    ensures
        r@ == "JOIN "@ + channel_text(channel@) + "\r\n"@,
{
    let mut s = String::from_str("JOIN ");
    push_channel(&mut s, channel);
    s.append("\r\n");
    s
}

/// A `PART` line for one channel.
pub fn part_line(channel: &str) -> (r: String)
    ensures
        r@ == "PART "@ + channel_text(channel@) + "\r\n"@,
{
    let mut s = String::from_str("PART ");
    push_channel(&mut s, channel);
    s.append("\r\n");
    s
}

/// A `JOIN` line for several channels, separated by commas.
pub fn join_all_line(channels: &[&str]) -> (r: String)
    ensures
        r@ == "JOIN "@ + channels_text(strs_view(channels@)) + "\r\n"@,
{
    let ghost v = strs_view(channels@);
    let mut s = String::from_str("JOIN ");
    let ghost start = s@;
    let mut i: usize = 0;
    while i < channels.len()
        invariant
            v == strs_view(channels@),
            i <= channels@.len(),
            start == "JOIN "@,
            s@ == start + channels_text(v.take(i as int)),
        decreases channels@.len() - i,
    {
        if i > 0 {
            push_char(&mut s, ',');
        }
        push_channel(&mut s, channels[i]);
        proof {
            assert(v.take(i + 1).drop_last() =~= v.take(i as int));
            assert(v.take(i + 1).last() == channels@[i as int]@);
            if i == 0 {
                assert(channels_text(v.take(0)) =~= Seq::<char>::empty());
            }
        }
        i = i + 1;
        assert(s@ =~= start + channels_text(v.take(i as int)));
    }
    assert(v.take(i as int) =~= v);
    s.append("\r\n");
    s
}

/// The tags of a `PRIVMSG`: the reply parent and the client nonce, where given,
/// separated by `;`.
pub open spec fn privmsg_tags(reply_parent_msg_id: Option<Seq<char>>, client_nonce: Option<Seq<char>>) -> Seq<char> {
    match (reply_parent_msg_id, client_nonce) {
        (Some(r), Some(n)) => "reply-parent-msg-id="@ + r + seq![';'] + "client-nonce="@ + n,
        (Some(r), None) => "reply-parent-msg-id="@ + r,
        (None, Some(n)) => "client-nonce="@ + n,
        (None, None) => Seq::<char>::empty(),
    }
}

/// A `PRIVMSG` line: the tags, if there are any, then the channel and the text.
pub open spec fn privmsg_text(
    channel: Seq<char>,
    text: Seq<char>,
    reply_parent_msg_id: Option<Seq<char>>,
    client_nonce: Option<Seq<char>>,
) -> Seq<char> {
    let tags = if reply_parent_msg_id is Some || client_nonce is Some {
        seq!['@'] + privmsg_tags(reply_parent_msg_id, client_nonce) + seq![' ']
    } else {
        Seq::<char>::empty()
    };
    tags + "PRIVMSG "@ + channel + " :"@ + text + "\r\n"@
}

/// The characters of an optional string.
pub open spec fn opt_str_view(o: Option<&str>) -> Option<Seq<char>> {
    match o {
        Some(s) => Some(s@),
        None => None,
    }
}

/// A `PRIVMSG` line for `channel` with `text`, optionally replying to a message and
/// carrying a client nonce.
pub fn privmsg_line(channel: &str, text: &str, reply_parent_msg_id: Option<&str>, client_nonce: Option<&str>) -> (r: String)
    ensures
        r@ == privmsg_text(channel@, text@, opt_str_view(reply_parent_msg_id), opt_str_view(client_nonce)),
{
    let mut s = String::new();
    let has_tags = reply_parent_msg_id.is_some() || client_nonce.is_some();
    if has_tags {
        push_char(&mut s, '@');
        match reply_parent_msg_id {
            Some(r) => {
                s.append("reply-parent-msg-id=");
                s.append(r);
            },
            None => {},
        }
        match client_nonce {
            Some(n) => {
                if reply_parent_msg_id.is_some() {
                    push_char(&mut s, ';');
                }
                s.append("client-nonce=");
                s.append(n);
            },
            None => {},
        }
        push_char(&mut s, ' ');
    }
    s.append("PRIVMSG ");
    s.append(channel);
    s.append(" :");
    s.append(text);
    s.append("\r\n");
    s
}

/// Bypass the same-message slow mode requirement.
#[derive(Clone, Copy, Debug, PartialEq, Eq, Structural)]
pub struct SameMessageBypass {
    append: bool,
}

/// What [`SameMessageBypass::get`] adds when it appends: a space and an invisible
/// character (U+2800).
pub open spec fn bypass_suffix() -> Seq<char> {
    " \u{2800}"@
}

impl SameMessageBypass {
    /// Whether the next call of `get` appends.
    pub closed spec fn appends(self) -> bool {
        self.append
    }

    /// Get the current value.
    ///
    /// This is meant to be appended to the end of the message, before the `\r\n`.
    /// It is empty and the bypass suffix in turn.
    pub fn get(&mut self) -> (r: &'static str)
        ensures
            r@ == (if old(self).appends() {
                bypass_suffix()
            } else {
                Seq::<char>::empty()
            }),
            final(self).appends() == !old(self).appends(),
    {
        let out = if self.append {
            " \u{2800}"
        } else {
            let e = "";
            proof {
                reveal_strlit("");
            }
            e
        };
        self.append = !self.append;
        out
    }
}

impl Default for SameMessageBypass {
    fn default() -> (r: SameMessageBypass)
        ensures
            !r.appends(),
    {
        SameMessageBypass { append: false }
    }
}

/// An IRC message, terminated by `\r\n`.
#[derive(Clone, Copy, Debug)]
pub struct RawMessage<'a> {
    data: &'a str,
}

/// The message was not terminated by `\r\n`.
#[derive(Clone, Copy, Debug, PartialEq, Eq, Structural)]
pub struct InvalidMessage;

impl InvalidMessage {
    /// The error message.
    pub fn message(&self) -> (r: &'static str)
        ensures
            r@ == "not terminated by \"\\r\\n\""@,
    {
        "not terminated by \"\\r\\n\""
    }
}

/// `s` ends with `\r\n`.
pub open spec fn is_terminated(s: Seq<char>) -> bool {
    2 <= s.len() && s.skip(s.len() - 2) == "\r\n"@
}

impl<'a> RawMessage<'a> {
    /// The message.
    pub closed spec fn text(self) -> Seq<char> {
        self.data@
    }

    /// A message, which must be terminated by `\r\n`; this is `RawMessage::try_from(data)`.
    pub fn try_from(data: &'a str) -> (r: Result<RawMessage<'a>, InvalidMessage>)
        ensures
            r is Ok <==> is_terminated(data@),
            r matches Ok(m) ==> m.text() == data@,
    {
        proof {
            reveal_strlit("\r\n");
        }
        if ends_with_str(data, "\r\n") {
            Ok(RawMessage { data })
        } else {
            Err(InvalidMessage)
        }
    }

    /// The message, with its `\r\n`.
    pub fn data(&self) -> (r: &'a str)
        ensures
            r@ == self.text(),
    {
        self.data
    }
}

/// What [`SameMessageBypass::get`] returns in a state.
pub open spec fn bypass_value(appends: bool) -> Seq<char> {
    if appends {
        bypass_suffix()
    } else {
        Seq::<char>::empty()
    }
}

/// Two calls in a row of [`SameMessageBypass::get`] return the suffix once and
/// nothing once, so that two equal messages in a row differ.
pub proof fn lemma_bypass_alternates(appends: bool)
    ensures
        bypass_value(appends) + bypass_value(!appends) == bypass_suffix(),
        bypass_value(appends) != bypass_value(!appends),
{
    reveal_strlit(" \u{2800}");
    assert(bypass_suffix().len() == 2);
    assert(Seq::<char>::empty() + bypass_suffix() =~= bypass_suffix());
    assert(bypass_suffix() + Seq::<char>::empty() =~= bypass_suffix());
}

/// Text followed by `\r\n` is terminated.
proof fn lemma_terminated(a: Seq<char>)
    ensures
        is_terminated(a + "\r\n"@),
{
    reveal_strlit("\r\n");
    let s = a + "\r\n"@;
    assert(s.skip(s.len() - 2) =~= "\r\n"@);
}

/// Every line that a client writes ends in `\r\n`, so that [`RawMessage::try_from`]
/// accepts it.
pub proof fn lemma_lines_terminated(
    nonce: Seq<char>,
    channel: Seq<char>,
    channels: Seq<Seq<char>>,
    text: Seq<char>,
    reply_parent_msg_id: Option<Seq<char>>,
    client_nonce: Option<Seq<char>>,
)
    ensures
        is_terminated("PING :"@ + nonce + "\r\n"@),
        is_terminated("PONG :"@ + nonce + "\r\n"@),
        is_terminated("PONG\r\n"@),
        is_terminated("JOIN "@ + channel_text(channel) + "\r\n"@),
        is_terminated("PART "@ + channel_text(channel) + "\r\n"@),
        is_terminated("JOIN "@ + channels_text(channels) + "\r\n"@),
        is_terminated(privmsg_text(channel, text, reply_parent_msg_id, client_nonce)),
{
    lemma_terminated("PING :"@ + nonce);
    lemma_terminated("PONG :"@ + nonce);
    lemma_terminated("PONG"@);
    lemma_terminated("JOIN "@ + channel_text(channel));
    lemma_terminated("PART "@ + channel_text(channel));
    lemma_terminated("JOIN "@ + channels_text(channels));
    let tags = if reply_parent_msg_id is Some || client_nonce is Some {
        seq!['@'] + privmsg_tags(reply_parent_msg_id, client_nonce) + seq![' ']
    } else {
        Seq::<char>::empty()
    };
    lemma_terminated(tags + "PRIVMSG "@ + channel + " :"@ + text);
    reveal_strlit("PONG\r\n");
    reveal_strlit("PONG");
    reveal_strlit("\r\n");
    assert("PONG"@ + "\r\n"@ =~= "PONG\r\n"@);
}

/// Writing a channel name a second time changes nothing: a name that begins with `#`
/// is written as it is.
pub proof fn lemma_channel_text_idempotent(c: Seq<char>)
    ensures
        channel_text(channel_text(c)) == channel_text(c),
{
    if !(c.len() > 0 && c[0] == '#') {
        assert((seq!['#'] + c)[0] == '#');
    }
}

} // verus!
