# tmi

A library for Twitch chat (IRC over TLS), with its logic verified by Verus.

## Layout

- `src/` — the verified library.
  - `irc` — parsing of the base IRC message: tags, prefix, command, channel and
    parameters, each stated as a function on the bytes of the line (`spec_parse`),
    plus a sixteen-bytes-at-a-time byte search (`irc::wide`).
  - `msg` — the Twitch messages read from a base message (`PRIVMSG`, `USERNOTICE`,
    `CLEARCHAT`, `ROOMSTATE`, ...), badges and timestamps. `Message::from_irc` states
    which typed message each base message becomes (`typed_as`).
  - `client` — what a client writes (handshake, `JOIN`, `PRIVMSG`, ...), how it reads
    the replies to its handshake, its reconnect schedule and how it judges failures.
  - `bot` — the channels a bot has joined, and what each of its commands sends.
  - `unescape`, `strings`, `text`, `common`, `chat` — text helpers.
- `tests/` — tests on concrete inputs.
- `app/` — the I/O around the library: the TLS stream, the client's reads and writes,
  and the bot's event loop.

Calls into outside crates (chrono for timestamps, rand for the anonymous login,
smallvec for the badge-info list) sit behind small trusted wrappers whose contracts
are stated next to them.
