//! ## Twitch IRC Client
//!
//! What a client decides: its configuration, the lines of its handshake, how it reads
//! the replies to the handshake, and when it tries to reconnect.
//!
//! The connection itself (TCP, TLS, reading and writing lines) lives outside this
//! library, and hands the messages it receives to the functions here.
use rand::Rng;
use vstd::prelude::*;
use vstd::string::StringExecFns;
use crate::irc::prefix::opt_view;
use crate::irc::{Command, IrcMessageRef};
use crate::strings::{all_digits, contains_str, digits_value, is_digit, parse_unsigned, pattern_index, starts_with_str};
use crate::text::push_char;

pub mod write;
pub mod ratelimit;
pub mod channel;
pub mod read;

verus! {

broadcast use vstd::string::group_string_axioms;

/// The default timeout used when connecting to Twitch IRC, in milliseconds.
pub const DEFAULT_TIMEOUT: u64 = 30000;

/// The digit that stands for `d`.
pub open spec fn digit_char(d: nat) -> char {
    if d == 0 {
        '0'
    } else if d == 1 {
        '1'
    } else if d == 2 {
        '2'
    } else if d == 3 {
        '3'
    } else if d == 4 {
        '4'
    } else if d == 5 {
        '5'
    } else if d == 6 {
        '6'
    } else if d == 7 {
        '7'
    } else if d == 8 {
        '8'
    } else {
        '9'
    }
}

/// The decimal digits of `n`, without leading zeros; zero is `"0"`.
pub open spec fn decimal(n: nat) -> Seq<char>
    decreases n,
{
    if n < 10 {
        seq![digit_char(n)]
    } else {
        decimal(n / 10).push(digit_char(n % 10))
    }
}

/// The character of a decimal digit.
fn digit(d: u64) -> (r: char)
    requires
        d < 10,
    ensures
        r == digit_char(d as nat),
{
    match d {
        0 => '0',
        1 => '1',
        2 => '2',
        3 => '3',
        4 => '4',
        5 => '5',
        6 => '6',
        7 => '7',
        8 => '8',
        _ => '9',
    }
}

/// Appends the decimal digits of `n` to `s`.
pub fn push_decimal(s: &mut String, n: u64)
    ensures
        final(s)@ == old(s)@ + decimal(n as nat),
    decreases n,
{
    if n >= 10 {
        push_decimal(s, n / 10);
    }
    push_char(s, digit(n % 10));
    proof {
        if n >= 10 {
            assert(decimal(n as nat) == decimal((n / 10) as nat).push(digit_char((n % 10) as nat)));
        }
    }
}

/// Every number has at least one digit, and one more than a tenth of it.
pub proof fn lemma_decimal_len_bound(n: nat)
    ensures
        decimal(n).len() >= 1,
        n >= 10 ==> decimal(n).len() == decimal(n / 10).len() + 1,
{
}

/// A `u64` number has at most 20 digits.
pub proof fn lemma_decimal_small(n: nat)
    requires
        n <= u64::MAX,
    ensures
        decimal(n).len() <= 20,
{
    reveal_with_fuel(pow10, 21);
    assert(pow10(20) == 100000000000000000000);
    lemma_decimal_small_below(n, 20);
}

/// A number below `10^k` has at most `k` digits.
proof fn lemma_decimal_small_below(n: nat, k: nat)
    requires
        k >= 1,
        n < pow10(k),
    ensures
        decimal(n).len() <= k,
    decreases n,
{
    if n >= 10 {
        assert(k >= 2) by {
            if k == 1 {
                assert(pow10(1) == 10 * pow10(0));
            }
        }
        assert(pow10(k) == 10 * pow10((k - 1) as nat));
        assert(n / 10 < pow10((k - 1) as nat)) by (nonlinear_arith)
            requires
                n < pow10(k),
                pow10(k) == 10 * pow10((k - 1) as nat),
        ;
        lemma_decimal_small_below(n / 10, (k - 1) as nat);
    }
}

/// `10^k`.
pub open spec fn pow10(k: nat) -> nat
    decreases k,
{
    if k == 0 {
        1
    } else {
        10 * pow10((k - 1) as nat)
    }
}

/// The lowest number of an anonymous login.
pub const ANON_MIN: u32 = 10000;

/// One past the highest number of an anonymous login.
pub const ANON_MAX: u32 = 99999;

/// An anonymous login: `justinfan` followed by a number from `ANON_MIN` up to, but not
/// including, `ANON_MAX`.
pub open spec fn anon_login(s: Seq<char>) -> bool {
    exists|n: nat| ANON_MIN <= n < ANON_MAX && s == "justinfan"@ + decimal(n)
}

/// A random number in `lo..hi`.
///
/// This is `rand::thread_rng().gen_range(lo..hi)`, which panics on an empty range and
/// otherwise gives a number of the range; which one is left to chance.
#[verifier::external_body]
fn random_in_range(lo: u32, hi: u32) -> (r: u32)
    requires
        lo < hi,
    ensures
        lo <= r < hi,
{
    rand::thread_rng().gen_range(lo..hi)
}

/// Credentials used to authenticate to Twitch IRC.
///
/// The [`Default`] impl uses [`Credentials::anon`].
#[derive(Clone, Debug)]
pub struct Credentials {
    /// The login.
    pub login: String,
    /// The OAuth token; none for an anonymous login.
    pub token: Option<String>,
}

impl Credentials {
    /// Credentials using an OAuth token.
    ///
    /// `token` should be a User Access Token.
    pub fn new(login: &str, token: &str) -> (r: Credentials)
        ensures
            r.login@ == login@,
            r.token matches Some(t) && t@ == token@,
    {
        Credentials { login: String::from_str(login), token: Some(String::from_str(token)) }
    }

    /// An anonymous login.
    ///
    /// Twitch allows logging in using any username in the form `justinfan?????`
    /// where `?` is any digit. For example, `justinfan11824` is a valid username.
    pub fn anon() -> (r: Credentials)
        ensures
            r.token is None,
            anon_login(r.login@),
    {
        let n = random_in_range(ANON_MIN, ANON_MAX);
        let mut login = String::from_str("justinfan");
        push_decimal(&mut login, n as u64);
        proof {
            assert(anon_login(login@)) by {
                assert(ANON_MIN <= (n as nat) < ANON_MAX && login@ == "justinfan"@ + decimal(n as nat));
            }
        }
        Credentials { login, token: None }
    }

    /// Whether these credentials are anonymous: they have no token.
    pub fn is_anon(&self) -> (r: bool)
        ensures
            r == (self.token is None),
    {
        self.token.is_none()
    }

    /// The login.
    pub fn login(&self) -> (r: &str)
        ensures
            r@ == self.login@,
    {
        self.login.as_str()
    }

    /// The token, if any.
    pub fn token(&self) -> (r: Option<&str>)
        ensures
            match self.token {
                Some(t) => r matches Some(x) && x@ == t@,
                None => r is None,
            },
    {
        match &self.token {
            Some(t) => Some(t.as_str()),
            None => None,
        }
    }
}

impl Default for Credentials {
    fn default() -> (r: Credentials)
        ensures
            r.token is None,
            anon_login(r.login@),
    {
        Credentials::anon()
    }
}

/// Reconnect backoff configuration.
#[derive(Clone, Copy, Debug, PartialEq, Eq, Structural)]
pub struct Backoff {
    /// The maximum number of reconnect attempts to make.
    pub max_tries: Option<u64>,
    /// Before attempting the first reconnect, the client will wait this long, in milliseconds.
    pub initial_delay: u64,
    /// After each failed reconnect attempt, the delay will be multiplied by this value.
    pub delay_multiplier: u32,
    /// The maximum delay to wait inbetween connection attempts, in milliseconds.
    pub max_delay: u64,
}

impl Default for Backoff {
    fn default() -> (r: Backoff)
        ensures
            r == (Backoff { max_tries: Some(8), initial_delay: 1000, delay_multiplier: 3, max_delay: 12000 }),
    {
        Backoff { max_tries: Some(8), initial_delay: 1000, delay_multiplier: 3, max_delay: 12000 }
    }
}

/// Client configuration.
#[derive(Clone, Debug)]
pub struct Config {
    /// Credentials to use when logging in to Twitch IRC.
    pub credentials: Credentials,
    /// Connect and reconnect timeout, in milliseconds.
    pub timeout: u64,
    /// Reconnect backoff.
    pub backoff: Backoff,
}

impl Default for Config {
    fn default() -> (r: Config)
        ensures
            r.credentials.token is None,
            anon_login(r.credentials.login@),
            r.timeout == DEFAULT_TIMEOUT,
            r.backoff == (Backoff { max_tries: Some(8), initial_delay: 1000, delay_multiplier: 3, max_delay: 12000 }),
    {
        Config { credentials: Credentials::default(), timeout: DEFAULT_TIMEOUT, backoff: Backoff::default() }
    }
}

/// Builder for a client's [`Config`].
#[derive(Debug)]
pub struct ClientBuilder {
    config: Config,
}

impl ClientBuilder {
    /// A builder that starts from the default configuration.
    pub fn new() -> (r: ClientBuilder)
        ensures
            r.config().credentials.token is None,
            anon_login(r.config().credentials.login@),
            r.config().timeout == DEFAULT_TIMEOUT,
            r.config().backoff == (Backoff { max_tries: Some(8), initial_delay: 1000, delay_multiplier: 3, max_delay: 12000 }),
    {
        ClientBuilder { config: Config::default() }
    }

    /// The configuration built so far.
    pub closed spec fn config(self) -> Config {
        self.config
    }

    /// Set the credentials.
    pub fn credentials(self, credentials: Credentials) -> (r: ClientBuilder)
        ensures
            r.config() == (Config { credentials, ..self.config() }),
    {
        let mut b = self;
        b.config.credentials = credentials;
        b
    }

    /// Set the timeout used on various operations, such as connecting and reconnecting,
    /// in milliseconds.
    pub fn timeout(self, timeout: u64) -> (r: ClientBuilder)
        ensures
            r.config() == (Config { timeout, ..self.config() }),
    {
        let mut b = self;
        b.config.timeout = timeout;
        b
    }

    /// Set the backoff settings used when reconnecting.
    pub fn backoff(self, backoff: Backoff) -> (r: ClientBuilder)
        ensures
            r.config() == (Config { backoff, ..self.config() }),
    {
        let mut b = self;
        b.config.backoff = backoff;
        b
    }

    /// The configuration to connect with.
    pub fn build(self) -> (r: Config)
        ensures
            r == self.config(),
    {
        self.config
    }
}

/// Where a series of reconnect attempts stands: the attempts left (none for no limit)
/// and the delay before the next one, in milliseconds.
#[derive(Clone, Copy, Debug, PartialEq, Eq, Structural)]
pub struct Reconnect {
    /// The attempts left; `None` for no limit.
    pub tries: Option<u64>,
    /// The delay before the next attempt, in milliseconds.
    pub delay: u64,
}

/// The delay after `delay` has been multiplied, capped by the maximum delay.
pub open spec fn next_delay(delay: u64, backoff: Backoff) -> u64 {
    if delay * backoff.delay_multiplier >= backoff.max_delay {
        backoff.max_delay
    } else {
        (delay * backoff.delay_multiplier) as u64
    }
}

impl Reconnect {
    /// The first attempt of a series: the backoff's tries, and its initial delay.
    pub fn start(backoff: &Backoff) -> (r: Reconnect)
        ensures
            r.tries == backoff.max_tries,
            r.delay == backoff.initial_delay,
    {
        Reconnect { tries: backoff.max_tries, delay: backoff.initial_delay }
    }

    /// Whether another attempt may be made, and how long to wait before it.
    ///
    /// Attempts may be made while the tries are unlimited or at least one is left; each
    /// takes one try and multiplies the delay, up to the maximum delay.
    pub fn next_attempt(&mut self, backoff: &Backoff) -> (r: Option<u64>)
        ensures
            old(self).tries == Some(0u64) ==> r is None && *final(self) == *old(self),
            old(self).tries != Some(0u64) ==> r == Some(old(self).delay) && final(self).tries == match old(self).tries {
                Some(t) => Some((t - 1) as u64),
                None => None,
            } && final(self).delay == next_delay(old(self).delay, *backoff),
    {
        match self.tries {
            Some(0) => return None,
            _ => {},
        }
        let delay = self.delay;
        self.tries = match self.tries {
            Some(t) => Some(t - 1),
            None => None,
        };
        self.delay = match delay.checked_mul(backoff.delay_multiplier as u64) {
            Some(d) => if d >= backoff.max_delay {
                backoff.max_delay
            } else {
                d
            },
            None => backoff.max_delay,
        };
        Some(delay)
    }
}

/// The capabilities a client requests.
pub open spec fn capabilities() -> Seq<char> {
    "twitch.tv/commands twitch.tv/tags twitch.tv/membership"@
}

/// The token sent by an anonymous login.
pub open spec fn anon_token() -> Seq<char> {
    "just_a_lil_guy"@
}

/// The token of some credentials, with `oauth:` in front unless it is already there.
pub open spec fn pass_of(token: Seq<char>) -> Seq<char> {
    if "oauth:"@.len() <= token.len() && token.take("oauth:"@.len() as int) == "oauth:"@ {
        token
    } else {
        "oauth:"@ + token
    }
}

/// The lines a client sends to log in: it requests the capabilities, then sends its
/// token (or a stand-in for an anonymous login) and its login.
pub open spec fn handshake_text(login: Seq<char>, token: Option<Seq<char>>) -> Seq<char> {
    let t = match token {
        Some(t) => t,
        None => anon_token(),
    };
    "CAP REQ :"@ + capabilities() + "\r\n"@ + "PASS "@ + pass_of(t) + "\r\n"@ + "NICK "@ + login + "\r\n"@
}

/// The lines a client sends to log in with `credentials`.
pub fn handshake_request(credentials: &Credentials) -> (r: String)
    ensures
        r@ == handshake_text(credentials.login@, match credentials.token {
            Some(t) => Some(t@),
            None => None,
        }),
{
    let token = match &credentials.token {
        Some(t) => t.as_str(),
        None => "just_a_lil_guy",
    };
    let mut s = String::from_str("CAP REQ :");
    s.append("twitch.tv/commands twitch.tv/tags twitch.tv/membership");
    s.append("\r\n");
    s.append("PASS ");
    if !starts_with_str(token, "oauth:") {
        s.append("oauth:");
    }
    s.append(token);
    s.append("\r\n");
    s.append("NICK ");
    s.append(credentials.login.as_str());
    s.append("\r\n");
    s
}

/// Why a handshake failed.
/// The ways an attempt to connect can fail.
#[derive(Clone, Copy, Debug, PartialEq, Eq, Structural)]
pub enum ConnectFailure {
    /// Reading from the stream failed.
    Read,
    /// An I/O operation on the stream failed.
    Io,
    /// The host name was not a valid DNS name.
    Dns,
    /// The TLS configuration could not be loaded.
    Tls,
    /// The connection could not be opened.
    Open,
    /// The connection timed out.
    Timeout,
    /// The server's first reply was not the expected one.
    Welcome,
    /// The credentials were refused.
    Auth,
    /// The server sent a notice that the handshake did not expect.
    Notice,
}

impl ConnectFailure {
    /// Whether a reconnect tries again after this failure: only after a failed I/O
    /// operation or a connection that could not be opened.
    pub fn should_retry(&self) -> (r: bool)
        ensures
            r == (*self == ConnectFailure::Open || *self == ConnectFailure::Io),
    {
        match self {
            ConnectFailure::Open => true,
            ConnectFailure::Io => true,
            _ => false,
        }
    }
}

#[derive(Clone, Copy, Debug, PartialEq, Eq, Structural)]
pub enum HandshakeError {
    /// The server answered with a message that a handshake does not expect.
    Welcome,
    /// The server refused the credentials.
    Auth,
    /// The server sent a notice that a handshake does not expect.
    Notice,
}

/// How the reply to the capability request is read: a `CAP` whose params begin with
/// `* ACK` is accepted; any other `CAP` means the credentials were refused; any other
/// command is unexpected.
pub open spec fn capability_reply(m: IrcMessageRef) -> Result<(), HandshakeError> {
    if m.spec_command() is Capability {
        match m.spec_params() {
            Some(p) => if "* ACK"@.len() <= p.len() && p.take("* ACK"@.len() as int) == "* ACK"@ {
                Ok(())
            } else {
                Err(HandshakeError::Auth)
            },
            None => Err(HandshakeError::Auth),
        }
    } else {
        Err(HandshakeError::Welcome)
    }
}

/// How the reply to the login is read: `001` is a welcome; a `NOTICE` whose params
/// contain `authentication failed` means the credentials were refused; any other
/// `NOTICE` is unexpected, and so is any other command.
pub open spec fn welcome_reply(m: IrcMessageRef) -> Result<(), HandshakeError> {
    if m.spec_command() is RplWelcome {
        Ok(())
    } else if m.spec_command() is Notice {
        match m.spec_params() {
            Some(p) => if pattern_index(p, "authentication failed"@, 0) is Some {
                Err(HandshakeError::Auth)
            } else {
                Err(HandshakeError::Notice)
            },
            None => Err(HandshakeError::Notice),
        }
    } else {
        Err(HandshakeError::Welcome)
    }
}

/// Reads the reply to the capability request.
pub fn check_capability_reply(message: &IrcMessageRef) -> (r: Result<(), HandshakeError>)
    ensures
        r == capability_reply(*message),
{
    match message.command() {
        Command::Capability => match message.params() {
            Some(p) => if starts_with_str(p, "* ACK") {
                Ok(())
            } else {
                Err(HandshakeError::Auth)
            },
            None => Err(HandshakeError::Auth),
        },
        _ => Err(HandshakeError::Welcome),
    }
}

/// Reads the reply to the login.
pub fn check_welcome(message: &IrcMessageRef) -> (r: Result<(), HandshakeError>)
    ensures
        r == welcome_reply(*message),
{
    match message.command() {
        Command::RplWelcome => Ok(()),
        Command::Notice => match message.params() {
            Some(p) => if contains_str(p, "authentication failed") {
                Err(HandshakeError::Auth)
            } else {
                Err(HandshakeError::Notice)
            },
            None => Err(HandshakeError::Notice),
        },
        _ => Err(HandshakeError::Welcome),
    }
}

/// After an attempt the delay never exceeds the maximum delay.
pub proof fn lemma_next_delay_bounded(delay: u64, backoff: Backoff)
    ensures
        next_delay(delay, backoff) <= backoff.max_delay,
{
}

/// Where a series of attempts stands after `k` attempts from `r`, each allowed.
pub open spec fn after_attempts(r: Reconnect, backoff: Backoff, k: nat) -> Reconnect
    decreases k,
{
    if k == 0 {
        r
    } else {
        let next = Reconnect {
            tries: match r.tries {
                Some(t) => Some((t - 1) as u64),
                None => None,
            },
            delay: next_delay(r.delay, backoff),
        };
        after_attempts(next, backoff, (k - 1) as nat)
    }
}

/// A series with `n` tries allows `n` attempts: each of the first `n` calls of
/// `next_attempt` is allowed, and after them no try is left.
pub proof fn lemma_attempts_limited(backoff: Backoff, n: u64, k: nat)
    requires
        backoff.max_tries == Some(n),
        k <= n,
    ensures
        after_attempts(Reconnect { tries: Some(n), delay: backoff.initial_delay }, backoff, k).tries
            == Some((n - k) as u64),
    decreases k,
{
    lemma_attempts_from(Reconnect { tries: Some(n), delay: backoff.initial_delay }, backoff, n, k);
}

proof fn lemma_attempts_from(r: Reconnect, backoff: Backoff, n: u64, k: nat)
    requires
        r.tries == Some(n),
        k <= n,
    ensures
        after_attempts(r, backoff, k).tries == Some((n - k) as u64),
    decreases k,
{
    if k > 0 {
        let next = Reconnect { tries: Some((n - 1) as u64), delay: next_delay(r.delay, backoff) };
        lemma_attempts_from(next, backoff, (n - 1) as u64, (k - 1) as nat);
    }
}

/// The digits of a decimal number read back as that number.
pub proof fn lemma_decimal_reads_back(n: nat)
    ensures
        decimal(n).len() > 0,
        all_digits(decimal(n)),
        digits_value(decimal(n)) == n,
        decimal(n)[0] != '+',
    decreases n,
{
    if n >= 10 {
        lemma_decimal_reads_back(n / 10);
        let d = decimal(n / 10);
        let e = decimal(n);
        assert(e.drop_last() =~= d);
        assert(e.last() == digit_char(n % 10));
        assert(digit_char(n % 10) as int - '0' as int == n % 10);
        assert forall|i: int| 0 <= i < e.len() implies is_digit(#[trigger] e[i]) by {
            if i < d.len() {
                assert(e[i] == d[i]);
            }
        }
        assert(e[0] == d[0]);
        assert(digits_value(e) == digits_value(e.drop_last()) * 10 + (e.last() as int - '0' as int));
        assert(n == (n / 10) * 10 + n % 10);
    } else {
        assert(digit_char(n) as int - '0' as int == n);
        assert(decimal(n).drop_last() =~= Seq::<char>::empty());
        assert(digits_value(decimal(n)) == digits_value(decimal(n).drop_last()) * 10 + (decimal(n).last() as int - '0' as int));
    }
}

/// What [`push_decimal`] writes, [`crate::strings::parse_u64`] reads back.
pub proof fn lemma_decimal_parses(n: nat, max: int)
    requires
        n <= max,
    ensures
        parse_unsigned(decimal(n), max) == Some(n as int),
{
    lemma_decimal_reads_back(n);
}

/// A token gets its `oauth:` prefix once: the password made from a password is the
/// same password.
pub proof fn lemma_pass_idempotent(token: Seq<char>)
    ensures
        pass_of(pass_of(token)) == pass_of(token),
{
    reveal_strlit("oauth:");
    let p = "oauth:"@;
    if !(p.len() <= token.len() && token.take(p.len() as int) == p) {
        assert((p + token).take(p.len() as int) =~= p);
    }
}

} // verus!
