//! The client: its options and builder, the connection state machine, the launch plan for
//! the CLI server, and the replies to the server's requests.

use crate::error::CopilotError;
use crate::session::obj;
use crate::json::{
    json_parse, json_view, parse_json_text, str_eq, view_entries, Json, JsonView,
};
use crate::process::{
    env_view, find_node, is_node_script, is_node_script_spec, names_executable, ProcessOptions,
};
use crate::registry::{assoc_set, Registry};
use crate::text::{
    all_digits, find_char, find_pattern, find_pattern_exec, first_index_of, from_chars,
    is_digit, last_index_of, parse_u16, parse_u16_spec, push_str, rfind_char, string_of,
    to_chars, trim, trim_chars, u64_text, decimal,
};
use crate::types::{ClientOptions, ConnectionState, LogLevel, SDK_PROTOCOL_VERSION};
use vstd::prelude::*;

verus! {

// =============================================================================
// Builder
// =============================================================================

/// Builder for creating a client.
#[derive(Debug)]
pub struct ClientBuilder {
    pub options: ClientOptions,
}

/// The environment of client options, empty when none was set.
pub open spec fn options_env(o: ClientOptions) -> Seq<(Seq<char>, Seq<char>)> {
    match o.environment {
        Some(e) => env_view(e),
        None => Seq::empty(),
    }
}

/// The extra CLI arguments of client options, empty when none were set.
pub open spec fn options_args(o: ClientOptions) -> Seq<Seq<char>> {
    match o.cli_args {
        Some(a) => Seq::new(a@.len(), |i: int| a@[i]@),
        None => Seq::empty(),
    }
}

impl ClientBuilder {
    /// A builder holding the default options.
    pub fn new() -> (r: ClientBuilder)
        ensures
            r.options.cli_path is None,
            r.options.cli_args is None,
            r.options.cwd is None,
            r.options.port == 0,
            r.options.use_stdio,
            r.options.cli_url is None,
            r.options.log_level == LogLevel::Info,
            r.options.auto_start,
            r.options.auto_restart,
            r.options.environment is None,
    {
        ClientBuilder { options: ClientOptions::default() }
    }

    /// Sets the CLI executable path.
    pub fn cli_path(self, path: &str) -> (r: ClientBuilder)
        ensures
            r.options == (ClientOptions { cli_path: r.options.cli_path, ..self.options }),
            r.options.cli_path matches Some(p) && p@ == path@,
    {
        let mut o = self.options;
        o.cli_path = Some(string_of(path));
        ClientBuilder { options: o }
    }

    /// Sets the extra arguments passed to the CLI.
    pub fn cli_args(self, args: Vec<String>) -> (r: ClientBuilder)
        ensures
            r.options == (ClientOptions { cli_args: Some(args), ..self.options }),
    {
        let mut o = self.options;
        o.cli_args = Some(args);
        ClientBuilder { options: o }
    }

    /// Adds one extra argument passed to the CLI.
    pub fn cli_arg(self, arg: &str) -> (r: ClientBuilder)
        ensures
            r.options == (ClientOptions { cli_args: r.options.cli_args, ..self.options }),
            options_args(r.options) == options_args(self.options).push(arg@),
            r.options.cli_args is Some,
    {
        let mut o = self.options;
        let mut args = match o.cli_args {
            Some(a) => a,
            None => Vec::new(),
        };
        let ghost before = args@;
        args.push(string_of(arg));
        o.cli_args = Some(args);
        proof {
            let a = o.cli_args->0;
            assert(Seq::new(a@.len(), |i: int| a@[i]@) =~= Seq::new(
                before.len(),
                |i: int| before[i]@,
            ).push(arg@));
        }
        ClientBuilder { options: o }
    }

    /// Uses stdio mode (the default) or not.
    pub fn use_stdio(self, use_stdio: bool) -> (r: ClientBuilder)
        ensures
            r.options == (ClientOptions { use_stdio, ..self.options }),
    {
        let mut o = self.options;
        o.use_stdio = use_stdio;
        ClientBuilder { options: o }
    }

    /// Connects to a running CLI server at `url` (`"host:port"`, `"http://host:port"` or
    /// `"port"`); this turns stdio mode off.
    pub fn cli_url(self, url: &str) -> (r: ClientBuilder)
        ensures
            r.options == (ClientOptions {
                cli_url: r.options.cli_url,
                use_stdio: false,
                ..self.options
            }),
            r.options.cli_url matches Some(u) && u@ == url@,
    {
        let mut o = self.options;
        o.cli_url = Some(string_of(url));
        o.use_stdio = false;
        ClientBuilder { options: o }
    }

    /// Sets the TCP port (0 lets the CLI choose).
    pub fn port(self, port: u16) -> (r: ClientBuilder)
        ensures
            r.options == (ClientOptions { port, ..self.options }),
    {
        let mut o = self.options;
        o.port = port;
        ClientBuilder { options: o }
    }

    /// Starts the connection on first use, or not.
    pub fn auto_start(self, auto_start: bool) -> (r: ClientBuilder)
        ensures
            r.options == (ClientOptions { auto_start, ..self.options }),
    {
        let mut o = self.options;
        o.auto_start = auto_start;
        ClientBuilder { options: o }
    }

    /// Restarts the connection after a fatal failure, or not.
    pub fn auto_restart(self, auto_restart: bool) -> (r: ClientBuilder)
        ensures
            r.options == (ClientOptions { auto_restart, ..self.options }),
    {
        let mut o = self.options;
        o.auto_restart = auto_restart;
        ClientBuilder { options: o }
    }

    /// Sets the CLI's log level.
    pub fn log_level(self, level: LogLevel) -> (r: ClientBuilder)
        ensures
            r.options == (ClientOptions { log_level: level, ..self.options }),
    {
        let mut o = self.options;
        o.log_level = level;
        ClientBuilder { options: o }
    }

    /// Sets the working directory of the CLI.
    pub fn cwd(self, dir: &str) -> (r: ClientBuilder)
        ensures
            r.options == (ClientOptions { cwd: r.options.cwd, ..self.options }),
            r.options.cwd matches Some(d) && d@ == dir@,
    {
        let mut o = self.options;
        o.cwd = Some(string_of(dir));
        ClientBuilder { options: o }
    }

    /// Sets an environment variable of the CLI, replacing an earlier value of that name.
    pub fn env(self, key: &str, value: &str) -> (r: ClientBuilder)
        ensures
            r.options == (ClientOptions { environment: r.options.environment, ..self.options }),
            r.options.environment is Some,
            options_env(r.options) == assoc_set(options_env(self.options), key@, value@),
    {
        let mut o = self.options;
        let mut e = match o.environment {
            Some(e) => e,
            None => Registry::new(),
        };
        let ghost before = e;
        assert(env_view(before) == options_env(o)) by {
            if o.environment is None {
                assert(env_view(before) =~= Seq::empty());
            }
        }
        let v = string_of(value);
        e.insert(string_of(key), v);
        proof {
            crate::process::lemma_env_view_assoc_set(before.view(), key@, v);
        }
        o.environment = Some(e);
        ClientBuilder { options: o }
    }

    /// Builds the client, checking that the options go together.
    pub fn build(self) -> (r: Result<Client, CopilotError>)
        ensures
            new_client_spec(self.options, r),
    {
        Client::new(self.options)
    }
}

impl Default for ClientBuilder {
    fn default() -> (r: ClientBuilder)
        ensures
            r.options.cli_path is None && r.options.cli_url is None && r.options.port == 0
                && r.options.use_stdio,
    {
        ClientBuilder::new()
    }
}

// =============================================================================
// Client
// =============================================================================

/// The client's options and connection state. The I/O that connects to the CLI is driven by
/// the caller, which asks the client what to do and reports what happened.
#[derive(Debug)]
pub struct Client {
    options: ClientOptions,
    state: ConnectionState,
}

/// The configuration error of client options, if any. A `cli_url` turns stdio mode off.
pub open spec fn client_config_error(o: ClientOptions) -> Option<Seq<char>> {
    let url = o.cli_url is Some;
    let stdio = if url {
        false
    } else {
        o.use_stdio
    };
    if url && o.cli_path is Some {
        Some("cli_url is mutually exclusive with cli_path"@)
    } else if url && o.port != 0 {
        Some("cli_url is mutually exclusive with port"@)
    } else if stdio && o.port != 0 {
        Some("port is only valid when use_stdio=false"@)
    } else {
        None
    }
}

/// What creating a client from `o` gives: a disconnected client holding `o` (stdio mode off
/// when a `cli_url` is set), or the configuration error.
pub open spec fn new_client_spec(o: ClientOptions, r: Result<Client, CopilotError>) -> bool {
    match r {
        Ok(c) => client_config_error(o) is None && c.state_spec() == ConnectionState::Disconnected
            && c.options_spec() == (ClientOptions {
            use_stdio: if o.cli_url is Some {
                false
            } else {
                o.use_stdio
            },
            ..o
        }),
        Err(e) => client_config_error(o) matches Some(m) && e matches CopilotError::InvalidConfig(
            x,
        ) && x@ == m,
    }
}

/// What the client does before a request.
#[derive(Debug, Clone, Copy, PartialEq, Eq, Structural)]
pub enum ConnectAction {
    /// Connected: go ahead.
    Ready,
    /// Disconnected with auto-start: start first.
    Start,
    /// Failed with auto-restart: restart (force-stop, then start) first.
    Restart,
}

impl Client {
    /// Creates a client, checking that the options go together.
    pub fn new(options: ClientOptions) -> (r: Result<Client, CopilotError>)
        ensures
            new_client_spec(options, r),
    {
        let mut options = options;
        if options.cli_url.is_some() {
            options.use_stdio = false;
        }
        if options.cli_url.is_some() {
            if options.cli_path.is_some() {
                return Err(
                    CopilotError::InvalidConfig(
                        string_of("cli_url is mutually exclusive with cli_path"),
                    ),
                );
            }
            if options.port != 0 {
                return Err(
                    CopilotError::InvalidConfig(string_of("cli_url is mutually exclusive with port")),
                );
            }
        }
        if options.use_stdio && options.port != 0 {
            return Err(
                CopilotError::InvalidConfig(string_of("port is only valid when use_stdio=false")),
            );
        }
        Ok(Client { options, state: ConnectionState::Disconnected })
    }

    /// A builder for fluent configuration.
    pub fn builder() -> (r: ClientBuilder)
        ensures
            r.options.cli_path is None,
            r.options.cli_args is None,
            r.options.cwd is None,
            r.options.port == 0,
            r.options.use_stdio,
            r.options.cli_url is None,
            r.options.log_level == LogLevel::Info,
            r.options.auto_start,
            r.options.auto_restart,
            r.options.environment is None,
    {
        ClientBuilder::new()
    }

    pub closed spec fn state_spec(&self) -> ConnectionState {
        self.state
    }

    pub closed spec fn options_spec(&self) -> ClientOptions {
        self.options
    }

    /// The current connection state.
    pub fn state(&self) -> (r: ConnectionState)
        ensures
            r == self.state_spec(),
    {
        self.state
    }

    /// The options the client was created with.
    pub fn options(&self) -> (r: &ClientOptions)
        ensures
            *r == self.options_spec(),
    {
        &self.options
    }

    /// Begins starting: `Ok(false)` when already connected (nothing to do), `Ok(true)` after
    /// moving from disconnected to connecting, and an error in any other state.
    pub fn begin_start(&mut self) -> (r: Result<bool, CopilotError>)
        ensures
            final(self).options_spec() == old(self).options_spec(),
            old(self).state_spec() == ConnectionState::Connected ==> r == Ok::<bool, CopilotError>(false)
                && final(self).state_spec() == ConnectionState::Connected,
            old(self).state_spec() == ConnectionState::Disconnected ==> r == Ok::<bool, CopilotError>(true)
                && final(self).state_spec() == ConnectionState::Connecting,
            (old(self).state_spec() == ConnectionState::Connecting || old(self).state_spec()
                == ConnectionState::Error) ==> (final(self).state_spec() == old(self).state_spec()
                && (r matches Err(CopilotError::InvalidConfig(m)) && m@
                == "Client is already started"@)),
    {
        match self.state {
            ConnectionState::Connected => Ok(false),
            ConnectionState::Disconnected => {
                self.state = ConnectionState::Connecting;
                Ok(true)
            },
            _ => Err(CopilotError::InvalidConfig(string_of("Client is already started"))),
        }
    }

    /// Records that starting failed: the client is in the error state.
    pub fn start_failed(&mut self)
        ensures
            final(self).options_spec() == old(self).options_spec(),
            final(self).state_spec() == ConnectionState::Error,
    {
        self.state = ConnectionState::Error;
    }

    /// Records that starting succeeded: the client is connected.
    pub fn start_succeeded(&mut self)
        ensures
            final(self).options_spec() == old(self).options_spec(),
            final(self).state_spec() == ConnectionState::Connected,
    {
        self.state = ConnectionState::Connected;
    }

    /// Records a stop (graceful or forced): the client is disconnected.
    pub fn stopped(&mut self)
        ensures
            final(self).options_spec() == old(self).options_spec(),
            final(self).state_spec() == ConnectionState::Disconnected,
    {
        self.state = ConnectionState::Disconnected;
    }

    /// What to do before a request: go ahead when connected, start when disconnected and
    /// auto-start is on, restart after an error when auto-restart is on, and otherwise fail
    /// as not connected.
    pub fn connect_action(&self) -> (r: Result<ConnectAction, CopilotError>)
        ensures
            r == connect_action_spec(self.state_spec(), self.options_spec()),
    {
        match self.state {
            ConnectionState::Connected => Ok(ConnectAction::Ready),
            ConnectionState::Disconnected => if self.options.auto_start {
                Ok(ConnectAction::Start)
            } else {
                Err(CopilotError::NotConnected)
            },
            ConnectionState::Error => if self.options.auto_restart {
                Ok(ConnectAction::Restart)
            } else {
                Err(CopilotError::NotConnected)
            },
            ConnectionState::Connecting => Err(CopilotError::NotConnected),
        }
    }

    /// Whether an error from a request calls for restarting the connection: a closed or
    /// missing connection, a transport error, an exited process, or the server's JSON-RPC
    /// error `-32801`.
    pub fn should_restart_on_error(&self, err: &CopilotError) -> (r: bool)
        ensures
            r == restart_worthy(*err),
    {
        match err {
            CopilotError::ConnectionClosed | CopilotError::NotConnected => true,
            CopilotError::Transport(_) => true,
            CopilotError::ProcessExit(_) => true,
            CopilotError::JsonRpc { code, .. } => *code == -32801,
            _ => false,
        }
    }

    /// Whether a failed request is retried after a restart: only its first attempt, while
    /// connected, with auto-restart on, for an error that calls for a restart.
    pub fn should_retry(&self, attempt: u32, err: &CopilotError) -> (r: bool)
        ensures
            r == (attempt == 0 && self.state_spec() == ConnectionState::Connected
                && self.options_spec().auto_restart && restart_worthy(*err)),
    {
        attempt == 0 && self.state == ConnectionState::Connected && self.options.auto_restart
            && self.should_restart_on_error(err)
    }
}

/// The action before a request, from the connection state and options.
pub open spec fn connect_action_spec(s: ConnectionState, o: ClientOptions) -> Result<
    ConnectAction,
    CopilotError,
> {
    match s {
        ConnectionState::Connected => Ok(ConnectAction::Ready),
        ConnectionState::Disconnected => if o.auto_start {
            Ok(ConnectAction::Start)
        } else {
            Err(CopilotError::NotConnected)
        },
        ConnectionState::Error => if o.auto_restart {
            Ok(ConnectAction::Restart)
        } else {
            Err(CopilotError::NotConnected)
        },
        ConnectionState::Connecting => Err(CopilotError::NotConnected),
    }
}

/// Whether an error calls for restarting the connection.
pub open spec fn restart_worthy(e: CopilotError) -> bool {
    match e {
        CopilotError::ConnectionClosed => true,
        CopilotError::NotConnected => true,
        CopilotError::Transport(_) => true,
        CopilotError::ProcessExit(_) => true,
        CopilotError::JsonRpc { code, .. } => code == -32801,
        _ => false,
    }
}

// =============================================================================
// Parsing
// =============================================================================

/// The `host:port` part of a CLI URL: trimmed, after the first `://` if any, before the
/// first `/` if any.
pub open spec fn cli_url_hostport(url: Seq<char>) -> Seq<char> {
    let s0 = trim(url);
    let s1 = match find_pattern(s0, seq![':', '/', '/']) {
        Some(i) => s0.skip(i + 3),
        None => s0,
    };
    match first_index_of(s1, '/') {
        Some(j) => s1.take(j),
        None => s1,
    }
}

/// The host and port that a CLI URL names, or the message of its configuration error. A
/// bare number is a port on `localhost`; otherwise the text after the last `:` is the port
/// and the trimmed text before it the host (`localhost` when empty).
pub open spec fn parse_cli_url_spec(url: Seq<char>) -> Result<(Seq<char>, u16), Seq<char>> {
    let s = cli_url_hostport(url);
    let bad_port = "Invalid port in cli_url: "@ + url;
    if all_digits(s) {
        match parse_u16_spec(s) {
            Some(p) => Ok(("localhost"@, p)),
            None => Err(bad_port),
        }
    } else {
        match last_index_of(s, ':') {
            Some(k) => {
                let host = trim(s.take(k));
                match parse_u16_spec(trim(s.skip(k + 1))) {
                    Some(p) => Ok(
                        (
                            if host.len() == 0 {
                                "localhost"@
                            } else {
                                host
                            },
                            p,
                        ),
                    ),
                    None => Err(bad_port),
                }
            },
            None => Err("Invalid cli_url format (expected host:port or port): "@ + url),
        }
    }
}

/// The characters `s[a..b]`.
fn slice_chars(s: &Vec<char>, a: usize, b: usize) -> (r: Vec<char>)
    requires
        a <= b <= s@.len(),
    ensures
        r@ == s@.subrange(a as int, b as int),
{
    let mut out: Vec<char> = Vec::new();
    let mut i: usize = a;
    while i < b
        invariant
            a <= i <= b <= s@.len(),
            out@ =~= s@.subrange(a as int, i as int),
        decreases b - i,
    {
        out.push(s[i]);
        i = i + 1;
    }
    out
}

/// An invalid-configuration error whose message is `prefix` followed by `tail`.
fn config_error(prefix: &str, tail: &str) -> (r: CopilotError)
    ensures
        r matches CopilotError::InvalidConfig(m) && m@ == prefix@ + tail@,
{
    let mut m = string_of(prefix);
    push_str(&mut m, tail);
    CopilotError::InvalidConfig(m)
}

/// Whether all characters are decimal digits.
fn all_digits_exec(s: &Vec<char>) -> (r: bool)
    ensures
        r == all_digits(s@),
{
    let mut i: usize = 0;
    while i < s.len()
        invariant
            0 <= i <= s.len(),
            forall|j: int| 0 <= j < i ==> is_digit(#[trigger] s@[j]),
        decreases s.len() - i,
    {
        if !('0' <= s[i] && s[i] <= '9') {
            return false;
        }
        i = i + 1;
    }
    true
}

/// Parses a CLI URL (`"host:port"`, `"http://host:port"` or `"port"`) into its host and
/// port.
pub fn parse_cli_url(url: &str) -> (r: Result<(String, u16), CopilotError>)
    ensures
        match r {
            Ok((h, p)) => parse_cli_url_spec(url@) == Ok::<(Seq<char>, u16), Seq<char>>((h@, p)),
            Err(e) => parse_cli_url_spec(url@) matches Err(m) && e matches CopilotError::InvalidConfig(
                x,
            ) && x@ == m,
        },
{
    let chars = to_chars(url);
    let s0 = trim_chars(chars.as_slice());
    let sep = vec![':', '/', '/'];
    assert(sep@ =~= seq![':', '/', '/']);
    let n0 = s0.len();
    let s1 = match find_pattern_exec(s0.as_slice(), sep.as_slice()) {
        Some(i) => {
            proof {
                assert(exists|k: int| crate::text::is_first_occurrence(s0@, sep@, k));
                let k = choose|k: int| crate::text::is_first_occurrence(s0@, sep@, k);
                assert(k == i);
                assert(crate::text::occurs_at(s0@, sep@, k));
                assert(sep@.len() == 3);
                assert(i + 3 <= s0@.len());
            }
            slice_chars(&s0, i + 3, n0)
        },
        None => s0,
    };
    let s = match find_char(s1.as_slice(), '/') {
        Some(j) => {
            proof {
                let k = choose|k: int| crate::text::is_first_of(s1@, '/', k);
            }
            slice_chars(&s1, 0, j)
        },
        None => s1,
    };
    assert(s@ == cli_url_hostport(url@)) by {
        assert(s0@.skip(0) =~= s0@);
    }
    if all_digits_exec(&s) {
        match parse_u16(s.as_slice()) {
            Some(p) => return Ok((string_of("localhost"), p)),
            None => return Err(config_error("Invalid port in cli_url: ", url)),
        }
    }
    match rfind_char(s.as_slice(), ':') {
        Some(k) => {
            proof {
                let q = choose|q: int| crate::text::is_last_of(s@, ':', q);
            }
            let before = slice_chars(&s, 0, k);
            let host = trim_chars(before.as_slice());
            let after = slice_chars(&s, k + 1, s.len());
            let port_text = trim_chars(after.as_slice());
            assert(before@ =~= s@.take(k as int));
            assert(after@ =~= s@.skip(k + 1));
            match parse_u16(port_text.as_slice()) {
                Some(p) => {
                    if host.len() == 0 {
                        Ok((string_of("localhost"), p))
                    } else {
                        Ok((from_chars(host.as_slice()), p))
                    }
                },
                None => Err(config_error("Invalid port in cli_url: ", url)),
            }
        },
        None => Err(config_error("Invalid cli_url format (expected host:port or port): ", url)),
    }
}

/// An ASCII letter in lower case; other characters unchanged.
pub open spec fn ascii_lower(c: char) -> char {
    if 'A' <= c && c <= 'Z' {
        ((c as u8) + 32) as char
    } else {
        c
    }
}

/// The phrase that announces the CLI server's port.
pub open spec fn port_phrase() -> Seq<char> {
    seq!['l', 'i', 's', 't', 'e', 'n', 'i', 'n', 'g', ' ', 'o', 'n', ' ', 'p', 'o', 'r', 't']
}

/// The digits at the start of `s`.
pub open spec fn leading_digits(s: Seq<char>) -> Seq<char>
    decreases s.len(),
{
    if s.len() > 0 && is_digit(s[0]) {
        seq![s[0]] + leading_digits(s.drop_first())
    } else {
        Seq::empty()
    }
}

/// The first run of digits in `s`, empty when there is none.
pub open spec fn first_digit_run(s: Seq<char>) -> Seq<char>
    decreases s.len(),
{
    if s.len() == 0 {
        Seq::empty()
    } else if is_digit(s[0]) {
        leading_digits(s)
    } else {
        first_digit_run(s.drop_first())
    }
}

/// The port that a line of CLI output announces: the first run of digits after the first
/// `listening on port` (matched without regard to the case of ASCII letters), as a `u16`.
pub open spec fn parse_listening_port_spec(line: Seq<char>) -> Option<u16> {
    match find_pattern(Seq::new(line.len(), |i: int| ascii_lower(line[i])), port_phrase()) {
        Some(i) => parse_u16_spec(first_digit_run(line.skip(i))),
        None => None,
    }
}

/// Reads the port from a line such as `CLI server listening on port 4321`.
pub fn parse_listening_port(line: &str) -> (r: Option<u16>)
    ensures
        r == parse_listening_port_spec(line@),
{
    let s = to_chars(line);
    let mut lower: Vec<char> = Vec::new();
    let mut i: usize = 0;
    while i < s.len()
        invariant
            0 <= i <= s.len(),
            lower@ =~= Seq::new(i as nat, |k: int| ascii_lower(s@[k])),
        decreases s.len() - i,
    {
        let c = s[i];
        let l = if 'A' <= c && c <= 'Z' {
            ((c as u8) + 32) as char
        } else {
            c
        };
        lower.push(l);
        i = i + 1;
    }
    let phrase = vec!['l', 'i', 's', 't', 'e', 'n', 'i', 'n', 'g', ' ', 'o', 'n', ' ', 'p', 'o', 'r', 't'];
    assert(phrase@ =~= port_phrase());
    let start = match find_pattern_exec(lower.as_slice(), phrase.as_slice()) {
        Some(k) => k,
        None => return None,
    };
    proof {
        let q = choose|q: int| crate::text::is_first_occurrence(lower@, phrase@, q);
        assert(crate::text::occurs_at(lower@, phrase@, q));
    }
    let mut j: usize = start;
    assert(s@.skip(start as int) == s@.skip(j as int));
    while j < s.len() && !('0' <= s[j] && s[j] <= '9')
        invariant
            start <= j <= s@.len(),
            first_digit_run(s@.skip(start as int)) == first_digit_run(s@.skip(j as int)),
        decreases s.len() - j,
    {
        assert(s@.skip(j as int).drop_first() =~= s@.skip(j + 1));
        j = j + 1;
    }
    let mut digits: Vec<char> = Vec::new();
    let mut k: usize = j;
    proof {
        if j < s.len() {
            assert(first_digit_run(s@.skip(j as int)) == leading_digits(s@.skip(j as int)));
        } else {
            assert(s@.skip(j as int) =~= Seq::<char>::empty());
        }
    }
    assert(digits@ + leading_digits(s@.skip(j as int)) =~= leading_digits(s@.skip(j as int)));
    while k < s.len() && '0' <= s[k] && s[k] <= '9'
        invariant
            j <= k <= s@.len(),
            digits@ + leading_digits(s@.skip(k as int)) == leading_digits(s@.skip(j as int)),
        decreases s.len() - k,
    {
        assert(s@.skip(k as int).drop_first() =~= s@.skip(k + 1));
        assert(leading_digits(s@.skip(k as int)) == seq![s@[k as int]] + leading_digits(
            s@.skip(k + 1),
        ));
        digits.push(s[k]);
        assert(digits@ + leading_digits(s@.skip(k + 1)) =~= digits@.drop_last() + leading_digits(
            s@.skip(k as int),
        ));
        k = k + 1;
    }
    proof {
        if k < s.len() {
            assert(leading_digits(s@.skip(k as int)) == Seq::<char>::empty());
        } else {
            assert(s@.skip(k as int) =~= Seq::<char>::empty());
        }
        assert(digits@ =~= digits@ + Seq::<char>::empty());
        if j < s.len() {
        } else {
            assert(digits@ =~= Seq::<char>::empty());
        }
    }
    parse_u16(digits.as_slice())
}

/// The arguments of a tool call: `arguments`, else `argumentsJson`, else an empty object; a
/// string is parsed as JSON text (an empty object when that fails) and null becomes an empty
/// object.
pub open spec fn normalize_args_spec(params: JsonView) -> JsonView {
    let raw = match params.get("arguments"@) {
        Some(v) => v,
        None => match params.get("argumentsJson"@) {
            Some(v) => v,
            None => JsonView::Object(Seq::empty()),
        },
    };
    match raw {
        JsonView::Str(s) => match json_parse(s) {
            Some(v) => v,
            None => JsonView::Object(Seq::empty()),
        },
        JsonView::Null => JsonView::Object(Seq::empty()),
        other => other,
    }
}

/// The arguments of a `tool.call` request, normalised to a JSON value.
pub fn normalize_tool_arguments(params: &Json) -> (r: Json)
    ensures
        r@ == normalize_args_spec(params@),
{
    let raw = match params.get("arguments") {
        Some(v) => v.deep_clone(),
        None => match params.get("argumentsJson") {
            Some(v) => v.deep_clone(),
            None => Json::empty_object(),
        },
    };
    match raw {
        Json::Str(s) => match parse_json_text(s.as_str()) {
            Some(v) => v,
            None => Json::empty_object(),
        },
        Json::Null => Json::empty_object(),
        other => other,
    }
}

// =============================================================================
// Launching the CLI
// =============================================================================

/// The views of a list of strings.
pub open spec fn texts(v: Seq<String>) -> Seq<Seq<char>> {
    Seq::new(v.len(), |i: int| v[i]@)
}

/// The command that runs the CLI at `path` with `args`: a Node.js script is run by the Node
/// executable `node` when one was found, anything else directly.
pub open spec fn resolve_with_node(
    path: Seq<char>,
    args: Seq<Seq<char>>,
    node: Option<Seq<char>>,
) -> (Seq<char>, Seq<Seq<char>>) {
    if is_node_script_spec(path) && node is Some {
        (node->0, seq![path] + args)
    } else {
        (path, args)
    }
}

/// The command that runs the CLI at `cli_path` with `args`, given where Node.js was found.
pub fn resolve_cli_command_with(cli_path: &str, args: &Vec<String>, node: Option<String>) -> (r: (
    String,
    Vec<String>,
))
    ensures
        (r.0@, texts(r.1@)) == resolve_with_node(
            cli_path@,
            texts(args@),
            match node {
                Some(n) => Some(n@),
                None => None,
            },
        ),
{
    if is_node_script(cli_path) {
        if let Some(n) = node {
            let mut full: Vec<String> = Vec::new();
            full.push(string_of(cli_path));
            let mut i: usize = 0;
            while i < args.len()
                invariant
                    0 <= i <= args.len(),
                    texts(full@) =~= seq![cli_path@] + texts(args@.take(i as int)),
                decreases args.len() - i,
            {
                let ghost pre = full@;
                full.push(args[i].clone());
                assert(texts(full@) =~= texts(pre).push(args@[i as int]@));
                assert(texts(args@.take(i + 1)) =~= texts(args@.take(i as int)).push(args@[i as int]@));
                i = i + 1;
            }
            assert(args@.take(args.len() as int) =~= args@);
            return (n, full);
        }
    }
    (string_of(cli_path), copy_strings(args))
}

/// A copy of a list of strings.
fn copy_strings(v: &Vec<String>) -> (r: Vec<String>)
    ensures
        texts(r@) == texts(v@),
{
    let mut out: Vec<String> = Vec::new();
    let mut i: usize = 0;
    while i < v.len()
        invariant
            0 <= i <= v.len(),
            texts(out@) =~= texts(v@.take(i as int)),
        decreases v.len() - i,
    {
        out.push(v[i].clone());
        assert(texts(v@.take(i + 1)) =~= texts(v@.take(i as int)).push(v@[i as int]@));
        i = i + 1;
    }
    assert(v@.take(v.len() as int) =~= v@);
    out
}

/// What a lookup of Node.js can give back: nothing, or a file that begins with `node`.
pub open spec fn node_lookup_result(n: Option<Seq<char>>) -> bool {
    n matches Some(p) ==> names_executable(p, "node"@)
}

/// Whether `(exe, out)` is the command for the CLI at `path` with `args` for some result of
/// a lookup of Node.js.
pub open spec fn resolved_with_node_lookup(
    path: Seq<char>,
    args: Seq<Seq<char>>,
    exe: Seq<char>,
    out: Seq<Seq<char>>,
) -> bool {
    exists|n: Option<Seq<char>>|
        node_lookup_result(n) && #[trigger] resolve_with_node(path, args, n) == (exe, out)
}

/// Resolves the command that runs the CLI: a Node.js script is run through the `node`
/// found in `PATH` when there is one; anything else is run directly.
pub fn resolve_cli_command(cli_path: &str, args: &Vec<String>) -> (r: (String, Vec<String>))
    ensures
        resolved_with_node_lookup(cli_path@, texts(args@), r.0@, texts(r.1@)),
{
    if is_node_script(cli_path) {
        let node = find_node();
        let ghost n = crate::json::opt_string_view(node);
        let r = resolve_cli_command_with(cli_path, args, node);
        assert(node_lookup_result(n) && resolve_with_node(cli_path@, texts(args@), n) == (
            r.0@,
            texts(r.1@),
        ));
        r
    } else {
        let r = resolve_cli_command_with(cli_path, args, None);
        assert(node_lookup_result(None) && resolve_with_node(cli_path@, texts(args@), None) == (
            r.0@,
            texts(r.1@),
        ));
        r
    }
}

/// Whether `ext` is `name` (lower case ASCII) up to the case of ASCII letters.
pub open spec fn ext_is(ext: Option<Seq<char>>, name: Seq<char>) -> bool {
    match ext {
        Some(e) => e.len() == name.len() && forall|i: int| 0 <= i < e.len() ==> ascii_lower(e[i])
            == name[i],
        None => false,
    }
}

/// The command that runs the CLI on Windows. A Node.js script runs through `node` when it
/// was found; an npm `.cmd` wrapper runs its loader script through `node` when both were
/// found, else through `cmd /c`; a `.bat` file and any path that is not absolute run through
/// `cmd /c`; anything else runs directly.
pub open spec fn resolve_windows_spec(
    path: Seq<char>,
    args: Seq<Seq<char>>,
    ext: Option<Seq<char>>,
    loader: Option<Seq<char>>,
    node: Option<Seq<char>>,
    absolute: bool,
) -> (Seq<char>, Seq<Seq<char>>) {
    let via_cmd = ("cmd"@, seq!["/c"@, path] + args);
    if is_node_script_spec(path) && node is Some {
        (node->0, seq![path] + args)
    } else if ext_is(ext, "cmd"@) {
        if loader is Some && node is Some {
            (node->0, seq![loader->0] + args)
        } else {
            via_cmd
        }
    } else if ext_is(ext, "bat"@) || !absolute {
        via_cmd
    } else {
        (path, args)
    }
}

/// The view of an optional string slice.
pub open spec fn opt_str_seq(o: Option<&str>) -> Option<Seq<char>> {
    match o {
        Some(e) => Some(e@),
        None => None,
    }
}

/// Whether an extension is `name` up to the case of ASCII letters.
pub(crate) fn ext_matches(ext: Option<&str>, name: &str) -> (r: bool)
    ensures
        r == ext_is(opt_str_seq(ext), name@),
{
    let e = match ext {
        Some(e) => to_chars(e),
        None => return false,
    };
    let n = to_chars(name);
    if e.len() != n.len() {
        return false;
    }
    let mut i: usize = 0;
    while i < e.len()
        invariant
            0 <= i <= e.len(),
            e.len() == n.len(),
            opt_str_seq(ext) == Some(e@),
            n@ == name@,
            forall|j: int| 0 <= j < i ==> ascii_lower(e@[j]) == n@[j],
        decreases e.len() - i,
    {
        let c = e[i];
        let l = if 'A' <= c && c <= 'Z' {
            ((c as u8) + 32) as char
        } else {
            c
        };
        assert(l == ascii_lower(e@[i as int]));
        if l != n[i] {
            assert(ascii_lower(e@[i as int]) != n@[i as int]);
            return false;
        }
        i = i + 1;
    }
    true
}

/// `first` followed by a copy of `rest`.
fn prepend(first: Vec<String>, rest: &Vec<String>) -> (r: Vec<String>)
    ensures
        texts(r@) == texts(first@) + texts(rest@),
{
    let mut out = first;
    let ghost base = texts(out@);
    let mut i: usize = 0;
    while i < rest.len()
        invariant
            0 <= i <= rest.len(),
            texts(out@) =~= base + texts(rest@.take(i as int)),
        decreases rest.len() - i,
    {
        let ghost pre = out@;
        out.push(rest[i].clone());
        assert(texts(out@) =~= texts(pre).push(rest@[i as int]@));
        assert(texts(rest@.take(i + 1)) =~= texts(rest@.take(i as int)).push(rest@[i as int]@));
        i = i + 1;
    }
    assert(rest@.take(rest.len() as int) =~= rest@);
    out
}

/// The command that runs the CLI on Windows, given the path's extension, the first npm
/// loader script found beside a `.cmd` wrapper, where Node.js was found, and whether the
/// path is absolute.
pub fn resolve_windows_command_with(
    cli_path: &str,
    args: &Vec<String>,
    extension: Option<&str>,
    loader: Option<String>,
    node: Option<String>,
    absolute: bool,
) -> (r: (String, Vec<String>))
    ensures
        (r.0@, texts(r.1@)) == resolve_windows_spec(
            cli_path@,
            texts(args@),
            opt_str_seq(extension),
            crate::json::opt_string_view(loader),
            crate::json::opt_string_view(node),
            absolute,
        ),
{
    proof {
        reveal_strlit("cmd");
        reveal_strlit("bat");
    }
    if is_node_script(cli_path) {
        if let Some(n) = &node {
            let first = vec![string_of(cli_path)];
            assert(texts(first@) =~= seq![cli_path@]);
            return (n.clone(), prepend(first, args));
        }
    }
    let via_cmd = {
        let first = vec![string_of("/c"), string_of(cli_path)];
        assert(texts(first@) =~= seq!["/c"@, cli_path@]);
        prepend(first, args)
    };
    if ext_matches(extension, "cmd") {
        match (&loader, &node) {
            (Some(l), Some(n)) => {
                let first = vec![l.clone()];
                assert(texts(first@) =~= seq![l@]);
                (n.clone(), prepend(first, args))
            },
            _ => (string_of("cmd"), via_cmd),
        }
    } else if ext_matches(extension, "bat") || !absolute {
        (string_of("cmd"), via_cmd)
    } else {
        (string_of(cli_path), copy_strings(args))
    }
}

/// The arguments the CLI server is started with: the extra arguments, then `--server
/// --log-level <level>`, then `--stdio` in stdio mode or `--port <port>` for a set port.
pub open spec fn cli_args_spec(o: ClientOptions) -> Seq<Seq<char>> {
    options_args(o) + seq!["--server"@, "--log-level"@, o.log_level.text_spec()] + if o.use_stdio {
        seq!["--stdio"@]
    } else if o.port != 0 {
        seq!["--port"@, decimal(o.port as nat)]
    } else {
        Seq::empty()
    }
}

/// The arguments the CLI server is started with.
pub fn cli_server_args(o: &ClientOptions) -> (r: Vec<String>)
    ensures
        texts(r@) == cli_args_spec(*o),
{
    let mut args: Vec<String> = match &o.cli_args {
        Some(a) => copy_strings(a),
        None => Vec::new(),
    };
    assert(texts(args@) == options_args(*o));
    let ghost base = texts(args@);
    args.push(string_of("--server"));
    args.push(string_of("--log-level"));
    args.push(o.log_level.to_string());
    assert(texts(args@) =~= base + seq!["--server"@, "--log-level"@, o.log_level.text_spec()]);
    let ghost mid = texts(args@);
    if o.use_stdio {
        args.push(string_of("--stdio"));
        assert(texts(args@) =~= mid + seq!["--stdio"@]);
    } else if o.port != 0 {
        args.push(string_of("--port"));
        args.push(u64_text(o.port as u64));
        assert(texts(args@) =~= mid + seq!["--port"@, decimal(o.port as nat)]);
    } else {
        assert(texts(args@) =~= mid + Seq::<Seq<char>>::empty());
    }
    args
}

/// Every entry of `es`, set in order on top of `base`.
pub open spec fn assoc_set_all(
    base: Seq<(Seq<char>, Seq<char>)>,
    es: Seq<(Seq<char>, Seq<char>)>,
) -> Seq<(Seq<char>, Seq<char>)>
    decreases es.len(),
{
    if es.len() == 0 {
        base
    } else {
        assoc_set(assoc_set_all(base, es.drop_last()), es.last().0, es.last().1)
    }
}

/// The process options the CLI server is spawned with: stdin piped in stdio mode, stdout
/// and stderr piped, the working directory, the environment variables, and `NODE_DEBUG`
/// emptied so that debug output stays off the JSON-RPC stream.
pub open spec fn cli_process_options_spec(o: ClientOptions) -> crate::process::ProcessOptionsView {
    crate::process::ProcessOptionsView {
        working_directory: match o.cwd {
            Some(d) => Some(d@),
            None => None,
        },
        environment: assoc_set(
            assoc_set_all(Seq::empty(), options_env(o)),
            "NODE_DEBUG"@,
            Seq::empty(),
        ),
        inherit_environment: true,
        redirect_stdin: o.use_stdio,
        redirect_stdout: true,
        redirect_stderr: true,
    }
}

/// The process options the CLI server is spawned with.
pub fn cli_process_options(o: &ClientOptions) -> (r: ProcessOptions)
    ensures
        r@ == cli_process_options_spec(*o),
{
    let mut p = ProcessOptions::new().stdin(o.use_stdio).stdout(true).stderr(true);
    if let Some(dir) = &o.cwd {
        p = p.working_dir(dir.as_str());
    }
    let ghost envs = options_env(*o);
    assert(p@.environment == assoc_set_all(Seq::empty(), envs.take(0)));
    match &o.environment {
        Some(e) => {
            let mut i: usize = 0;
            while i < e.len()
                invariant
                    0 <= i <= e.view().len(),
                    envs == env_view(*e),
                    envs.len() == e.view().len(),
                    p@.environment == assoc_set_all(Seq::empty(), envs.take(i as int)),
                    p@.working_directory == match o.cwd {
                        Some(d) => Some(d@),
                        None => None,
                    },
                    p@.inherit_environment && p@.redirect_stdout && p@.redirect_stderr,
                    p@.redirect_stdin == o.use_stdio,
                decreases e.view().len() - i,
            {
                let (k, v) = e.entry(i);
                assert(envs.take(i + 1).drop_last() =~= envs.take(i as int));
                p = p.env(k.as_str(), v.as_str());
                i = i + 1;
            }
            assert(envs.take(e.view().len() as int) =~= envs);
        },
        None => {
            assert(envs.take(0) =~= envs);
        },
    }
    proof {
        reveal_strlit("");
        assert(""@ =~= Seq::<char>::empty());
    }
    assert(p@.environment == assoc_set_all(Seq::empty(), options_env(*o)));
    let r = p.env("NODE_DEBUG", "");
    assert(r@.environment == cli_process_options_spec(*o).environment);
    assert(r@.working_directory == cli_process_options_spec(*o).working_directory);
    r
}

/// How the client reaches the CLI server.
#[derive(Debug)]
pub enum LaunchPlan {
    /// Connect over TCP to a server that is already running.
    Connect { host: String, port: u16 },
    /// Spawn the CLI with these arguments and options. `cli_path` and `cli_args` are the CLI
    /// and its server arguments before the command was resolved for the platform.
    Spawn {
        executable: String,
        args: Vec<String>,
        options: ProcessOptions,
        cli_path: String,
        cli_args: Vec<String>,
    },
}

impl Client {
    /// How to reach the CLI server: connect to the `cli_url` when one is set, else spawn
    /// the CLI at `cli_path`, or at `found_cli` (where the CLI was found) when no path was
    /// given; fails when the URL does not parse or no CLI is known.
    pub fn launch_plan(&self, found_cli: Option<String>) -> (r: Result<LaunchPlan, CopilotError>)
        ensures
            match self.options_spec().cli_url {
                Some(u) => match r {
                    Ok(LaunchPlan::Connect { host, port }) => parse_cli_url_spec(u@) == Ok::<
                        (Seq<char>, u16),
                        Seq<char>,
                    >((host@, port)),
                    Ok(LaunchPlan::Spawn { .. }) => false,
                    Err(e) => parse_cli_url_spec(u@) matches Err(m)
                        && e matches CopilotError::InvalidConfig(x) && x@ == m,
                },
                None => {
                    let path = match self.options_spec().cli_path {
                        Some(p) => Some(p),
                        None => found_cli,
                    };
                    match path {
                        None => r matches Err(CopilotError::InvalidConfig(m)) && m@
                            == "Could not find Copilot CLI executable"@,
                        Some(p) => match r {
                            Ok(LaunchPlan::Spawn { executable, args, options, cli_path, cli_args }) => options@
                                == cli_process_options_spec(self.options_spec()) && cli_path@ == p@
                                && texts(cli_args@) == cli_args_spec(self.options_spec())
                                && resolved_with_node_lookup(
                                p@,
                                cli_args_spec(self.options_spec()),
                                executable@,
                                texts(args@),
                            ),
                            _ => false,
                        },
                    }
                },
            },
    {
        if let Some(url) = &self.options.cli_url {
            let (host, port) = parse_cli_url(url.as_str())?;
            return Ok(LaunchPlan::Connect { host, port });
        }
        let path = match &self.options.cli_path {
            Some(p) => p.clone(),
            None => match found_cli {
                Some(f) => f,
                None => {
                    return Err(
                        CopilotError::InvalidConfig(
                            string_of("Could not find Copilot CLI executable"),
                        ),
                    )
                },
            },
        };
        let args = cli_server_args(&self.options);
        let (executable, full_args) = resolve_cli_command(path.as_str(), &args);
        proof {
            let n = choose|n: Option<Seq<char>>|
                node_lookup_result(n) && #[trigger] resolve_with_node(path@, texts(args@), n) == (
                    executable@,
                    texts(full_args@),
                );
            assert(node_lookup_result(n) && resolve_with_node(
                path@,
                cli_args_spec(self.options_spec()),
                n,
            ) == (executable@, texts(full_args@)));
        }
        let options = cli_process_options(&self.options);
        Ok(LaunchPlan::Spawn { executable, args: full_args, options, cli_path: path, cli_args: args })
    }
}

/// `host:port`, the address of a TCP connection.
pub fn tcp_address(host: &str, port: u16) -> (r: String)
    ensures
        r@ == host@ + seq![':'] + decimal(port as nat),
{
    let mut a = string_of(host);
    push_str(&mut a, ":");
    let p = u64_text(port as u64);
    push_str(&mut a, p.as_str());
    proof {
        reveal_strlit(":");
    }
    assert(a@ =~= host@ + seq![':'] + decimal(port as nat));
    a
}

/// Checks the protocol version that the server's ping reply reports (its low 32 bits); a
/// reply without one passes.
pub fn check_protocol_version(result: &Json) -> (r: Result<(), CopilotError>)
    ensures
        match result@.get_u64("protocolVersion"@) {
            Some(v) => if (v as u32) != SDK_PROTOCOL_VERSION {
                r matches Err(CopilotError::ProtocolMismatch { expected, actual }) && expected
                    == SDK_PROTOCOL_VERSION && actual == v as u32
            } else {
                r is Ok
            },
            None => r is Ok,
        },
{
    match result.get_u64("protocolVersion") {
        Some(v) => {
            let version = v as u32;
            if version != SDK_PROTOCOL_VERSION {
                Err(CopilotError::ProtocolMismatch { expected: SDK_PROTOCOL_VERSION, actual: version })
            } else {
                Ok(())
            }
        },
        None => Ok(()),
    }
}

// =============================================================================
// Requests from the server
// =============================================================================

/// A `tool.call` request.
#[derive(Debug)]
pub struct ToolCallRequest {
    pub session_id: String,
    pub tool_name: String,
    pub arguments: Json,
}

impl ToolCallRequest {
    /// Reads a `tool.call` request: its session id and tool name are required.
    pub fn from_params(params: &Json) -> (r: Result<ToolCallRequest, CopilotError>)
        ensures
            match r {
                Ok(t) => params@.get_str("sessionId"@) == Some(t.session_id@)
                    && params@.get_str("toolName"@) == Some(t.tool_name@) && t.arguments@
                    == normalize_args_spec(params@),
                Err(e) => e matches CopilotError::InvalidConfig(m) && (if params@.get_str(
                    "sessionId"@,
                ) is None {
                    m@ == "Missing sessionId"@
                } else {
                    params@.get_str("toolName"@) is None && m@ == "Missing toolName"@
                }),
            },
    {
        let session_id = match params.get_str("sessionId") {
            Some(s) => string_of(s),
            None => return Err(CopilotError::InvalidConfig(string_of("Missing sessionId"))),
        };
        let tool_name = match params.get_str("toolName") {
            Some(s) => string_of(s),
            None => return Err(CopilotError::InvalidConfig(string_of("Missing toolName"))),
        };
        let arguments = normalize_tool_arguments(params);
        Ok(ToolCallRequest { session_id, tool_name, arguments })
    }
}

/// The failure result a `tool.call` reply carries.
pub open spec fn failure_reply(text: Seq<char>, error: Seq<char>) -> JsonView {
    obj(
        seq![
            ("result"@, obj(
                seq![
                    ("textResultForLlm"@, JsonView::Str(text)),
                    ("resultType"@, JsonView::Str("failure"@)),
                    ("error"@, JsonView::Str(error)),
                ],
            )),
        ],
    )
}

/// Builds a failure reply.
fn failure_reply_json(text: String, error: String) -> (r: Json)
    ensures
        r@ == failure_reply(text@, error@),
{
    let mut inner: Vec<(String, Json)> = Vec::new();
    assert(view_entries(inner@) =~= Seq::empty());
    crate::json::push_field(&mut inner, "textResultForLlm", Json::Str(text));
    crate::json::push_field(&mut inner, "resultType", Json::Str(string_of("failure")));
    crate::json::push_field(&mut inner, "error", Json::Str(error));
    let ghost iv = view_entries(inner@);
    let mut outer: Vec<(String, Json)> = Vec::new();
    assert(view_entries(outer@) =~= Seq::empty());
    crate::json::push_field(&mut outer, "result", Json::Object(inner));
    let r = Json::Object(outer);
    assert(iv =~= failure_reply(text@, error@)->Object_0[0].1->Object_0);
    assert(view_entries(outer@) =~= failure_reply(text@, error@)->Object_0);
    r
}

/// The reply to a `tool.call` for a session this client does not know.
pub fn unknown_session_reply(session_id: &str) -> (r: Json)
    ensures
        r@ == failure_reply("Session not found"@, "Unknown session "@ + session_id@),
{
    let mut e = string_of("Unknown session ");
    push_str(&mut e, session_id);
    failure_reply_json(string_of("Session not found"), e)
}

/// The reply to a `tool.call` for a tool the session has not registered.
pub fn unsupported_tool_reply(tool_name: &str) -> (r: Json)
    ensures
        r@ == failure_reply(
            "Tool '"@ + tool_name@ + "' is not supported."@,
            "tool '"@ + tool_name@ + "' not supported"@,
        ),
{
    let mut t = string_of("Tool '");
    push_str(&mut t, tool_name);
    push_str(&mut t, "' is not supported.");
    let mut e = string_of("tool '");
    push_str(&mut e, tool_name);
    push_str(&mut e, "' not supported");
    failure_reply_json(t, e)
}

/// The reply to a `tool.call` once the tool has run: its result, or a failure that carries
/// the error's message.
pub fn tool_result_reply(outcome: &Result<crate::types::ToolResultObject, CopilotError>) -> (r: Json)
    ensures
        match outcome {
            Ok(t) => r@ == obj(seq![("result"@, crate::types::result_wire(t@))]),
            Err(e) => exists|m: Seq<char>|
                crate::error::is_message_of(*e, m) && r@ == failure_reply(
                    "Tool execution failed"@,
                    m,
                ),
        },
{
    match outcome {
        Ok(t) => {
            let mut outer: Vec<(String, Json)> = Vec::new();
            assert(view_entries(outer@) =~= Seq::empty());
            crate::json::push_field(&mut outer, "result", t.to_json());
            let r = Json::Object(outer);
            assert(view_entries(outer@) =~= seq![("result"@, crate::types::result_wire(t@))]);
            r
        },
        Err(e) => {
            let m = e.message();
            let r = failure_reply_json(string_of("Tool execution failed"), m);
            assert(crate::error::is_message_of(*e, m@));
            r
        },
    }
}

/// A `permission.request`: the session it is for and the request's data (its
/// `permissionRequest` member, or the parameters themselves).
pub fn permission_call(params: &Json) -> (r: Result<(String, Json), CopilotError>)
    ensures
        match r {
            Ok((sid, data)) => params@.get_str("sessionId"@) == Some(sid@) && data@ == match params@.get(
                "permissionRequest"@,
            ) {
                Some(d) => d,
                None => params@,
            },
            Err(e) => params@.get_str("sessionId"@) is None && (e matches CopilotError::InvalidConfig(
                m,
            ) && m@ == "Missing sessionId"@),
        },
{
    let session_id = match params.get_str("sessionId") {
        Some(s) => string_of(s),
        None => return Err(CopilotError::InvalidConfig(string_of("Missing sessionId"))),
    };
    let data = match params.get("permissionRequest") {
        Some(d) => d.deep_clone(),
        None => params.deep_clone(),
    };
    Ok((session_id, data))
}

/// The members of a permission request besides `kind` and `toolCallId`, in order.
pub open spec fn extension_members(es: Seq<(Seq<char>, JsonView)>) -> Seq<(Seq<char>, JsonView)>
    decreases es.len(),
{
    if es.len() == 0 {
        Seq::empty()
    } else if es.last().0 == "kind"@ || es.last().0 == "toolCallId"@ {
        extension_members(es.drop_last())
    } else {
        extension_members(es.drop_last()).push(es.last())
    }
}

impl crate::types::PermissionRequest {
    /// Reads a permission request from its JSON data: the kind (`unknown` when missing),
    /// the tool call id, and every other member as extension data.
    pub fn from_json(data: &Json) -> (r: crate::types::PermissionRequest)
        ensures
            r.kind@ == match data@.get_str("kind"@) {
                Some(k) => k,
                None => "unknown"@,
            },
            crate::json::opt_string_view(r.tool_call_id) == data@.get_str("toolCallId"@),
            view_entries(r.extension_data@) == match data@ {
                JsonView::Object(es) => extension_members(es),
                _ => Seq::empty(),
            },
    {
        let kind = match data.get_str("kind") {
            Some(k) => string_of(k),
            None => string_of("unknown"),
        };
        let tool_call_id = match data.get_str("toolCallId") {
            Some(t) => Some(string_of(t)),
            None => None,
        };
        let mut ext: Vec<(String, Json)> = Vec::new();
        assert(view_entries(ext@) =~= Seq::empty());
        match data {
            Json::Object(es) => {
                proof {
                    crate::json::lemma_view_entries(es@);
                }
                let ghost ves = view_entries(es@);
                let mut i: usize = 0;
                while i < es.len()
                    invariant
                        0 <= i <= es.len(),
                        ves == view_entries(es@),
                        ves.len() == es@.len(),
                        forall|j: int|
                            0 <= j < es@.len() ==> #[trigger] ves[j] == (es@[j].0@, json_view(
                                es@[j].1,
                            )),
                        view_entries(ext@) == extension_members(ves.take(i as int)),
                    decreases es.len() - i,
                {
                    assert(ves.take(i + 1).drop_last() =~= ves.take(i as int));
                    assert(ves.take(i + 1).last() == ves[i as int]);
                    let k = es[i].0.as_str();
                    if !str_eq(k, "kind") && !str_eq(k, "toolCallId") {
                        crate::json::push_field(&mut ext, k, es[i].1.deep_clone());
                    }
                    i = i + 1;
                }
                assert(ves.take(es.len() as int) =~= ves);
            },
            _ => {},
        }
        crate::types::PermissionRequest { kind, tool_call_id, extension_data: ext }
    }
}

/// The reply to a permission request: `{result: {kind, rules?}}`.
pub fn permission_reply(result: &crate::types::PermissionRequestResult) -> (r: Json)
    ensures
        r@ == obj(
            seq![
                ("result"@, crate::types::permission_result_wire(
                    result.kind@,
                    crate::types::rules_view(result.rules),
                )),
            ],
        ),
{
    let mut outer: Vec<(String, Json)> = Vec::new();
    assert(view_entries(outer@) =~= Seq::empty());
    let inner = result.to_json();
    let ghost iv = inner@;
    crate::json::push_field(&mut outer, "result", inner);
    let r = Json::Object(outer);
    assert(view_entries(outer@) =~= seq![("result"@, iv)]);
    r
}

/// The reply to a permission request for a session this client does not know: a denial.
pub fn unknown_session_permission_reply() -> (r: Json)
    ensures
        r@ == obj(
            seq![("result"@, crate::types::permission_result_wire(crate::types::denied_kind(), None))],
        ),
{
    permission_reply(&crate::types::PermissionRequestResult::denied())
}

/// The server's requests that this client answers.
#[derive(Debug, Clone, Copy, PartialEq, Eq, Structural)]
pub enum RequestRoute {
    ToolCall,
    PermissionRequest,
    Unknown,
}

/// Which handler answers a request method.
pub fn route_request(method: &str) -> (r: RequestRoute)
    ensures
        r == (if method@ == "tool.call"@ {
            RequestRoute::ToolCall
        } else if method@ == "permission.request"@ {
            RequestRoute::PermissionRequest
        } else {
            RequestRoute::Unknown
        }),
{
    if str_eq(method, "tool.call") {
        RequestRoute::ToolCall
    } else if str_eq(method, "permission.request") {
        RequestRoute::PermissionRequest
    } else {
        RequestRoute::Unknown
    }
}

/// The JSON-RPC error for a method this client does not answer: `-32601`.
pub fn unknown_method_error(method: &str) -> (r: (i32, String))
    ensures
        r.0 == -32601,
        r.1@ == "Unknown method: "@ + method@,
{
    let mut m = string_of("Unknown method: ");
    push_str(&mut m, method);
    (-32601, m)
}

/// The JSON-RPC error for a request whose handler failed: `-32000` with the error's message.
pub fn handler_failure_error(e: &CopilotError) -> (r: (i32, String))
    ensures
        r.0 == -32000,
        crate::error::is_message_of(*e, r.1@),
{
    (-32000, e.message())
}

/// The session and event that a `session.event` notification carries, if it is one and
/// carries both.
pub fn session_event_target(method: &str, params: &Json) -> (r: Option<(String, Json)>)
    ensures
        match r {
            Some((sid, ev)) => method@ == "session.event"@ && params@.get_str("sessionId"@) == Some(
                sid@,
            ) && params@.get("event"@) == Some(ev@),
            None => !(method@ == "session.event"@ && params@.get_str("sessionId"@) is Some
                && params@.get("event"@) is Some),
        },
{
    if !str_eq(method, "session.event") {
        return None;
    }
    let sid = match params.get_str("sessionId") {
        Some(s) => string_of(s),
        None => return None,
    };
    match params.get("event") {
        Some(ev) => Some((sid, ev.deep_clone())),
        None => None,
    }
}

// =============================================================================
// Replies to the client's requests
// =============================================================================

/// The id and workspace path of a created session; the id is required.
pub fn created_session_info(result: &Json) -> (r: Result<(String, Option<String>), CopilotError>)
    ensures
        match r {
            Ok((id, ws)) => result@.get_str("sessionId"@) == Some(id@)
                && crate::json::opt_string_view(ws) == result@.get_str("workspacePath"@),
            Err(e) => result@.get_str("sessionId"@) is None && (e matches CopilotError::Protocol(m)
                && m@ == "Missing sessionId in response"@),
        },
{
    let id = match result.get_str("sessionId") {
        Some(s) => string_of(s),
        None => return Err(CopilotError::Protocol(string_of("Missing sessionId in response"))),
    };
    let ws = match result.get_str("workspacePath") {
        Some(w) => Some(string_of(w)),
        None => None,
    };
    Ok((id, ws))
}

/// The id and workspace path of a resumed session; the id asked for when the reply names
/// none.
pub fn resumed_session_info(result: &Json, requested: &str) -> (r: (String, Option<String>))
    ensures
        r.0@ == match result@.get_str("sessionId"@) {
            Some(s) => s,
            None => requested@,
        },
        crate::json::opt_string_view(r.1) == result@.get_str("workspacePath"@),
{
    let id = match result.get_str("sessionId") {
        Some(s) => string_of(s),
        None => string_of(requested),
    };
    let ws = match result.get_str("workspacePath") {
        Some(w) => Some(string_of(w)),
        None => None,
    };
    (id, ws)
}

/// The outcome of deleting a session: an error only when the reply says `success: false`,
/// carrying its `error` text (`Unknown error` when it has none).
pub fn delete_outcome(result: &Json) -> (r: Result<(), CopilotError>)
    ensures
        match result@.get_bool("success"@) {
            Some(false) => r matches Err(CopilotError::Protocol(m)) && m@ == "Failed to delete session: "@
                + match result@.get_str("error"@) {
                Some(x) => x,
                None => "Unknown error"@,
            },
            _ => r is Ok,
        },
{
    match result.get_bool("success") {
        Some(false) => {
            let mut m = string_of("Failed to delete session: ");
            match result.get_str("error") {
                Some(x) => push_str(&mut m, x),
                None => push_str(&mut m, "Unknown error"),
            }
            Err(CopilotError::Protocol(m))
        },
        _ => Ok(()),
    }
}

/// The id of the most recently used session, if the reply names one.
pub fn last_session_id(result: &Json) -> (r: Option<String>)
    ensures
        crate::json::opt_string_view(r) == result@.get_str("sessionId"@),
{
    match result.get_str("sessionId") {
        Some(s) => Some(string_of(s)),
        None => None,
    }
}

/// What a JSON array decodes to as session metadata: each element decoded, or `None` when
/// one fails.
pub open spec fn decode_sessions(s: Seq<JsonView>) -> Option<Seq<crate::types::SessionMetadataView>>
    decreases s.len(),
{
    if s.len() == 0 {
        Some(Seq::empty())
    } else {
        match (decode_sessions(s.drop_last()), crate::types::decode_session_metadata(s.last())) {
            (Some(a), Some(m)) => Some(a.push(m)),
            _ => None,
        }
    }
}

/// A failure to decode a prefix is a failure to decode the whole.
proof fn lemma_decode_sessions_prefix_none(s: Seq<JsonView>, n: int)
    requires
        0 <= n <= s.len(),
        decode_sessions(s.take(n)) is None,
    ensures
        decode_sessions(s) is None,
    decreases s.len() - n,
{
    if n < s.len() {
        assert(s.take(n + 1).drop_last() =~= s.take(n));
        lemma_decode_sessions_prefix_none(s, n + 1);
    } else {
        assert(s.take(n) =~= s);
    }
}

/// The sessions a `session.list` reply lists: its `sessions` array decoded, or none at all
/// when that is missing or an element does not decode.
pub fn sessions_from_result(result: &Json) -> (r: Vec<crate::types::SessionMetadata>)
    ensures
        Seq::new(r@.len(), |i: int| r@[i]@) == match result@.get("sessions"@) {
            Some(JsonView::Array(a)) => match decode_sessions(a) {
                Some(ms) => ms,
                None => Seq::empty(),
            },
            _ => Seq::empty(),
        },
{
    let mut out: Vec<crate::types::SessionMetadata> = Vec::new();
    let sessions = result.get("sessions");
    match sessions {
        Some(Json::Array(a)) => {
            proof {
                crate::json::lemma_view_array(a@);
            }
            let ghost va = crate::json::view_array(a@);
            assert(result@.get("sessions"@) == Some(JsonView::Array(va)));
            let mut i: usize = 0;
            while i < a.len()
                invariant
                    0 <= i <= a.len(),
                    va == crate::json::view_array(a@),
                    va.len() == a@.len(),
                    forall|j: int| 0 <= j < a@.len() ==> #[trigger] va[j] == json_view(a@[j]),
                    decode_sessions(va.take(i as int)) == Some(Seq::new(out@.len(), |k: int| out@[k]@)),
                    result@.get("sessions"@) == Some(JsonView::Array(va)),
                decreases a.len() - i,
            {
                assert(va.take(i + 1).drop_last() =~= va.take(i as int));
                assert(va.take(i + 1).last() == va[i as int]);
                match crate::types::SessionMetadata::from_json(&a[i]) {
                    Some(m) => {
                        let ghost pre = out@;
                        out.push(m);
                        assert(Seq::new(out@.len(), |k: int| out@[k]@) =~= Seq::new(
                            pre.len(),
                            |k: int| pre[k]@,
                        ).push(m@));
                    },
                    None => {
                        proof {
                            lemma_decode_sessions_prefix_none(va, i as int + 1);
                            assert(decode_sessions(va) is None);
                            assert(result@.get("sessions"@) == Some(JsonView::Array(va)));
                        }
                        let empty: Vec<crate::types::SessionMetadata> = Vec::new();
                        assert(Seq::new(empty@.len(), |k: int| empty@[k]@) =~= Seq::<crate::types::SessionMetadataView>::empty());
                        return empty;
                    },
                }
                i = i + 1;
            }
            assert(va.take(a.len() as int) =~= va);
            out
        },
        _ => {
            assert(Seq::new(out@.len(), |k: int| out@[k]@) =~= Seq::<crate::types::SessionMetadataView>::empty());
            out
        },
    }
}

/// The parameters of a ping: `{message}` when a message is given, none otherwise.
pub fn ping_params(message: Option<String>) -> (r: Option<Json>)
    ensures
        match message {
            Some(m) => r matches Some(p) && p@ == obj(seq![("message"@, JsonView::Str(m@))]),
            None => r is None,
        },
{
    match message {
        Some(m) => {
            let ghost mv = m@;
            let mut es: Vec<(String, Json)> = Vec::new();
            assert(view_entries(es@) =~= Seq::empty());
            crate::json::push_field(&mut es, "message", Json::Str(m));
            assert(view_entries(es@) =~= seq![("message"@, JsonView::Str(mv))]);
            Some(Json::Object(es))
        },
        None => None,
    }
}

/// `{sessionId}`, the parameters of requests that name only a session.
pub fn session_id_params(session_id: &str) -> (r: Json)
    ensures
        r@ == obj(seq![("sessionId"@, JsonView::Str(session_id@))]),
{
    let mut es: Vec<(String, Json)> = Vec::new();
    assert(view_entries(es@) =~= Seq::empty());
    crate::json::push_field(&mut es, "sessionId", Json::string(session_id));
    assert(view_entries(es@) =~= seq![("sessionId"@, JsonView::Str(session_id@))]);
    Json::Object(es)
}

// =============================================================================
// Laws
// =============================================================================

/// No `://` occurs in a text without `/`.
proof fn lemma_no_scheme(s: Seq<char>)
    requires
        forall|i: int| 0 <= i < s.len() ==> s[i] != '/',
    ensures
        find_pattern(s, seq![':', '/', '/']) is None,
        first_index_of(s, '/') is None,
{
    let pat = seq![':', '/', '/'];
    if exists|i: int| crate::text::is_first_occurrence(s, pat, i) {
        let i = choose|i: int| crate::text::is_first_occurrence(s, pat, i);
        assert(s.subrange(i, i + 3)[1] == s[i + 1]);
        assert(pat[1] == '/');
    }
    if exists|i: int| crate::text::is_first_of(s, '/', i) {
        let i = choose|i: int| crate::text::is_first_of(s, '/', i);
    }
}

/// A CLI URL that is just a port number names that port on `localhost`.
pub proof fn law_cli_url_bare_port(p: u16)
    ensures
        parse_cli_url_spec(decimal(p as nat)) == Ok::<(Seq<char>, u16), Seq<char>>(
            ("localhost"@, p),
        ),
{
    let d = decimal(p as nat);
    crate::text::lemma_decimal_digits(p as nat);
    crate::text::lemma_trim_digits(d);
    crate::text::lemma_parse_u16_decimal(p);
    assert forall|i: int| 0 <= i < d.len() implies d[i] != '/' by {
        assert(is_digit(d[i]));
    }
    lemma_no_scheme(d);
}

/// The `host:port` part of a CLI URL reads as that host and port.
proof fn lemma_host_port_part(host: Seq<char>, p: u16)
    requires
        host.len() > 0,
        !crate::text::is_ws(host[0]),
        !crate::text::is_ws(host.last()),
        forall|i: int| 0 <= i < host.len() ==> host[i] != '/',
    ensures
        ({
            let s = host + seq![':'] + decimal(p as nat);
            let k = host.len() as int;
            &&& forall|i: int| 0 <= i < s.len() ==> s[i] != '/'
            &&& first_index_of(s, '/') is None
            &&& !all_digits(s)
            &&& last_index_of(s, ':') == Some(k)
            &&& trim(s.take(k)) == host
            &&& parse_u16_spec(trim(s.skip(k + 1))) == Some(p)
            &&& s.last() == decimal(p as nat).last()
            &&& crate::text::is_digit(s.last())
        }),
{
    let d = decimal(p as nat);
    let s = host + seq![':'] + d;
    let k = host.len() as int;
    crate::text::lemma_decimal_digits(p as nat);
    crate::text::lemma_trim_digits(d);
    crate::text::lemma_parse_u16_decimal(p);
    crate::text::lemma_trim_unchanged(host);
    assert(s.last() == d.last());
    assert(is_digit(d[d.len() - 1]));
    assert forall|i: int| 0 <= i < s.len() implies s[i] != '/' by {
        if i < k {
            assert(s[i] == host[i]);
        } else if i > k {
            assert(s[i] == d[i - k - 1]);
            assert(is_digit(d[i - k - 1]));
        }
    }
    lemma_no_scheme(s);
    assert(s[k] == ':');
    assert(!all_digits(s)) by {
        assert(!is_digit(s[k]));
    }
    assert forall|j: int| k < j < s.len() implies s[j] != ':' by {
        assert(s[j] == d[j - k - 1]);
        assert(is_digit(d[j - k - 1]));
    }
    assert(crate::text::is_last_of(s, ':', k));
    let q = choose|q: int| crate::text::is_last_of(s, ':', q);
    assert(q == k) by {
        if q < k {
            assert(s[k] == ':');
        } else if q > k {
            assert(s[q] == ':');
        }
    }
    assert(s.take(k) =~= host);
    assert(s.skip(k + 1) =~= d);
}

/// A CLI URL written `host:port`, the host without `/` and without white space around it,
/// names that host and port.
pub proof fn law_cli_url_host_port(host: Seq<char>, p: u16)
    requires
        host.len() > 0,
        !crate::text::is_ws(host[0]),
        !crate::text::is_ws(host.last()),
        forall|i: int| 0 <= i < host.len() ==> host[i] != '/',
    ensures
        parse_cli_url_spec(host + seq![':'] + decimal(p as nat)) == Ok::<
            (Seq<char>, u16),
            Seq<char>,
        >((host, p)),
{
    let url = host + seq![':'] + decimal(p as nat);
    lemma_host_port_part(host, p);
    assert(url[0] == host[0]);
    crate::text::lemma_trim_unchanged(url);
    lemma_no_scheme(url);
}

/// A CLI URL written `scheme://host:port` (the scheme without `:` and not starting with
/// white space, the host as for `host:port`) names that host and port.
pub proof fn law_cli_url_with_scheme(scheme: Seq<char>, host: Seq<char>, p: u16)
    requires
        scheme.len() > 0,
        !crate::text::is_ws(scheme[0]),
        forall|i: int| 0 <= i < scheme.len() ==> scheme[i] != ':',
        host.len() > 0,
        !crate::text::is_ws(host[0]),
        !crate::text::is_ws(host.last()),
        forall|i: int| 0 <= i < host.len() ==> host[i] != '/',
    ensures
        parse_cli_url_spec(scheme + seq![':', '/', '/'] + host + seq![':'] + decimal(p as nat))
            == Ok::<(Seq<char>, u16), Seq<char>>((host, p)),
{
    let rest = host + seq![':'] + decimal(p as nat);
    let pat = seq![':', '/', '/'];
    let url = scheme + pat + host + seq![':'] + decimal(p as nat);
    let k = scheme.len() as int;
    lemma_host_port_part(host, p);
    assert(url =~= scheme + pat + rest);
    assert(url[0] == scheme[0]);
    assert(url.last() == rest.last());
    crate::text::lemma_trim_unchanged(url);
    assert(url.subrange(k, k + 3) =~= pat);
    assert forall|j: int| 0 <= j < k implies !crate::text::occurs_at(url, pat, j) by {
        if crate::text::occurs_at(url, pat, j) {
            assert(url.subrange(j, j + 3)[0] == url[j]);
            assert(url[j] == scheme[j]);
        }
    }
    assert(crate::text::is_first_occurrence(url, pat, k));
    let q = choose|q: int| crate::text::is_first_occurrence(url, pat, q);
    assert(q == k) by {
        if q > k {
            assert(crate::text::occurs_at(url, pat, k));
        }
    }
    assert(url.skip(k + 3) =~= rest);
}

/// Round trip of a CLI URL: for a non-empty host without `/` and without white space
/// around it, and any port, `host:port` and `http://host:port` name that host and port, and
/// the port alone names it on `localhost`.
pub proof fn law_cli_url_round_trip(host: Seq<char>, p: u16)
    requires
        host.len() > 0,
        trim(host) == host,
        forall|i: int| 0 <= i < host.len() ==> host[i] != '/',
    ensures
        parse_cli_url_spec(host + ":"@ + decimal(p as nat)) == Ok::<(Seq<char>, u16), Seq<char>>(
            (host, p),
        ),
        parse_cli_url_spec("http://"@ + host + ":"@ + decimal(p as nat)) == Ok::<
            (Seq<char>, u16),
            Seq<char>,
        >((host, p)),
        parse_cli_url_spec(decimal(p as nat)) == Ok::<(Seq<char>, u16), Seq<char>>(
            ("localhost"@, p),
        ),
{
    reveal_strlit(":");
    reveal_strlit("http://");
    crate::text::lemma_trimmed_ends(host);
    law_cli_url_host_port(host, p);
    let scheme = seq!['h', 't', 't', 'p'];
    law_cli_url_with_scheme(scheme, host, p);
    assert(":"@ =~= seq![':']);
    assert("http://"@ + host + ":"@ + decimal(p as nat) =~= scheme + seq![':', '/', '/'] + host
        + seq![':'] + decimal(p as nat));
    law_cli_url_bare_port(p);
}

/// The digits at the start of a run of digits are all of it.
proof fn lemma_leading_digits_all(s: Seq<char>)
    requires
        all_digits(s),
    ensures
        leading_digits(s) == s,
    decreases s.len(),
{
    if s.len() > 0 {
        assert(is_digit(s[0]));
        assert forall|i: int| 0 <= i < s.drop_first().len() implies is_digit(
            #[trigger] s.drop_first()[i],
        ) by {
            assert(s.drop_first()[i] == s[i + 1]);
        }
        lemma_leading_digits_all(s.drop_first());
        assert(seq![s[0]] + s.drop_first() =~= s);
    }
}

/// Text without digits before a run of digits is skipped over.
proof fn lemma_first_digit_run_skip(a: Seq<char>, b: Seq<char>)
    requires
        forall|i: int| 0 <= i < a.len() ==> !is_digit(a[i]),
    ensures
        first_digit_run(a + b) == first_digit_run(b),
    decreases a.len(),
{
    if a.len() > 0 {
        assert((a + b)[0] == a[0]);
        assert((a + b).drop_first() =~= a.drop_first() + b);
        assert forall|i: int| 0 <= i < a.drop_first().len() implies !is_digit(a.drop_first()[i]) by {
            assert(a.drop_first()[i] == a[i + 1]);
        }
        lemma_first_digit_run_skip(a.drop_first(), b);
    } else {
        assert(a + b =~= b);
    }
}

/// The announcement before the port holds no digit and no upper-case letter.
proof fn lemma_port_phrase_plain(head: Seq<char>)
    requires
        head == port_phrase() + seq![' '],
    ensures
        head.len() == 18,
        forall|i: int| 0 <= i < head.len() ==> !is_digit(#[trigger] head[i]) && !('A' <= head[i] && head[i] <= 'Z'),
{
    assert(head =~= seq!['l', 'i', 's', 't', 'e', 'n', 'i', 'n', 'g', ' ', 'o', 'n', ' ', 'p', 'o', 'r', 't', ' ']);
    assert forall|i: int| 0 <= i < head.len() implies !is_digit(#[trigger] head[i]) && !('A' <= head[i] && head[i] <= 'Z') by {
        if i == 0 {
            assert(head[0] == 'l');
        } else if i == 1 {
            assert(head[1] == 'i');
        } else if i == 2 {
            assert(head[2] == 's');
        } else if i == 3 {
            assert(head[3] == 't');
        } else if i == 4 {
            assert(head[4] == 'e');
        } else if i == 5 {
            assert(head[5] == 'n');
        } else if i == 6 {
            assert(head[6] == 'i');
        } else if i == 7 {
            assert(head[7] == 'n');
        } else if i == 8 {
            assert(head[8] == 'g');
        } else if i == 9 {
            assert(head[9] == ' ');
        } else if i == 10 {
            assert(head[10] == 'o');
        } else if i == 11 {
            assert(head[11] == 'n');
        } else if i == 12 {
            assert(head[12] == ' ');
        } else if i == 13 {
            assert(head[13] == 'p');
        } else if i == 14 {
            assert(head[14] == 'o');
        } else if i == 15 {
            assert(head[15] == 'r');
        } else if i == 16 {
            assert(head[16] == 't');
        } else if i == 17 {
            assert(head[17] == ' ');
        }
    }
}

/// A line announcing `listening on port <p>` gives that port.
pub proof fn law_listening_port_announced(p: u16)
    ensures
        parse_listening_port_spec(port_phrase() + seq![' '] + decimal(p as nat)) == Some(p),
{
    let d = decimal(p as nat);
    let head = port_phrase() + seq![' '];
    let line = head + d;
    crate::text::lemma_decimal_digits(p as nat);
    crate::text::lemma_parse_u16_decimal(p);
    lemma_port_phrase_plain(head);
    let lower = Seq::new(line.len(), |i: int| ascii_lower(line[i]));
    assert forall|i: int| 0 <= i < line.len() implies lower[i] == line[i] by {
        if i < head.len() {
            assert(line[i] == head[i]);
        } else {
            assert(line[i] == d[i - head.len()]);
            assert(is_digit(d[i - head.len()]));
        }
    }
    assert(lower =~= line);
    assert(line.subrange(0, 17) =~= port_phrase());
    assert(crate::text::is_first_occurrence(line, port_phrase(), 0));
    let q = choose|q: int| crate::text::is_first_occurrence(line, port_phrase(), q);
    assert(q == 0) by {
        if q > 0 {
            assert(crate::text::occurs_at(line, port_phrase(), 0));
        }
    }
    assert(find_pattern(lower, port_phrase()) == Some(0int));
    assert(line.skip(0) =~= line);
    lemma_first_digit_run_skip(head, d);
    assert(is_digit(d[0]));
    lemma_leading_digits_all(d);
}

} // verus!
