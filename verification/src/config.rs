//! Server configuration: user-supplied options and the resolved,
//! immutable per-server configuration with documented defaults.

use vstd::prelude::*;
use vstd::string::StrSliceExecFns;
use vstd::string::StringExecFns;

verus! {

/// Default port when the options carry none.
pub const DEFAULT_PORT: u32 = 3000;

/// Default maximum number of concurrent connections.
pub const DEFAULT_MAX_CONNECTIONS: u32 = 65536;

/// Default request body cap in bytes (10 MiB).
pub const DEFAULT_MAX_BODY_SIZE: u32 = 10 * 1024 * 1024;

/// Default handler timeout in milliseconds.
pub const DEFAULT_TIMEOUT_MS: u32 = 30000;

/// Options as supplied by the embedding application.  Every field but
/// the port may be absent; absent fields take the documented defaults.
#[derive(Debug, Clone)]
pub struct ServerOptions {
    /// Port to listen on.
    pub port: u32,
    /// Host to bind to (default "0.0.0.0").
    pub host: Option<String>,
    /// Share the port across listening sockets (default off).
    pub reuse_port: Option<bool>,
    /// Maximum concurrent connections (default 65536).
    pub max_connections: Option<u32>,
    /// Request body size limit in bytes (default 10 MiB).
    pub max_body_size: Option<u32>,
    /// Handler timeout in milliseconds (default 30000).
    pub timeout: Option<u32>,
}

/// The host an options value resolves to.
pub open spec fn spec_host(host: Option<String>) -> Seq<char> {
    match host {
        Some(h) => h@,
        None => "0.0.0.0"@,
    }
}

/// The value an optional numeric or boolean option resolves to.
pub open spec fn spec_or_default<T>(opt: Option<T>, default: T) -> T {
    match opt {
        Some(v) => v,
        None => default,
    }
}

impl Default for ServerOptions {
    /// The documented default options: port 3000, every other field
    /// filled in explicitly with its default value.
    fn default() -> (r: ServerOptions)
        ensures
            r.port == DEFAULT_PORT,
            r.host matches Some(h) && h@ == "0.0.0.0"@,
            r.reuse_port == Some(false),
            r.max_connections == Some(DEFAULT_MAX_CONNECTIONS),
            r.max_body_size == Some(DEFAULT_MAX_BODY_SIZE),
            r.timeout == Some(DEFAULT_TIMEOUT_MS),
    {
        ServerOptions {
            port: DEFAULT_PORT,
            host: Some(String::from_str("0.0.0.0")),
            reuse_port: Some(false),
            max_connections: Some(DEFAULT_MAX_CONNECTIONS),
            max_body_size: Some(DEFAULT_MAX_BODY_SIZE),
            timeout: Some(DEFAULT_TIMEOUT_MS),
        }
    }
}

/// Immutable per-server configuration, resolved from [`ServerOptions`].
#[derive(Debug, Clone)]
pub struct ServerConfig {
    pub host: String,
    pub port: u32,
    pub reuse_port: bool,
    pub max_connections: u32,
    pub max_body_size: u32,
    pub timeout_ms: u32,
}

impl ServerConfig {
    /// Resolve options into a configuration, substituting the
    /// documented default for every absent field.
    pub fn from_options(opts: &ServerOptions) -> (r: ServerConfig)
        ensures
            r.host@ == spec_host(opts.host),
            r.port == opts.port,
            r.reuse_port == spec_or_default(opts.reuse_port, false),
            r.max_connections == spec_or_default(opts.max_connections, DEFAULT_MAX_CONNECTIONS),
            r.max_body_size == spec_or_default(opts.max_body_size, DEFAULT_MAX_BODY_SIZE),
            r.timeout_ms == spec_or_default(opts.timeout, DEFAULT_TIMEOUT_MS),
    {
        let host: String = match &opts.host {
            Some(h) => h.clone(),
            None => String::from_str("0.0.0.0"),
        };
        ServerConfig {
            host,
            port: opts.port,
            reuse_port: match opts.reuse_port {
                Some(b) => b,
                None => false,
            },
            max_connections: match opts.max_connections {
                Some(v) => v,
                None => DEFAULT_MAX_CONNECTIONS,
            },
            max_body_size: match opts.max_body_size {
                Some(v) => v,
                None => DEFAULT_MAX_BODY_SIZE,
            },
            timeout_ms: match opts.timeout {
                Some(v) => v,
                None => DEFAULT_TIMEOUT_MS,
            },
        }
    }

    /// The address the listener binds: the host, a colon, and the
    /// port in decimal.
    pub fn bind_address(&self) -> (r: String)
        ensures
            r@ == self.host@ + ":"@ + spec_decimal(self.port as nat),
    {
        let mut addr = self.host.clone();
        addr.append(":");
        let port = u32_to_decimal(self.port);
        addr.append(port.as_str());
        addr
    }
}

/// The backlog the listening socket is opened with, large enough to
/// absorb connection bursts.
pub const LISTEN_BACKLOG: u32 = 8192;

/// What the listener factory sets on the socket before it is handed
/// over to the connection server.
#[derive(Debug, Clone, Copy, PartialEq, Eq, Structural)]
pub struct ListenerPlan {
    pub reuse_address: bool,
    pub reuse_port: bool,
    pub nonblocking: bool,
    pub backlog: u32,
}

impl ServerConfig {
    /// The socket setup this configuration calls for: address reuse
    /// unconditionally, port sharing only when configured, nonblocking
    /// mode, and the large backlog.
    pub fn listener_plan(&self) -> (r: ListenerPlan)
        ensures
            r.reuse_address,
            r.reuse_port == self.reuse_port,
            r.nonblocking,
            r.backlog == LISTEN_BACKLOG,
    {
        ListenerPlan {
            reuse_address: true,
            reuse_port: self.reuse_port,
            nonblocking: true,
            backlog: LISTEN_BACKLOG,
        }
    }
}

/// The character for one decimal digit.
pub open spec fn spec_digit_char(d: nat) -> char {
    if d == 0 {
        '0'
    } else if d == 1 {
        '1'
    } else if d == 2 {
        '2'
    } else if d == 3 {
        '3'
    } else if d == 4 {
        '4'
    } else if d == 5 {
        '5'
    } else if d == 6 {
        '6'
    } else if d == 7 {
        '7'
    } else if d == 8 {
        '8'
    } else {
        '9'
    }
}

/// The usual decimal numeral of a number: no sign, no leading zero
/// except on zero itself.
pub open spec fn spec_decimal(n: nat) -> Seq<char>
    decreases n,
{
    if n < 10 {
        seq![spec_digit_char(n)]
    } else {
        spec_decimal(n / 10).push(spec_digit_char(n % 10))
    }
}

/// One decimal digit as text.
fn digit_str(d: u32) -> (r: &'static str)
    requires
        d < 10,
    ensures
        r@ == seq![spec_digit_char(d as nat)],
{
    proof {
        reveal_strlit("0");
        reveal_strlit("1");
        reveal_strlit("2");
        reveal_strlit("3");
        reveal_strlit("4");
        reveal_strlit("5");
        reveal_strlit("6");
        reveal_strlit("7");
        reveal_strlit("8");
        reveal_strlit("9");
    }
    let r = match d {
        0 => "0",
        1 => "1",
        2 => "2",
        3 => "3",
        4 => "4",
        5 => "5",
        6 => "6",
        7 => "7",
        8 => "8",
        _ => "9",
    };
    proof {
        assert(r@ =~= seq![spec_digit_char(d as nat)]);
    }
    r
}

/// A number in decimal.
fn u32_to_decimal(n: u32) -> (r: String)
    ensures
        r@ == spec_decimal(n as nat),
    decreases n,
{
    if n < 10 {
        digit_str(n).to_owned()
    } else {
        let mut s = u32_to_decimal(n / 10);
        let d = digit_str(n % 10);
        s.append(d);
        proof {
            assert(s@ =~= spec_decimal((n / 10) as nat) + seq![spec_digit_char((n % 10) as nat)]);
            assert(spec_decimal(n as nat) =~= spec_decimal((n / 10) as nat).push(
                spec_digit_char((n % 10) as nat),
            ));
            assert(s@ =~= spec_decimal(n as nat));
        }
        s
    }
}

} // verus!
