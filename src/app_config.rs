use vstd::prelude::*;

verus! {

/// Transport used by a run.
#[derive(Clone, Copy, Debug, PartialEq, Eq, Structural)]
pub enum Protocol {
    Tcp,
    Udp,
}

/// Role played by a run.
#[derive(Clone, Copy, Debug, PartialEq, Eq, Structural)]
pub enum Mode {
    Client,
    Server,
}

/// Shortest timeout a run accepts, in milliseconds; shorter requests are raised to it.
pub const MIN_TIMEOUT_MS: u64 = 200;

impl Protocol {
    pub open spec fn spec_label(self) -> Seq<char> {
        match self {
            Protocol::Tcp => seq!['T', 'C', 'P'],
            Protocol::Udp => seq!['U', 'D', 'P'],
        }
    }

    /// Human-readable name of the transport.
    pub fn label(&self) -> (r: String)
        ensures
            r@ == self.spec_label(),
    {
        match self {
            Protocol::Tcp => {
                proof {
                    reveal_strlit("TCP");
                }
                String::from_str("TCP")
            },
            Protocol::Udp => {
                proof {
                    reveal_strlit("UDP");
                }
                String::from_str("UDP")
            },
        }
    }

    /// The transport a command-line word names: `tcp` or `udp`, nothing else.
    pub open spec fn spec_parse(s: Seq<char>) -> Option<Protocol> {
        if s == seq!['t', 'c', 'p'] {
            Some(Protocol::Tcp)
        } else if s == seq!['u', 'd', 'p'] {
            Some(Protocol::Udp)
        } else {
            None
        }
    }

    pub fn parse(s: &str) -> (r: Option<Protocol>)
        ensures
            r == Protocol::spec_parse(s@),
    {
        proof {
            reveal_strlit("tcp");
            reveal_strlit("udp");
            assert("tcp"@ =~= seq!['t', 'c', 'p']);
            assert("udp"@ =~= seq!['u', 'd', 'p']);
        }
        if text_equals(s, "tcp") {
            Some(Protocol::Tcp)
        } else if text_equals(s, "udp") {
            Some(Protocol::Udp)
        } else {
            None
        }
    }
}

impl Mode {
    pub open spec fn spec_label(self) -> Seq<char> {
        match self {
            Mode::Client => seq!['c', 'l', 'i', 'e', 'n', 't'],
            Mode::Server => seq!['s', 'e', 'r', 'v', 'e', 'r'],
        }
    }

    /// Human-readable name of the role.
    pub fn label(&self) -> (r: String)
        ensures
            r@ == self.spec_label(),
    {
        match self {
            Mode::Client => {
                proof {
                    reveal_strlit("client");
                }
                String::from_str("client")
            },
            Mode::Server => {
                proof {
                    reveal_strlit("server");
                }
                String::from_str("server")
            },
        }
    }
}

/// Character-wise equality of two strings.
pub fn text_equals(a: &str, b: &str) -> (r: bool)
    ensures
        r == (a@ == b@),
{
    let n = a.unicode_len();
    if n != b.unicode_len() {
        return false;
    }
    let mut i: usize = 0;
    while i < n
        invariant
            n == a@.len(),
            n == b@.len(),
            i <= n,
            forall|j: int| 0 <= j < i ==> a@[j] == b@[j],
        decreases n - i,
    {
        if a.get_char(i) != b.get_char(i) {
            return false;
        }
        i = i + 1;
    }
    assert(a@ =~= b@);
    true
}

/// Why a set of start-up values does not make a configuration.
#[derive(Clone, Copy, Debug, PartialEq, Eq, Structural)]
pub enum ConfigError {
    InvalidRemoteUrl,
    InvalidRemotePort,
    InvalidLocalPort,
    InvalidDataPayload,
    InvalidCount,
    InvalidTimeout,
    InvalidProtocol,
}

/// The validated record a run is driven by.
///
/// `remote_url` names the peer of a client and is empty for a server;
/// `count` is the number of round trips, 0 meaning no bound;
/// `timeout_ms` bounds each wait of a round trip.
#[derive(Debug)]
pub struct AppConfig {
    pub mode: Mode,
    pub remote_url: String,
    pub remote_port: u16,
    pub local_port: u16,
    pub data_payload: String,
    pub count: u32,
    pub protocol: Protocol,
    pub timeout_ms: u64,
}

/// The first of the start-up values, in the order they are read, that is
/// missing or out of range.
pub open spec fn config_error(
    remote_url: Option<Seq<char>>,
    remote_port: Option<u16>,
    local_port: Option<u16>,
    data_payload: Option<Seq<char>>,
    count: Option<u32>,
    timeout_ms: Option<u64>,
    protocol: Option<Seq<char>>,
) -> Option<ConfigError> {
    if remote_url is Some && remote_url->0.len() == 0 {
        Some(ConfigError::InvalidRemoteUrl)
    } else if remote_port is None || remote_port->0 == 0 {
        Some(ConfigError::InvalidRemotePort)
    } else if local_port is None || local_port->0 == 0 {
        Some(ConfigError::InvalidLocalPort)
    } else if data_payload is None {
        Some(ConfigError::InvalidDataPayload)
    } else if count is None {
        Some(ConfigError::InvalidCount)
    } else if timeout_ms is None {
        Some(ConfigError::InvalidTimeout)
    } else if protocol is None || Protocol::spec_parse(protocol->0) is None {
        Some(ConfigError::InvalidProtocol)
    } else {
        None
    }
}

pub open spec fn effective_timeout(t: u64) -> u64 {
    if t < MIN_TIMEOUT_MS {
        MIN_TIMEOUT_MS
    } else {
        t
    }
}

pub open spec fn opt_view(o: Option<String>) -> Option<Seq<char>> {
    match o {
        Some(s) => Some(s@),
        None => None,
    }
}

impl AppConfig {
    /// Holds for every configuration that `new` makes: a remote host is
    /// present (non-empty) exactly for a client, ports are positive and the
    /// timeout is never below the floor.
    pub open spec fn wf(&self) -> bool {
        &&& (self.mode == Mode::Client) == (self.remote_url@.len() > 0)
        &&& self.timeout_ms >= MIN_TIMEOUT_MS
        &&& self.remote_port > 0
        &&& self.local_port > 0
    }

    /// Builds the configuration from the values given at start-up.
    ///
    /// A remote host makes the run a client, its absence a server. Every other
    /// value must be present; ports must be positive, the host non-empty and
    /// the protocol `tcp` or `udp`. The timeout is raised to `MIN_TIMEOUT_MS`.
    pub fn new(
        remote_url: Option<String>,
        remote_port: Option<u16>,
        local_port: Option<u16>,
        data_payload: Option<String>,
        count: Option<u32>,
        timeout_ms: Option<u64>,
        protocol: Option<String>,
    ) -> (r: Result<AppConfig, ConfigError>)
        ensures
            match r {
                Ok(c) => {
                    &&& config_error(
                        opt_view(remote_url),
                        remote_port,
                        local_port,
                        opt_view(data_payload),
                        count,
                        timeout_ms,
                        opt_view(protocol),
                    ) is None
                    &&& c.mode == (if remote_url is Some {
                        Mode::Client
                    } else {
                        Mode::Server
                    })
                    &&& c.remote_url@ == (if remote_url is Some {
                        remote_url->0@
                    } else {
                        Seq::empty()
                    })
                    &&& c.remote_port == remote_port->0
                    &&& c.local_port == local_port->0
                    &&& c.data_payload@ == data_payload->0@
                    &&& c.count == count->0
                    &&& c.timeout_ms == effective_timeout(timeout_ms->0)
                    &&& Some(c.protocol) == Protocol::spec_parse(protocol->0@)
                    &&& c.wf()
                },
                Err(e) => config_error(
                    opt_view(remote_url),
                    remote_port,
                    local_port,
                    opt_view(data_payload),
                    count,
                    timeout_ms,
                    opt_view(protocol),
                ) == Some(e),
            },
    {
        let ghost url_in = opt_view(remote_url);
        let ghost payload_in = opt_view(data_payload);
        let ghost protocol_in = opt_view(protocol);
        let (mode, url) = match remote_url {
            Some(u) => {
                if u.as_str().unicode_len() == 0 {
                    return Err(ConfigError::InvalidRemoteUrl);
                }
                (Mode::Client, u)
            },
            None => (Mode::Server, String::new()),
        };
        let remote_port = match remote_port {
            Some(p) if p > 0 => p,
            _ => return Err(ConfigError::InvalidRemotePort),
        };
        let local_port = match local_port {
            Some(p) if p > 0 => p,
            _ => return Err(ConfigError::InvalidLocalPort),
        };
        let data_payload = match data_payload {
            Some(d) => d,
            None => return Err(ConfigError::InvalidDataPayload),
        };
        let count = match count {
            Some(c) => c,
            None => return Err(ConfigError::InvalidCount),
        };
        let timeout_ms = match timeout_ms {
            Some(t) => if t < MIN_TIMEOUT_MS {
                MIN_TIMEOUT_MS
            } else {
                t
            },
            None => return Err(ConfigError::InvalidTimeout),
        };
        let protocol = match protocol {
            Some(p) => match Protocol::parse(p.as_str()) {
                Some(v) => v,
                None => return Err(ConfigError::InvalidProtocol),
            },
            None => return Err(ConfigError::InvalidProtocol),
        };
        Ok(AppConfig {
            mode,
            remote_url: url,
            remote_port,
            local_port,
            data_payload,
            count,
            protocol,
            timeout_ms,
        })
    }
}

} // verus!
