//! The gateway's configuration: read once at startup, never changed after.

use vstd::prelude::*;
use crate::addr::{IpAddr, SocketAddr, contains_addr};
use crate::text::{chars_of, same_text};

verus! {

#[derive(Clone, Debug, PartialEq, Eq)]
pub struct Config {
    pub server: ServerConfig,
    pub proxy: ProxyConfig,
    pub tls: TlsConfig,
}

#[derive(Clone, Debug, PartialEq, Eq)]
pub struct ServerConfig {
    pub listen_addr: IpAddr,
    pub listen_port: u16,
    /// The peers that may reach the upstream. Only membership counts: order
    /// and repetition mean nothing. An empty list admits nobody.
    pub whitelist: Vec<IpAddr>,
}

#[derive(Clone, Debug, PartialEq, Eq)]
pub struct ProxyConfig {
    /// `http` or `https`.
    pub protocol: String,
    pub target_addr: IpAddr,
    pub target_port: u16,
}

#[derive(Clone, Debug, PartialEq, Eq)]
pub struct TlsConfig {
    pub cert_path: String,
    pub key_path: String,
}

/// How the upstream is spoken to.
#[derive(Clone, Copy, Debug, PartialEq, Eq, Structural)]
pub enum Protocol {
    Http,
    Https,
}

/// The one origin that permitted requests are forwarded to.
#[derive(Clone, Copy, Debug, PartialEq, Eq, Structural)]
pub struct UpstreamTarget {
    pub protocol: Protocol,
    pub host: IpAddr,
    pub port: u16,
}

/// Where the configuration file is looked for.
#[derive(Clone, Debug, PartialEq, Eq)]
pub struct ConfigLocation {
    pub path: String,
    /// Whether `path` came from the environment; if not, it is the default and
    /// the caller should warn.
    pub from_env: bool,
}

/// The protocol that `name` spells, if any. Names are case-sensitive.
pub open spec fn protocol_named(name: Seq<char>) -> Option<Protocol> {
    if name == "http"@ {
        Some(Protocol::Http)
    } else if name == "https"@ {
        Some(Protocol::Https)
    } else {
        None
    }
}

impl Protocol {
    pub fn from_name(name: &str) -> (protocol: Option<Protocol>)
        ensures
            protocol == protocol_named(name@),
    {
        let text = chars_of(name);
        if same_text(&text, "http") {
            Some(Protocol::Http)
        } else if same_text(&text, "https") {
            Some(Protocol::Https)
        } else {
            None
        }
    }

    pub open spec fn spec_name(&self) -> Seq<char> {
        match *self {
            Protocol::Http => "http"@,
            Protocol::Https => "https"@,
        }
    }

    /// The name of the protocol, which `from_name` reads back.
    pub fn name(&self) -> (name: &'static str)
        ensures
            name@ == self.spec_name(),
            protocol_named(name@) == Some(*self),
    {
        match self {
            Protocol::Http => "http",
            Protocol::Https => {
                proof {
                    reveal_strlit("http");
                    reveal_strlit("https");
                    assert("https"@.len() != "http"@.len());
                }
                "https"
            },
        }
    }
}

impl ServerConfig {
    /// Whether `ip` is on the allow-list.
    pub open spec fn allows(&self, ip: IpAddr) -> bool {
        self.whitelist@.contains(ip)
    }

    pub fn is_allowed(&self, ip: IpAddr) -> (allowed: bool)
        ensures
            allowed == self.allows(ip),
    {
        contains_addr(&self.whitelist, ip)
    }

    /// The address that the listener binds.
    pub fn listen(&self) -> (addr: SocketAddr)
        ensures
            addr.ip == self.listen_addr,
            addr.port == self.listen_port,
    {
        SocketAddr::new(self.listen_addr, self.listen_port)
    }
}

impl ProxyConfig {
    /// A proxy section is well formed when its protocol is one of the two names.
    pub open spec fn well_formed(&self) -> bool {
        protocol_named(self.protocol@) is Some
    }

    pub open spec fn target(&self) -> Option<UpstreamTarget> {
        match protocol_named(self.protocol@) {
            Some(protocol) => Some(
                UpstreamTarget { protocol, host: self.target_addr, port: self.target_port },
            ),
            None => None,
        }
    }

    /// The upstream target, fixed for the life of the process. `None` exactly
    /// when the protocol is neither `http` nor `https`.
    pub fn upstream_target(&self) -> (target: Option<UpstreamTarget>)
        ensures
            target == self.target(),
            target is Some <==> self.well_formed(),
    {
        match Protocol::from_name(self.protocol.as_str()) {
            Some(protocol) => Some(
                UpstreamTarget { protocol, host: self.target_addr, port: self.target_port },
            ),
            None => None,
        }
    }
}

/// The path under which the forwarding engine is mounted. It is the root:
/// every request that is let through is forwarded, whatever its path.
pub const MOUNT_PATH: &'static str = "/";

/// The environment variable that names the configuration file.
pub const CONFIG_PATH: &'static str = "FORGEJO_PROXY_CONFIG";

/// The file that is read where the environment names none.
pub const DEFAULT_CONFIG_PATH: &'static str = "/etc/forgejo-proxy/config.toml";

/// Chooses the configuration file: the one that the environment names, or the
/// default where `env_value` is `None` (the variable unset or unreadable).
pub fn config_location(env_value: Option<String>) -> (location: ConfigLocation)
    ensures
        location.from_env == (env_value is Some),
        env_value matches Some(path) ==> location.path@ == path@,
        env_value is None ==> location.path@ == DEFAULT_CONFIG_PATH@,
{
    match env_value {
        Some(path) => ConfigLocation { path, from_env: true },
        None => ConfigLocation { path: DEFAULT_CONFIG_PATH.to_owned(), from_env: false },
    }
}

} // verus!
