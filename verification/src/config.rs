//! What the gateway is started with, once the arguments are read.

use crate::locator::parsed_url;
use url::Url;
use vstd::prelude::*;
use vstd::string::StringExecFns;

verus! {

/// The scheme of every destination, as a URL starts with it.
pub const PROTOCOL: &'static str = "http://";

/// Why no configuration could be made of the arguments.
#[derive(Clone, Copy, Debug, PartialEq, Eq, Structural)]
pub enum ConfigError {
    /// The forward address does not make a URL.
    ForwardAddress,
}

/// Where the gateway listens: a host and a port.
#[derive(Clone, Debug, PartialEq, Eq)]
pub struct ListenAddress {
    pub host: String,
    pub port: u16,
}

/// The gateway's configuration.
#[derive(Debug)]
pub struct Config {
    /// The address to bind, where host and port were both given. `None`
    /// means that the listening socket is taken over from the environment.
    pub listen_socket_address: Option<ListenAddress>,
    /// The URL of the forward destination.
    pub forward_url: Url,
}

/// The address to listen on: host and port where both are given, nothing
/// where either is missing.
pub open spec fn listen_choice(host: Option<Seq<char>>, port: Option<u16>) -> Option<
    (Seq<char>, u16),
> {
    match (host, port) {
        (Some(h), Some(p)) => Some((h, p)),
        _ => None,
    }
}

/// The view of an optional listen address.
pub open spec fn listen_view(listen: Option<ListenAddress>) -> Option<(Seq<char>, u16)> {
    match listen {
        Some(a) => Some((a.host@, a.port)),
        None => None,
    }
}

impl Config {
    /// The configuration for these values. `forward` is the forward
    /// destination as `host:port`; the forward URL is what the URL parser
    /// makes of it behind the scheme. Fails exactly where that is no URL.
    pub fn from_values(listen_host: Option<&str>, listen_port: Option<u16>, forward: &str) -> (r:
        Result<Config, ConfigError>)
        ensures
            match r {
                Ok(c) => parsed_url(PROTOCOL@ + forward@) == Some(c.forward_url)
                    && listen_view(c.listen_socket_address) == listen_choice(
                    match listen_host {
                        Some(h) => Some(h@),
                        None => None,
                    },
                    listen_port,
                ),
                Err(e) => e == ConfigError::ForwardAddress && parsed_url(PROTOCOL@ + forward@)
                    is None,
            },
    {
        let listen = match (listen_host, listen_port) {
            (Some(h), Some(p)) => Some(ListenAddress { host: h.to_owned(), port: p }),
            _ => None,
        };
        let mut text = String::from_str(PROTOCOL);
        text.append(forward);
        match Url::parse(text.as_str()) {
            Ok(url) => Ok(Config { listen_socket_address: listen, forward_url: url }),
            Err(_) => Err(ConfigError::ForwardAddress),
        }
    }

    /// Whether the listening socket is to be taken over from the
    /// environment.
    pub fn inherits_socket(&self) -> (r: bool)
        ensures
            r == (self.listen_socket_address is None),
    {
        self.listen_socket_address.is_none()
    }
}

} // verus!
