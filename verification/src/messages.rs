//! The messages exchanged between the client daemon, the client relay and
//! the host daemon (sent as JSON by the program around this library).
use vstd::prelude::*;

verus! {

/// Asks a daemon to open `url`.
#[derive(Debug, Clone)]
pub struct OpenUrlRequest {
    pub url: String,
}

/// A request received by a host-side proxy, sent on to the client relay.
#[derive(Debug, Clone)]
pub struct ProxyRequest {
    /// The client port the request is meant for.
    pub port: u16,
    pub method: String,
    pub path_and_query: String,
    /// Header name and value pairs.
    pub headers: Vec<(String, String)>,
    /// Base64 (standard alphabet, padded) body; empty means no body.
    pub body: String,
}

/// The answer of the local service, returned by the client relay.
#[derive(Debug, Clone)]
pub struct ProxyResponse {
    pub status: u16,
    /// Header name and value pairs.
    pub headers: Vec<(String, String)>,
    /// Base64 (standard alphabet, padded) body; empty means no body.
    pub body: String,
}

/// Whether a ports request opens or closes proxies.
#[derive(Clone, Copy, PartialEq, Eq, Structural, Debug)]
pub enum PortAction {
    Add,
    Delete,
}

/// Tells the host which client ports to proxy (or to stop proxying), and
/// where the client relay is reachable.
#[derive(Debug, Clone)]
pub struct PortsRequest {
    pub ports: Vec<u16>,
    pub action: PortAction,
    pub relay_url: String,
}

} // verus!
