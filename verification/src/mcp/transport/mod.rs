//! Transports: how protocol messages travel to a peer.

use vstd::prelude::*;
use crate::text::owned;

verus! {

/// The configuration of a transport.
#[derive(Debug)]
pub struct TransportConfig {
    /// Where the peer is.
    pub url: String,
    /// How long a request may take, in seconds.
    pub timeout_seconds: u64,
    /// How many times a lost connection is re-established.
    pub max_reconnect_attempts: usize,
    /// How long to wait before re-establishing it, in milliseconds.
    pub reconnect_delay_ms: u64,
}

impl Default for TransportConfig {
    /// A WebSocket peer on the local port 8080, 30 seconds per request,
    /// five reconnections a second apart.
    fn default() -> (r: Self)
        ensures
            r.url@ == "ws://localhost:8080"@,
            r.timeout_seconds == 30,
            r.max_reconnect_attempts == 5,
            r.reconnect_delay_ms == 1000,
    {
        TransportConfig { url: owned("ws://localhost:8080"), timeout_seconds: 30, max_reconnect_attempts: 5, reconnect_delay_ms: 1000 }
    }
}

/// What the WebSocket transport's connection loop does when a connection
/// has ended or failed.
#[derive(Debug, PartialEq, Eq)]
pub enum Reconnect {
    /// Connect again after `delay_ms` milliseconds; this is reconnection
    /// number `attempt`.
    After { attempt: u32, delay_ms: u64 },
    /// Stop: five reconnections have been tried.
    GiveUp,
}

/// The loop's step after `attempts` reconnections since the last successful
/// connection: up to five reconnections, each waiting a second longer than
/// the one before.
pub fn next_reconnect(attempts: u32) -> (r: Reconnect)
    ensures
        attempts >= 5 ==> r == Reconnect::GiveUp,
        attempts < 5 ==> r == (Reconnect::After { attempt: (attempts + 1) as u32, delay_ms: (1000 * (attempts + 1)) as u64 }),
{
    if attempts >= 5 {
        Reconnect::GiveUp
    } else {
        let attempt = attempts + 1;
        Reconnect::After { attempt, delay_ms: 1000 * attempt as u64 }
    }
}

/// The HTTP transport. HTTP support is not built in, so it holds nothing and
/// no value of it is made.
#[derive(Debug)]
pub struct HttpTransport {
    _private: (),
}

/// The WebSocket transport. WebSocket support is not built in, so it holds
/// nothing and no value of it is made.
#[derive(Debug)]
pub struct WebSocketTransport {
    _private: (),
}

/// Makes HTTP transports. HTTP support is not built in, so the factory keeps
/// nothing of the configuration and makes no transport.
#[derive(Debug)]
pub struct HttpTransportFactory {
    _private: (),
}

impl HttpTransportFactory {
    /// A factory; the configuration is not used.
    pub fn new(_config: TransportConfig) -> (r: HttpTransportFactory) {
        HttpTransportFactory { _private: () }
    }

    /// The error for asking this factory for a transport.
    pub fn create(&self) -> (r: Result<(), String>)
        ensures
            r matches Err(m) && m@ == "HTTP transport is not enabled. Enable the 'transport-http' feature."@,
    {
        Err(owned("HTTP transport is not enabled. Enable the 'transport-http' feature."))
    }
}

} // verus!
