use vstd::prelude::*;

verus! {

/// Longest wait for the transport connection to open, in seconds.
pub const CONNECT_TIMEOUT_SECS: u64 = 5;

/// Why the transport could not be set up. All three surface to the caller as
/// one transport failure, and stay apart for diagnostics; each carries the
/// text of the underlying error.
#[derive(Clone, Debug, PartialEq, Eq)]
pub enum TransportError {
    /// The host and port do not form a valid socket address.
    InvalidAddress(String),
    /// The connection timed out, was refused or the host was unreachable.
    Connect(String),
    /// Send coalescing could not be switched off on the open connection.
    NoDelay(String),
}

/// The text handed to the socket-address parser: `host:port`.
pub fn endpoint_text(host: &str, port: &str) -> (r: String)
    ensures
        r@ == host@ + ":"@ + port@,
{
    let mut r = host.to_owned();
    r.append(":");
    r.append(port);
    r
}

} // verus!
