//! Types shared by every proxy client in the crate: the timeout
//! bundle applied to each blocking I/O step, and the outcome of one
//! write-then-read round trip against the proxy server.

use vstd::prelude::*;

verus! {

/// Connect, write and read timeouts for one proxied connection
/// attempt, each in milliseconds. The value is immutable once
/// constructed; the write and read timeouts bound every round trip of
/// a handshake independently, while the connecting timeout applies to
/// establishing the underlying transport, which happens before a
/// handshake begins.
#[derive(Clone, Copy, Debug, PartialEq, Eq, Structural)]
pub struct ConnectionTimeouts {
    pub connecting_timeout: u64,
    pub write_timeout: u64,
    pub read_timeout: u64,
}

impl ConnectionTimeouts {
    pub fn new(connecting_timeout: u64, write_timeout: u64, read_timeout: u64) -> (r:
        ConnectionTimeouts)
        ensures
            r.connecting_timeout == connecting_timeout,
            r.write_timeout == write_timeout,
            r.read_timeout == read_timeout,
    {
        ConnectionTimeouts { connecting_timeout, write_timeout, read_timeout }
    }
}

/// Declares `std::io::Error` - the native error a failed transport
/// operation carries - so that error values can hold one; the type
/// stays opaque and nothing is assumed about it.
#[verifier::external_type_specification]
#[verifier::external_body]
pub struct ExIoError(std::io::Error);

/// What one timeout-bounded write-then-read round trip against the
/// proxy server came to. The caller performs the two I/O steps and
/// reports the outcome here; the reply classifiers turn the outcome,
/// together with the reply buffer, into a typed handshake result.
pub enum TransferEvent {
    /// The request was written in full and the server's reply was
    /// read; the payload is the number of reply bytes received.
    Replied(usize),
    /// The write or the read exceeded its configured timeout.
    TimedOut,
    /// The underlying transport failed with a native I/O error.
    Failed(std::io::Error),
}

/// Relies on the std `Display` implementation of `std::io::Error` to
/// render a native I/O error inside a human-readable message.
#[verifier::external_body]
pub(crate) fn io_error_text(e: &std::io::Error) -> String {
    format!("I/O error: {}", e)
}

} // verus!
