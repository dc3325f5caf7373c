//! The error taxonomy of the client.

use vstd::prelude::*;

verus! {

/// Every failure the client core can report. All outcomes are surfaced to
/// the caller as distinct, inspectable values; none are swallowed or
/// retried inside the core, and none abort the process.
#[derive(Clone, Copy, Debug, PartialEq, Eq, Structural)]
pub enum SomeIpClientError {
    /// A socket connect, read, write or send failed in the I/O layer.
    Io,
    /// The peer answered the request with an error-typed message; the
    /// return code of that message is kept for the caller.
    ErrorResponse { return_code: u8 },
    /// A structurally invalid header or discovery body was received.
    ReadError,
    /// A find-service query held a field value the wire format cannot
    /// carry (a time-to-live of zero or above 24 bits).
    ValueError,
    /// No matching announcement arrived before the discovery deadline.
    FindServiceTimeout,
    /// The peer closed the connection with no partial frame pending.
    ConnectionClosed,
    /// The peer closed the connection in the middle of a frame.
    TruncatedFrame,
}

} // verus!
