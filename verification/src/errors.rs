//! The error taxonomy shared by every component of the crate.

use vstd::prelude::*;

verus! {

/// Every failure the crate surfaces. None of these are retried internally:
/// each is handed to the caller as a terminal value, and a stream that has
/// produced one produces nothing further.
#[derive(Clone, Debug, PartialEq)]
pub enum Error {
    /// The connection descriptor is unsupported or malformed; raised at
    /// construction time, never during a request.
    Configuration(String),
    /// An I/O failure on the underlying connection.
    Network(String),
    /// A non-success HTTP status from the remote engine, with the message
    /// extracted from its error envelope (or a fallback reason phrase).
    Fault { status: u16, message: String },
    /// Frame decoding ended mid-header or mid-payload, or on bytes that do
    /// not form a frame header.
    TruncatedStream,
    /// Malformed or unexpectedly fragmented JSON in a streamed body.
    Serialization(String),
    /// The protocol-upgrade handshake was not answered with a protocol
    /// switch.
    UpgradeRejected,
}

} // verus!
