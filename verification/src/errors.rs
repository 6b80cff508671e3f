//! The error taxonomy of the transport layer.

use vstd::prelude::*;

verus! {

/// Everything that can go wrong below the raw connection: handshake and
/// cipher failures, framing violations, and nonce exhaustion.  Raw I/O errors
/// never reach this layer; the embedding application keeps them.
#[derive(Debug)]
pub enum NoiseError {
    /// A failure inside the key-exchange or cipher library: an invalid
    /// handshake message, an authentication failure, a malformed input.
    Snow(snow::Error),
    /// A received packet shorter than the minimum viable packet (nonce field
    /// plus authentication tag), which cannot even be a packet with an empty
    /// payload.
    TruncatedPacket,
    /// A nonce counter reached the reserved maximum value; no further packet
    /// may be encrypted or decrypted on this channel.
    NonceExhausted,
    /// The handshake was driven out of order, or did not produce a usable
    /// bidirectional transport cipher state within four messages.
    HandshakeProtocol,
}

} // verus!
