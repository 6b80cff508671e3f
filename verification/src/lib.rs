//! A secure-transport framing layer: a Diffie-Hellman-based handshake
//! establishes a pair of symmetric cipher contexts, after which plaintext is
//! exchanged as fixed-size packets of the form `nonce || ciphertext || tag`.
//!
//! The crate is organised around the wire format (`wire`), the transport
//! cipher state (`cipher`), the handshake strategies (`handshakes`), the
//! handshake orchestrator (`session`) and the packetizing channel (`channel`).
//! Raw socket I/O is left to the embedding application, which shuttles whole
//! packets and handshake messages between a channel and its peer.

pub mod channel;
pub mod cipher;
pub mod errors;
pub mod handshakes;
pub mod session;
pub mod wire;
