//! Handshake pattern strategies.
//!
//! A strategy decides which key-exchange pattern is run and what payload each
//! handshake message carries; the orchestrator in `session` drives it.  The
//! one strategy shipped here is `NNpsk0`: no static keys, authentication by a
//! 32-byte pre-shared key mixed in before the first message, yielding a
//! session with forward secrecy.

use vstd::prelude::*;

use crate::errors::NoiseError;
use crate::wire::CIPHERTEXT_PACKET_SIZE;

verus! {

/// A pluggable handshake pattern, bound to a role by the orchestrator.  Each
/// message-construction method receives the key-exchange state and the
/// decrypted payload of the last incoming message, and returns the next
/// outgoing handshake message, ready to be written whole to the connection.
pub trait Handshake {
    /// Build the key-exchange state for the initiator role.
    fn build_initiator(&mut self) -> Result<snow::HandshakeState, NoiseError>;

    /// Build the key-exchange state for the responder role.
    fn build_responder(&mut self) -> Result<snow::HandshakeState, NoiseError>;

    /// The initiator's opening message.
    fn initiator_first_message(&mut self, hs: &mut snow::HandshakeState) -> Result<
        Vec<u8>,
        NoiseError,
    >;

    /// The responder's reply to the opening message.
    fn responder_first_message(
        &mut self,
        hs: &mut snow::HandshakeState,
        received: &[u8],
    ) -> Result<Vec<u8>, NoiseError>;

    /// The initiator's second message, where the pattern has one.
    fn initiator_second_message(
        &mut self,
        hs: &mut snow::HandshakeState,
        received: &[u8],
    ) -> Result<Vec<u8>, NoiseError>;

    /// The responder's second message, where the pattern has one.
    fn responder_second_message(
        &mut self,
        hs: &mut snow::HandshakeState,
        received: &[u8],
    ) -> Result<Vec<u8>, NoiseError>;
}

/// Whether the key exchange has produced a usable transport cipher state.
/// Relies on snow::HandshakeState::is_handshake_finished.
pub assume_specification[ snow::HandshakeState::is_handshake_finished ](
    hs: &snow::HandshakeState,
) -> bool;

/// Construct one handshake message carrying the given payload.
///
/// Relies on snow::HandshakeState::write_message: it writes the next
/// handshake message of the pattern into the buffer and returns its length.
/// The scratch buffer is 65535 bytes, the Noise protocol's maximum message
/// size, within which every pattern's token writes fit; a message that would
/// exceed `cap` is returned as snow's own too-large-input error, so a
/// returned message never exceeds `cap`.
#[verifier::external_body]
pub fn hs_write_message(hs: &mut snow::HandshakeState, payload: &[u8], cap: usize) -> (r: Result<
    Vec<u8>,
    NoiseError,
>)
    requires
        payload@.len() <= 65535,
    ensures
        r matches Ok(m) ==> m@.len() <= cap,
{
    let mut buf = vec![0u8; 65535];
    match hs.write_message(payload, &mut buf) {
        Ok(n) if n <= cap => {
            buf.truncate(n);
            Ok(buf)
        },
        Ok(_) => Err(NoiseError::Snow(snow::Error::Input)),
        Err(e) => Err(NoiseError::Snow(e)),
    }
}

/// Parse and decrypt one received handshake message, returning its payload.
///
/// Relies on snow::HandshakeState::read_message: it returns the decrypted
/// payload of the message, which fits the output buffer where it succeeds;
/// an invalid or unauthentic message is an error and leaves no payload.
#[verifier::external_body]
pub fn hs_read_message(hs: &mut snow::HandshakeState, message: &[u8], cap: usize) -> (r: Result<
    Vec<u8>,
    NoiseError,
>)
    ensures
        r matches Ok(p) ==> p@.len() <= cap,
{
    let mut buf = vec![0u8; cap];
    match hs.read_message(message, &mut buf) {
        Ok(n) => {
            buf.truncate(n);
            Ok(buf)
        },
        Err(e) => Err(NoiseError::Snow(e)),
    }
}

/// Build an `NNpsk0` key-exchange state for one role.
///
/// Relies on snow::Builder with the parameters
/// `Noise_NNpsk0_25519_ChaChaPoly_BLAKE2s`, the pre-shared key at position 0,
/// and build_initiator / build_responder.  The builder refuses a pre-shared
/// key that is not exactly 32 bytes.
#[verifier::external_body]
fn build_nnpsk0(psk: &[u8], initiator: bool) -> (r: Result<snow::HandshakeState, NoiseError>)
    ensures
        psk@.len() != 32 ==> r is Err,
{
    let params: snow::params::NoiseParams =
        "Noise_NNpsk0_25519_ChaChaPoly_BLAKE2s".parse().map_err(NoiseError::Snow)?;
    let key: &[u8; 32] = psk.try_into().map_err(|_| NoiseError::HandshakeProtocol)?;
    let builder = snow::Builder::new(params).psk(0, key).map_err(NoiseError::Snow)?;
    let built = if initiator { builder.build_initiator() } else { builder.build_responder() };
    built.map_err(NoiseError::Snow)
}

/// The `NNpsk0` pattern: two handshake messages, no static keys, mutual
/// authentication through a shared 32-byte pre-shared key.
pub struct NNpsk0 {
    psk: Vec<u8>,
}

impl NNpsk0 {
    /// The pre-shared key this strategy was built with.
    pub closed spec fn psk_bytes(&self) -> Seq<u8> {
        self.psk@
    }

    /// A strategy using the given pre-shared key, which both peers must hold.
    pub fn new(psk: &[u8]) -> (s: NNpsk0)
        ensures
            s.psk_bytes() == psk@,
    {
        NNpsk0 { psk: vstd::slice::slice_to_vec(psk) }
    }
}

impl Handshake for NNpsk0 {
    fn build_initiator(&mut self) -> Result<snow::HandshakeState, NoiseError> {
        build_nnpsk0(self.psk.as_slice(), true)
    }

    fn build_responder(&mut self) -> Result<snow::HandshakeState, NoiseError> {
        build_nnpsk0(self.psk.as_slice(), false)
    }

    fn initiator_first_message(&mut self, hs: &mut snow::HandshakeState) -> Result<
        Vec<u8>,
        NoiseError,
    > {
        let payload: Vec<u8> = Vec::new();
        hs_write_message(hs, payload.as_slice(), CIPHERTEXT_PACKET_SIZE)
    }

    fn responder_first_message(
        &mut self,
        hs: &mut snow::HandshakeState,
        _received: &[u8],
    ) -> Result<Vec<u8>, NoiseError> {
        let payload: Vec<u8> = Vec::new();
        hs_write_message(hs, payload.as_slice(), CIPHERTEXT_PACKET_SIZE)
    }

    fn initiator_second_message(
        &mut self,
        hs: &mut snow::HandshakeState,
        _received: &[u8],
    ) -> Result<Vec<u8>, NoiseError> {
        let payload: Vec<u8> = Vec::new();
        hs_write_message(hs, payload.as_slice(), CIPHERTEXT_PACKET_SIZE)
    }

    fn responder_second_message(
        &mut self,
        hs: &mut snow::HandshakeState,
        _received: &[u8],
    ) -> Result<Vec<u8>, NoiseError> {
        let payload: Vec<u8> = Vec::new();
        hs_write_message(hs, payload.as_slice(), CIPHERTEXT_PACKET_SIZE)
    }
}

} // verus!
