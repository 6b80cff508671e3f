//! The transport cipher state: the pair of symmetric session keys that a
//! finished handshake produces, together with the AEAD operations of the
//! transport phase.
//!
//! The cipher contexts themselves live in the key-exchange library and are
//! opaque here; what this module adds is a specification: the ciphertext of
//! the transport phase is a function `aead_seal` of the session key, the
//! nonce and the payload, and decryption inverts it.  The nonce counters are
//! *not* part of this type: they are plain values owned and advanced by the
//! channel, so that the nonce discipline is checked, not assumed.

use vstd::prelude::*;

use crate::errors::NoiseError;
use crate::wire::u64_be_bytes;

verus! {

#[verifier::external_type_specification]
#[verifier::external_body]
pub struct ExSnowError(snow::Error);

#[verifier::external_type_specification]
#[verifier::external_body]
pub struct ExHandshakeState(snow::HandshakeState);

#[verifier::external_type_specification]
#[verifier::external_body]
pub struct ExStatelessTransportState(snow::StatelessTransportState);

/// The AEAD ciphertext of the transport phase: the encryption of `payload`
/// under session key `key` and the given nonce, with the 16-byte
/// authentication tag appended.  The ciphertext also depends on which AEAD
/// algorithm the session's handshake pattern fixed, so the first argument is
/// the session's abstract suite identity: ciphertexts of sessions whose
/// suites are not known to be equal are never identified.  Within one suite
/// the cipher computes the result from key, nonce and payload alone, so the
/// result carries a name rather than a definition.
pub uninterp spec fn aead_seal(suite: int, key: Seq<u8>, nonce: u64, payload: Seq<u8>) -> Seq<u8>;

/// One wire packet: 8 big-endian nonce bytes followed by the AEAD ciphertext.
pub open spec fn packet_of(suite: int, key: Seq<u8>, nonce: u64, payload: Seq<u8>) -> Seq<u8> {
    u64_be_bytes(nonce) + aead_seal(suite, key, nonce, payload)
}

/// The two keyed cipher contexts of an established session, one per
/// direction.  Values of this type exist only for finished, bidirectional
/// handshakes: the one constructor refuses anything else.
pub struct TransportCipher {
    state: snow::StatelessTransportState,
    send_key_bytes: Vec<u8>,
    recv_key_bytes: Vec<u8>,
    suite_id: Ghost<int>,
}

impl TransportCipher {
    /// The session key under which this side encrypts.
    pub closed spec fn send_key(&self) -> Seq<u8> {
        self.send_key_bytes@
    }

    /// The session key under which this side decrypts.
    pub closed spec fn recv_key(&self) -> Seq<u8> {
        self.recv_key_bytes@
    }

    /// An abstract identity for the AEAD algorithm this session's handshake
    /// fixed.  The constructor leaves it unconstrained, so two cipher states
    /// are known to seal and open each other's packets only where their keys
    /// *and* suites agree — never across algorithms.
    pub closed spec fn suite(&self) -> int {
        self.suite_id@
    }

    /// Convert a finished handshake into the transport cipher state.
    ///
    /// Relies on snow::HandshakeState::dangerously_get_raw_split, which
    /// returns the two session keys of the split of a finished handshake
    /// (initiator-to-responder key first; the split is a pure key derivation
    /// from the chaining key, so it returns exactly the keys that already key
    /// the transport cipher contexts), on snow::HandshakeState::is_initiator,
    /// and on snow::HandshakeState::into_stateless_transport_mode, which
    /// refuses an unfinished handshake.  A one-way
    /// handshake pattern, whose transport phase refuses one direction, is
    /// refused here by a trial encryption and a trial decryption: channels of
    /// this layer are bidirectional.  The suite identity of the result is
    /// left unconstrained, since nothing here can compare the AEAD algorithms
    /// of two sessions.
    #[verifier::external_body]
    pub(crate) fn from_handshake(mut hs: snow::HandshakeState) -> (r: Result<
        TransportCipher,
        NoiseError,
    >)
        ensures
            r matches Ok(c) ==> c.send_key().len() == 32 && c.recv_key().len() == 32,
    {
        let initiator = hs.is_initiator();
        let (k1, k2) = hs.dangerously_get_raw_split();
        let state = hs.into_stateless_transport_mode().map_err(NoiseError::Snow)?;
        let (mut trial, mut sink) = ([0u8; 16], [0u8; 0]);
        if state.write_message(0, &[], &mut trial).is_err()
            || matches!(state.read_message(0, &trial, &mut sink), Err(snow::Error::State(_)))
        {
            return Err(NoiseError::HandshakeProtocol);
        }
        let (sk, rk) = if initiator { (k1, k2) } else { (k2, k1) };
        let (send_key_bytes, recv_key_bytes) = (sk.to_vec(), rk.to_vec());
        let suite_id = Ghost(vstd::pervasive::arbitrary());
        Ok(TransportCipher { state, send_key_bytes, recv_key_bytes, suite_id })
    }

    /// Encrypt one payload under the sending key and an explicit nonce.
    ///
    /// Relies on snow::StatelessTransportState::write_message: the ciphertext
    /// is the payload encrypted under the sending session key and the given
    /// nonce with the 16-byte tag appended; it is produced whenever the
    /// output buffer holds payload and tag and the nonce is below the
    /// reserved maximum, and never for the reserved maximum.
    #[verifier::external_body]
    pub(crate) fn seal(&self, nonce: u64, payload: &[u8], cap: usize) -> (r: Result<
        Vec<u8>,
        NoiseError,
    >)
        requires
            payload@.len() + 16 <= cap as int,
            cap <= 65535,
        ensures
            r matches Ok(ct) ==> ct@ == aead_seal(self.suite(), self.send_key(), nonce, payload@)
                && ct@.len() == payload@.len() + 16,
            nonce < u64::MAX ==> r is Ok,
            nonce == u64::MAX ==> r is Err,
            r matches Err(e) ==> e is Snow,
    {
        let mut buf = vec![0u8; cap];
        match self.state.write_message(nonce, payload, &mut buf) {
            Ok(n) => {
                buf.truncate(n);
                Ok(buf)
            },
            Err(e) => Err(NoiseError::Snow(e)),
        }
    }

    /// Decrypt one ciphertext under the receiving key and an explicit nonce.
    ///
    /// Relies on snow::StatelessTransportState::read_message: decryption
    /// returns exactly the payload that was sealed under the same key and
    /// nonce, and authentication refuses every message that was not so
    /// sealed.
    #[verifier::external_body]
    pub(crate) fn open(&self, nonce: u64, message: &[u8], cap: usize) -> (r: Result<
        Vec<u8>,
        NoiseError,
    >)
        requires
            message@.len() <= cap as int,
            cap <= 65535,
        ensures
            r matches Ok(pt) ==> message@ == aead_seal(self.suite(), self.recv_key(), nonce, pt@)
                && pt@.len() + 16 == message@.len(),
            r matches Ok(p) ==> forall|pt: Seq<u8>|
                message@ == aead_seal(self.suite(), self.recv_key(), nonce, pt) ==> p@ == pt,
            nonce < u64::MAX && (exists|pt: Seq<u8>|
                message@ == aead_seal(self.suite(), self.recv_key(), nonce, pt)) ==> r is Ok,
            r matches Err(e) ==> e is Snow,
    {
        let mut buf = vec![0u8; cap];
        match self.state.read_message(nonce, message, &mut buf) {
            Ok(n) => {
                buf.truncate(n);
                Ok(buf)
            },
            Err(e) => Err(NoiseError::Snow(e)),
        }
    }
}

} // verus!
