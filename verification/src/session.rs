//! The handshake orchestrator.
//!
//! A `HandshakeSession` drives a bounded exchange of at most four handshake
//! messages — initiator and responder strictly alternating, the initiator
//! writing first — until the key exchange reports completion, and then turns
//! into an established channel.  The session itself does no I/O: `status`
//! says whether the next step is to transmit a message, to await one, or to
//! finish, and the embedding application moves the bytes.  Completion is
//! queried from the key exchange after every step, never inferred by
//! counting, so shorter patterns terminate early; any decrypted application
//! bytes that rode on the final handshake message are preserved and delivered
//! first by the channel.

use vstd::prelude::*;

use crate::channel::NoiseChannel;
use crate::cipher::TransportCipher;
use crate::errors::NoiseError;
use crate::handshakes::{hs_read_message, Handshake};
use crate::wire::PLAINTEXT_PACKET_SIZE;

verus! {

/// Which side of the handshake this session plays.
#[derive(Clone, Copy, Debug, PartialEq, Eq, Structural)]
pub enum Role {
    Initiator,
    Responder,
}

/// The next step the application must take to advance the handshake.
#[derive(Clone, Copy, Debug, PartialEq, Eq, Structural)]
pub enum HandshakeStatus {
    /// Construct the next message with `next_message` and transmit it whole.
    Send,
    /// Await one message from the peer and hand it to `message_received`.
    Receive,
    /// The key exchange is complete: call `finish`.
    Done,
}

/// The step that follows from the role, the number of messages processed so
/// far, and completion: the peers strictly alternate, the initiator sending
/// at even counts and receiving at odd ones, the responder mirrored.
pub open spec fn status_spec(role: Role, stage: u8, finished: bool) -> HandshakeStatus {
    if finished {
        HandshakeStatus::Done
    } else {
        match role {
            Role::Initiator => if stage % 2 == 0 {
                HandshakeStatus::Send
            } else {
                HandshakeStatus::Receive
            },
            Role::Responder => if stage % 2 == 0 {
                HandshakeStatus::Receive
            } else {
                HandshakeStatus::Send
            },
        }
    }
}

/// An in-progress handshake: the strategy, the key-exchange state, and the
/// transcript position.  Created per connection, consumed by `finish`,
/// discarded on failure.
pub struct HandshakeSession<H: Handshake> {
    strategy: H,
    hs: snow::HandshakeState,
    role: Role,
    stage: u8,
    finished: bool,
    last_payload: Vec<u8>,
    leftover: Vec<u8>,
}

impl<H: Handshake> HandshakeSession<H> {
    /// The side this session plays.
    pub closed spec fn role(&self) -> Role {
        self.role
    }

    /// How many handshake messages were processed so far, sent and received
    /// together.
    pub closed spec fn stage(&self) -> u8 {
        self.stage
    }

    /// Whether the key exchange has reported completion.
    pub closed spec fn is_finished(&self) -> bool {
        self.finished
    }

    /// The decrypted application bytes that rode on the final handshake
    /// message, if it was an incoming one.
    pub closed spec fn leftover_bytes(&self) -> Seq<u8> {
        self.leftover@
    }

    /// The exchange is bounded: at most four messages, and once four are
    /// processed the key exchange must have completed — a successful fourth
    /// step always leaves the session finished.
    pub open spec fn wf(&self) -> bool {
        &&& self.stage() <= 4
        &&& (self.stage() == 4 ==> self.is_finished())
    }

    /// Open a session in the initiator role.
    pub fn new_initiator(strategy: H) -> (r: Result<Self, NoiseError>)
        ensures
            r matches Ok(s) ==> s.wf() && s.role() == Role::Initiator && s.stage() == 0
                && s.leftover_bytes() == Seq::<u8>::empty(),
    {
        let mut strategy = strategy;
        let hs = match strategy.build_initiator() {
            Ok(hs) => hs,
            Err(e) => {
                return Err(e);
            },
        };
        let finished = hs.is_handshake_finished();
        Ok(
            HandshakeSession {
                strategy,
                hs,
                role: Role::Initiator,
                stage: 0,
                finished,
                last_payload: Vec::new(),
                leftover: Vec::new(),
            },
        )
    }

    /// Open a session in the responder role.
    pub fn new_responder(strategy: H) -> (r: Result<Self, NoiseError>)
        ensures
            r matches Ok(s) ==> s.wf() && s.role() == Role::Responder && s.stage() == 0
                && s.leftover_bytes() == Seq::<u8>::empty(),
    {
        let mut strategy = strategy;
        let hs = match strategy.build_responder() {
            Ok(hs) => hs,
            Err(e) => {
                return Err(e);
            },
        };
        let finished = hs.is_handshake_finished();
        Ok(
            HandshakeSession {
                strategy,
                hs,
                role: Role::Responder,
                stage: 0,
                finished,
                last_payload: Vec::new(),
                leftover: Vec::new(),
            },
        )
    }

    /// The next step the application must take.
    pub fn status(&self) -> (st: HandshakeStatus)
        ensures
            st == status_spec(self.role(), self.stage(), self.is_finished()),
    {
        if self.finished {
            HandshakeStatus::Done
        } else {
            match self.role {
                Role::Initiator => if self.stage % 2 == 0 {
                    HandshakeStatus::Send
                } else {
                    HandshakeStatus::Receive
                },
                Role::Responder => if self.stage % 2 == 0 {
                    HandshakeStatus::Receive
                } else {
                    HandshakeStatus::Send
                },
            }
        }
    }

    /// Construct the next outgoing handshake message, to be transmitted
    /// whole.  On success one more message has been processed; on failure the
    /// handshake is aborted and the session is discarded.
    pub fn next_message(&mut self) -> (r: Result<Vec<u8>, NoiseError>)
        requires
            old(self).wf(),
            status_spec(old(self).role(), old(self).stage(), old(self).is_finished())
                == HandshakeStatus::Send,
        ensures
            final(self).wf(),
            final(self).role() == old(self).role(),
            final(self).leftover_bytes() == old(self).leftover_bytes(),
            r is Ok ==> final(self).stage() == old(self).stage() + 1,
            r is Ok && old(self).stage() == 3 ==> final(self).is_finished(),
            r is Err ==> final(self).stage() == old(self).stage() && final(self).is_finished()
                == old(self).is_finished(),
    {
        let built = if self.stage == 0 {
            self.strategy.initiator_first_message(&mut self.hs)
        } else if self.stage == 1 {
            self.strategy.responder_first_message(&mut self.hs, self.last_payload.as_slice())
        } else if self.stage == 2 {
            self.strategy.initiator_second_message(&mut self.hs, self.last_payload.as_slice())
        } else {
            self.strategy.responder_second_message(&mut self.hs, self.last_payload.as_slice())
        };
        let msg = match built {
            Ok(m) => m,
            Err(e) => {
                return Err(e);
            },
        };
        self.finished = self.hs.is_handshake_finished();
        if self.stage == 3 && !self.finished {
            return Err(NoiseError::HandshakeProtocol);
        }
        self.stage = self.stage + 1;
        Ok(msg)
    }

    /// Feed one message received from the peer into the key exchange.  Where
    /// it completes the exchange, its decrypted payload is kept as the
    /// leftover application bytes; otherwise the payload is held for the
    /// strategy's next message.  On failure — an unauthentic or malformed
    /// message, or a fourth message that still leaves the exchange open — the
    /// handshake is aborted and the session is discarded.
    pub fn message_received(&mut self, message: &[u8]) -> (r: Result<(), NoiseError>)
        requires
            old(self).wf(),
            status_spec(old(self).role(), old(self).stage(), old(self).is_finished())
                == HandshakeStatus::Receive,
        ensures
            final(self).wf(),
            final(self).role() == old(self).role(),
            r is Ok ==> final(self).stage() == old(self).stage() + 1,
            r is Ok && old(self).stage() == 3 ==> final(self).is_finished(),
            r is Ok && !final(self).is_finished() ==> final(self).leftover_bytes() == old(
                self,
            ).leftover_bytes(),
            r is Err ==> final(self).stage() == old(self).stage() && final(self).is_finished()
                == old(self).is_finished() && final(self).leftover_bytes() == old(
                self,
            ).leftover_bytes(),
    {
        let payload = match hs_read_message(&mut self.hs, message, PLAINTEXT_PACKET_SIZE) {
            Ok(p) => p,
            Err(e) => {
                return Err(e);
            },
        };
        self.finished = self.hs.is_handshake_finished();
        if self.stage == 3 && !self.finished {
            return Err(NoiseError::HandshakeProtocol);
        }
        self.stage = self.stage + 1;
        if self.finished {
            self.leftover = payload;
        } else {
            self.last_payload = payload;
        }
        Ok(())
    }

    /// Turn the completed key exchange into an established channel whose
    /// pending queue starts with the leftover handshake payload, so those
    /// bytes are delivered before anything read from the wire.  Nonce
    /// counters start at zero.  An unfinished session is refused, and a
    /// pattern whose transport phase is not bidirectional is refused by the
    /// cipher construction.
    pub fn finish(self) -> (r: Result<NoiseChannel, NoiseError>)
        ensures
            r matches Ok(c) ==> c.send_nonce() == 0 && c.recv_nonce() == 0 && c.pending_bytes()
                == self.leftover_bytes(),
            !self.is_finished() ==> r is Err,
    {
        if !self.finished {
            return Err(NoiseError::HandshakeProtocol);
        }
        let cipher = match TransportCipher::from_handshake(self.hs) {
            Ok(c) => c,
            Err(e) => {
                return Err(e);
            },
        };
        Ok(NoiseChannel::from_parts(cipher, self.leftover.as_slice()))
    }
}

} // verus!
