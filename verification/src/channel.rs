//! The packetizing channel: the verified core of the transport phase.
//!
//! A `NoiseChannel` owns the transport cipher state, the two nonce counters
//! and the pending-bytes queue.  It is deliberately free of I/O: `send_packet`
//! returns the wire packet for the caller to transmit whole, and
//! `recv_packet` accepts one received wire packet, so that every decision of
//! the transport phase — nonce discipline, framing, queueing — is verified
//! here while the embedding application only moves bytes.

use vstd::prelude::*;

use std::collections::VecDeque;

use crate::cipher::{aead_seal, packet_of, TransportCipher};
use crate::errors::NoiseError;
use crate::wire::{
    asserted_nonce, effective_nonce, lemma_u64_be_round_trip, read_u64, u64_be_bytes, write_u64,
    CIPHERTEXT_PACKET_SIZE, MIN_CIPHERTEXT_PACKET_SIZE, NOISE_NONCE_SIZE, NOISE_TAG_SIZE,
    PLAINTEXT_PACKET_SIZE,
};

verus! {

/// How many bytes one `send_packet` call consumes from a write of `n` bytes:
/// everything, up to the fixed maximum payload of one packet.  A longer write
/// is consumed only in part and the caller re-issues the remainder.
pub open spec fn consumed_len(n: int) -> int {
    if n > PLAINTEXT_PACKET_SIZE as int {
        PLAINTEXT_PACKET_SIZE as int
    } else {
        n
    }
}

/// An established bidirectional encrypted channel.
///
/// Invariant: the send nonce counter is advanced by exactly one for each
/// encoded packet, so no nonce is ever reused for encryption under the send
/// key; the receive counter never decreases, and may jump forward to match a
/// higher nonce asserted by the peer.  The pending queue holds decrypted
/// bytes in arrival order, not yet handed to a caller.
pub struct NoiseChannel {
    cipher: TransportCipher,
    send_nonce_ctr: u64,
    recv_nonce_ctr: u64,
    pending: VecDeque<u8>,
    used_nonces_log: Ghost<Seq<u64>>,
}

impl NoiseChannel {
    /// The session key under which this side encrypts.
    pub closed spec fn send_key(&self) -> Seq<u8> {
        self.cipher.send_key()
    }

    /// The session key under which this side decrypts.
    pub closed spec fn recv_key(&self) -> Seq<u8> {
        self.cipher.recv_key()
    }

    /// The abstract identity of the AEAD algorithm this channel's handshake
    /// fixed (see `TransportCipher::suite`).
    pub closed spec fn suite(&self) -> int {
        self.cipher.suite()
    }

    /// The nonce the next encoded packet will use.
    pub closed spec fn send_nonce(&self) -> u64 {
        self.send_nonce_ctr
    }

    /// The nonce counter the next received packet is checked against.
    pub closed spec fn recv_nonce(&self) -> u64 {
        self.recv_nonce_ctr
    }

    /// The decrypted bytes that were received but not yet delivered.
    pub closed spec fn pending_bytes(&self) -> Seq<u8> {
        self.pending@
    }

    /// The nonces this channel has used for encryption, in the order the
    /// packets were encoded.
    pub closed spec fn used_nonces(&self) -> Seq<u64> {
        self.used_nonces_log@
    }

    /// The nonce discipline of the send side: the nonces used so far are
    /// exactly the consecutive values below the current counter, so none is
    /// ever reused and each send uses one more than the send before it.
    /// Established at construction and preserved by every operation.
    pub open spec fn nonce_history_ok(&self) -> bool {
        forall|i: int|
            0 <= i < self.used_nonces().len() ==> #[trigger] self.used_nonces()[i] as int
                == self.send_nonce() - self.used_nonces().len() + i
    }

    /// Assemble a channel from an established cipher state and the decrypted
    /// application bytes that arrived piggybacked on the final handshake
    /// message.  Both nonce counters start at zero: the handshake phase does
    /// not use the transport nonces.
    pub(crate) fn from_parts(cipher: TransportCipher, leftover: &[u8]) -> (c: NoiseChannel)
        ensures
            c.send_key() == cipher.send_key(),
            c.recv_key() == cipher.recv_key(),
            c.suite() == cipher.suite(),
            c.send_nonce() == 0,
            c.recv_nonce() == 0,
            c.pending_bytes() == leftover@,
            c.used_nonces() == Seq::<u64>::empty(),
            c.nonce_history_ok(),
    {
        let mut pending: VecDeque<u8> = VecDeque::new();
        let mut i: usize = 0;
        while i < leftover.len()
            invariant
                i <= leftover@.len(),
                pending@ == leftover@.take(i as int),
            decreases leftover@.len() - i,
        {
            pending.push_back(leftover[i]);
            i = i + 1;
            proof {
                assert(pending@ =~= leftover@.take(i as int));
            }
        }
        proof {
            assert(pending@ =~= leftover@);
        }
        NoiseChannel {
            cipher,
            send_nonce_ctr: 0,
            recv_nonce_ctr: 0,
            pending,
            used_nonces_log: Ghost(Seq::empty()),
        }
    }

    /// The nonce the next sent packet will carry.
    pub fn sending_nonce(&self) -> (n: u64)
        ensures
            n == self.send_nonce(),
    {
        self.send_nonce_ctr
    }

    /// The current receive-side nonce counter.
    pub fn receiving_nonce(&self) -> (n: u64)
        ensures
            n == self.recv_nonce(),
    {
        self.recv_nonce_ctr
    }

    /// How many decrypted bytes are waiting to be delivered.
    pub fn pending_len(&self) -> (n: usize)
        ensures
            n == self.pending_bytes().len(),
    {
        self.pending.len()
    }

    /// Encode one wire packet from the front of `plaintext`.
    ///
    /// At most `PLAINTEXT_PACKET_SIZE` bytes are consumed; a longer write is
    /// cut off there and the caller re-issues the remainder.  The packet
    /// asserts the current send nonce, which then advances by exactly one:
    /// across consecutive sends the nonces used are strictly increasing by
    /// one from the initial counter value, and none is ever reused.
    pub fn send_packet(&mut self, plaintext: &[u8]) -> (r: Result<(Vec<u8>, usize), NoiseError>)
        ensures
            r matches Ok((packet, consumed)) ==> {
                &&& consumed as int == consumed_len(plaintext@.len() as int)
                &&& packet@ == packet_of(
                    old(self).suite(),
                    old(self).send_key(),
                    old(self).send_nonce(),
                    plaintext@.take(consumed as int),
                )
                &&& packet@.len() == NOISE_NONCE_SIZE + NOISE_TAG_SIZE + consumed
                &&& final(self).send_nonce() == old(self).send_nonce() + 1
                &&& final(self).used_nonces() == old(self).used_nonces().push(
                    old(self).send_nonce(),
                )
            },
            r is Ok <==> old(self).send_nonce() < u64::MAX,
            old(self).nonce_history_ok() ==> final(self).nonce_history_ok(),
            r matches Err(e) ==> e is NonceExhausted && *final(self) == *old(self),
            final(self).recv_nonce() == old(self).recv_nonce(),
            final(self).pending_bytes() == old(self).pending_bytes(),
            final(self).send_key() == old(self).send_key(),
            final(self).recv_key() == old(self).recv_key(),
            final(self).suite() == old(self).suite(),
    {
        if self.send_nonce_ctr == u64::MAX {
            return Err(NoiseError::NonceExhausted);
        }
        let chunk: &[u8] = if plaintext.len() > PLAINTEXT_PACKET_SIZE {
            &plaintext[0..PLAINTEXT_PACKET_SIZE]
        } else {
            plaintext
        };
        proof {
            assert(chunk@ =~= plaintext@.take(chunk@.len() as int));
        }
        let cap: usize = chunk.len() + NOISE_TAG_SIZE;
        let mut ct = match self.cipher.seal(self.send_nonce_ctr, chunk, cap) {
            Ok(ct) => ct,
            Err(e) => {
                return Err(e);
            },
        };
        let mut packet: Vec<u8> = Vec::new();
        write_u64(&mut packet, self.send_nonce_ctr);
        packet.append(&mut ct);
        self.used_nonces_log = Ghost(self.used_nonces_log@.push(self.send_nonce_ctr));
        self.send_nonce_ctr = self.send_nonce_ctr + 1;
        proof {
            if old(self).nonce_history_ok() {
                assert forall|i: int| 0 <= i < self.used_nonces().len() implies #[trigger] self
                    .used_nonces()[i] as int == self.send_nonce() - self.used_nonces().len()
                    + i by {
                    if i < self.used_nonces().len() - 1 {
                        assert(self.used_nonces()[i] == old(self).used_nonces()[i]);
                    }
                }
            }
        }
        Ok((packet, chunk.len()))
    }

    /// Decode one received wire packet and append its payload to the pending
    /// queue.
    ///
    /// A packet shorter than the minimum viable size is a framing error and
    /// leaves the channel untouched.  Otherwise the asserted nonce is
    /// compared to the local counter: a higher asserted nonce advances the
    /// counter to match before decrypting (a peer may have consumed nonces
    /// on packets that never reached the wire), while a lower or equal one is
    /// ignored and the counter's own value is used, so a stale or duplicated
    /// packet can neither move the counter nor decrypt.  Authentication
    /// failure is a hard error, never silently dropped.
    pub fn recv_packet(&mut self, packet: &[u8]) -> (r: Result<(), NoiseError>)
        requires
            packet@.len() <= CIPHERTEXT_PACKET_SIZE,
        ensures
            packet@.len() < MIN_CIPHERTEXT_PACKET_SIZE <==> r matches Err(
                NoiseError::TruncatedPacket,
            ),
            r matches Err(NoiseError::TruncatedPacket) ==> *final(self) == *old(self),
            packet@.len() >= MIN_CIPHERTEXT_PACKET_SIZE ==> {
                let eff = effective_nonce(old(self).recv_nonce(), asserted_nonce(packet@));
                &&& (r matches Err(NoiseError::NonceExhausted) <==> eff == u64::MAX)
                &&& (r is Ok <==> eff < u64::MAX && (exists|pt: Seq<u8>|
                    packet@.skip(NOISE_NONCE_SIZE as int) == aead_seal(
                        old(self).suite(),
                        old(self).recv_key(),
                        eff,
                        pt,
                    )))
                &&& (r is Ok ==> final(self).recv_nonce() == eff + 1)
                &&& (r is Err ==> final(self).recv_nonce() == eff && final(self).pending_bytes()
                    == old(self).pending_bytes())
                &&& (forall|pt: Seq<u8>|
                    (r is Ok && packet@.skip(NOISE_NONCE_SIZE as int) == aead_seal(
                        old(self).suite(),
                        old(self).recv_key(),
                        eff,
                        pt,
                    )) ==> final(self).pending_bytes() == old(self).pending_bytes() + pt)
            },
            final(self).send_nonce() == old(self).send_nonce(),
            final(self).recv_nonce() >= old(self).recv_nonce(),
            final(self).send_key() == old(self).send_key(),
            final(self).recv_key() == old(self).recv_key(),
            final(self).suite() == old(self).suite(),
            final(self).used_nonces() == old(self).used_nonces(),
    {
        if packet.len() < MIN_CIPHERTEXT_PACKET_SIZE {
            return Err(NoiseError::TruncatedPacket);
        }
        let their_nonce = read_u64(&packet[0..NOISE_NONCE_SIZE]);
        proof {
            assert(packet@.subrange(0, NOISE_NONCE_SIZE as int) =~= packet@.take(
                NOISE_NONCE_SIZE as int,
            ));
        }
        let eff: u64 = if their_nonce > self.recv_nonce_ctr {
            their_nonce
        } else {
            self.recv_nonce_ctr
        };
        self.recv_nonce_ctr = eff;
        if eff == u64::MAX {
            return Err(NoiseError::NonceExhausted);
        }
        let msg = &packet[NOISE_NONCE_SIZE..packet.len()];
        proof {
            assert(msg@ =~= packet@.skip(NOISE_NONCE_SIZE as int));
        }
        let pt = match self.cipher.open(eff, msg, CIPHERTEXT_PACKET_SIZE) {
            Ok(pt) => pt,
            Err(e) => {
                return Err(e);
            },
        };
        self.recv_nonce_ctr = eff + 1;
        let ghost orig = self.pending@;
        let mut i: usize = 0;
        while i < pt.len()
            invariant
                i <= pt@.len(),
                self.pending@ == orig + pt@.take(i as int),
                self.cipher == old(self).cipher,
                self.send_nonce_ctr == old(self).send_nonce_ctr,
                self.recv_nonce_ctr == eff + 1,
                self.used_nonces_log == old(self).used_nonces_log,
            decreases pt@.len() - i,
        {
            self.pending.push_back(pt[i]);
            i = i + 1;
            proof {
                assert(self.pending@ =~= orig + pt@.take(i as int));
            }
        }
        proof {
            assert(self.pending@ =~= orig + pt@);
            assert(eff == effective_nonce(old(self).recv_nonce(), asserted_nonce(packet@)));
            assert(packet@.skip(NOISE_NONCE_SIZE as int) == aead_seal(
                old(self).suite(),
                old(self).recv_key(),
                eff,
                pt@,
            ));
        }
        Ok(())
    }

    /// Remove and return up to `max` bytes from the front of the pending
    /// queue, in arrival order.  Bytes are delivered exactly once and
    /// strictly first-in, first-out: the result is a prefix of the queue and
    /// the queue keeps the rest, so however a caller slices its reads, the
    /// concatenation of what it gets is the concatenation of what arrived.
    pub fn take_pending(&mut self, max: usize) -> (out: Vec<u8>)
        ensures
            out@.len() == if max as int <= old(self).pending_bytes().len() {
                max as int
            } else {
                old(self).pending_bytes().len() as int
            },
            out@ == old(self).pending_bytes().take(out@.len() as int),
            final(self).pending_bytes() == old(self).pending_bytes().skip(out@.len() as int),
            final(self).send_nonce() == old(self).send_nonce(),
            final(self).recv_nonce() == old(self).recv_nonce(),
            final(self).send_key() == old(self).send_key(),
            final(self).recv_key() == old(self).recv_key(),
            final(self).suite() == old(self).suite(),
            final(self).used_nonces() == old(self).used_nonces(),
    {
        let ghost orig = self.pending@;
        let mut out: Vec<u8> = Vec::new();
        let mut i: usize = 0;
        while i < max && self.pending.len() != 0
            invariant
                i <= max,
                i <= orig.len(),
                i == max || i == orig.len() - self.pending@.len(),
                out@ == orig.take(i as int),
                self.pending@ == orig.skip(i as int),
                self.cipher == old(self).cipher,
                self.send_nonce_ctr == old(self).send_nonce_ctr,
                self.recv_nonce_ctr == old(self).recv_nonce_ctr,
                self.used_nonces_log == old(self).used_nonces_log,
            decreases max - i,
        {
            let b = self.pending.pop_front().unwrap();
            out.push(b);
            i = i + 1;
            proof {
                assert(orig.skip(i as int - 1).subrange(1, orig.skip(i as int - 1).len() as int)
                    =~= orig.skip(i as int));
                assert(out@ =~= orig.take(i as int));
            }
        }
        out
    }
}

/// Monotonic nonce use: on a channel whose nonce discipline holds — as it
/// does from construction on — the nonces used for encryption are strictly
/// increasing by exactly one from one send to the next, starting at the
/// initial counter value, which is the current counter less the number of
/// packets sent.
pub proof fn lemma_nonces_strictly_increasing(c: &NoiseChannel)
    requires
        c.nonce_history_ok(),
    ensures
        forall|i: int, j: int|
            #![trigger c.used_nonces()[i], c.used_nonces()[j]]
            0 <= i < j < c.used_nonces().len() ==> c.used_nonces()[i] < c.used_nonces()[j],
        forall|i: int|
            0 <= i < c.used_nonces().len() - 1 ==> #[trigger] c.used_nonces()[i] + 1
                == c.used_nonces()[i + 1],
        c.used_nonces().len() > 0 ==> c.used_nonces()[0] as int == c.send_nonce()
            - c.used_nonces().len(),
{
}

/// Round trip of the wire framing: a packet encoded under a key and a nonce
/// asserts exactly that nonce, resynchronizes any receive counter at or below
/// it to exactly that nonce, and carries exactly the seal of its payload.
/// Together with the contract of `recv_packet` this says that
/// encode-then-decode under matching cipher state yields the original payload
/// bytes, whatever they are.
pub proof fn lemma_packet_round_trip(suite: int, key: Seq<u8>, nonce: u64, payload: Seq<u8>, local: u64)
    requires
        local <= nonce,
    ensures
        asserted_nonce(packet_of(suite, key, nonce, payload)) == nonce,
        effective_nonce(local, asserted_nonce(packet_of(suite, key, nonce, payload))) == nonce,
        packet_of(suite, key, nonce, payload).skip(NOISE_NONCE_SIZE as int) == aead_seal(
            suite,
            key,
            nonce,
            payload,
        ),
{
    lemma_u64_be_round_trip(nonce);
    assert(packet_of(suite, key, nonce, payload).take(NOISE_NONCE_SIZE as int) =~= u64_be_bytes(
        nonce,
    ));
    assert(packet_of(suite, key, nonce, payload).skip(NOISE_NONCE_SIZE as int) =~= aead_seal(
        suite,
        key,
        nonce,
        payload,
    ));
}

/// Nonce resynchronization: an asserted nonce ahead of the local counter is
/// adopted, one at or below it is ignored in favour of the counter's own
/// value, and the counter never moves backwards.
pub proof fn lemma_nonce_resync(local: u64, asserted: u64)
    ensures
        asserted > local ==> effective_nonce(local, asserted) == asserted,
        asserted <= local ==> effective_nonce(local, asserted) == local,
        effective_nonce(local, asserted) >= local,
{
}

/// Delivery order is independent of how reads slice the queue: draining `a`
/// bytes and then `b` bytes hands out the same bytes, in the same order, as
/// draining `a + b` bytes at once.
pub proof fn lemma_drain_order(s: Seq<u8>, a: int, b: int)
    requires
        0 <= a,
        0 <= b,
        a + b <= s.len(),
    ensures
        s.take(a) + s.skip(a).take(b) == s.take(a + b),
{
    assert(s.take(a) + s.skip(a).take(b) =~= s.take(a + b));
}

/// Loopback delivery, the round-trip law in executable form: encoding one
/// packet on a sender and decoding it on a receiver whose receive key matches
/// the send key, and whose receive counter has not run ahead of the sender's,
/// appends exactly the consumed prefix of the written bytes to the receiver's
/// pending queue and leaves the two counters aligned.
pub fn loopback_transfer(a: &mut NoiseChannel, b: &mut NoiseChannel, data: &[u8]) -> (r: Result<
    usize,
    NoiseError,
>)
    requires
        old(a).suite() == old(b).suite(),
        old(a).send_key() == old(b).recv_key(),
        old(b).recv_nonce() <= old(a).send_nonce(),
        old(a).send_nonce() < u64::MAX,
    ensures
        r is Ok,
        r matches Ok(n) ==> {
            &&& n as int == consumed_len(data@.len() as int)
            &&& final(b).pending_bytes() == old(b).pending_bytes() + data@.take(n as int)
            &&& final(a).send_nonce() == old(a).send_nonce() + 1
            &&& final(b).recv_nonce() == old(a).send_nonce() + 1
            &&& final(b).send_nonce() == old(b).send_nonce()
        },
        final(a).pending_bytes() == old(a).pending_bytes(),
        final(a).recv_nonce() == old(a).recv_nonce(),
        final(a).send_key() == old(a).send_key(),
        final(a).recv_key() == old(a).recv_key(),
        final(a).suite() == old(a).suite(),
        final(b).send_key() == old(b).send_key(),
        final(b).recv_key() == old(b).recv_key(),
        final(b).suite() == old(b).suite(),
{
    let (packet, consumed) = match a.send_packet(data) {
        Ok(p) => p,
        Err(e) => {
            return Err(e);
        },
    };
    proof {
        lemma_packet_round_trip(
            old(a).suite(),
            old(a).send_key(),
            old(a).send_nonce(),
            data@.take(consumed as int),
            old(b).recv_nonce(),
        );
    }
    match b.recv_packet(packet.as_slice()) {
        Ok(()) => Ok(consumed),
        Err(e) => Err(e),
    }
}

} // verus!
