//! The wire format of the transport phase.
//!
//! A wire packet is `nonce || ciphertext`, where the nonce is 8 big-endian
//! bytes and the ciphertext is the AEAD encryption of the payload, which
//! appends a 16-byte authentication tag.  The total packet size is at most
//! `CIPHERTEXT_PACKET_SIZE`; a packet shorter than
//! `MIN_CIPHERTEXT_PACKET_SIZE` (an empty payload still carries nonce and
//! tag) is a framing error.

use vstd::prelude::*;

verus! {

/// Size of the AEAD authentication tag appended to every ciphertext.
pub const NOISE_TAG_SIZE: usize = 16;

/// Size of the big-endian nonce field that opens every packet.
pub const NOISE_NONCE_SIZE: usize = 8;

/// Fixed upper bound on the size of one wire packet.
pub const CIPHERTEXT_PACKET_SIZE: usize = 2048;

/// Largest payload that fits in one packet.
pub const PLAINTEXT_PACKET_SIZE: usize = CIPHERTEXT_PACKET_SIZE - NOISE_TAG_SIZE - NOISE_NONCE_SIZE;

/// Smallest well-formed packet: the nonce field plus the tag of an empty payload.
pub const MIN_CIPHERTEXT_PACKET_SIZE: usize = NOISE_NONCE_SIZE + NOISE_TAG_SIZE;

/// The 8 big-endian bytes of `n`, most significant first.
pub open spec fn u64_be_bytes(n: u64) -> Seq<u8> {
    seq![
        (n >> 56) as u8,
        (n >> 48) as u8,
        (n >> 40) as u8,
        (n >> 32) as u8,
        (n >> 24) as u8,
        (n >> 16) as u8,
        (n >> 8) as u8,
        n as u8,
    ]
}

/// The value whose big-endian bytes are `s`.
pub open spec fn u64_from_be_bytes(s: Seq<u8>) -> u64
    recommends
        s.len() == 8,
{
    (((s[0] as u64) << 56) | ((s[1] as u64) << 48) | ((s[2] as u64) << 40) | ((s[3] as u64) << 32)
        | ((s[4] as u64) << 24) | ((s[5] as u64) << 16) | ((s[6] as u64) << 8) | (s[7] as u64))
}

/// The nonce a packet asserts: its first 8 bytes, read big-endian.
pub open spec fn asserted_nonce(packet: Seq<u8>) -> u64
    recommends
        packet.len() >= 8,
{
    u64_from_be_bytes(packet.take(8))
}

/// The nonce a packet is decrypted under: the asserted nonce where it is
/// ahead of the local counter, the local counter otherwise.  A stale or
/// duplicated packet can never move the counter.
pub open spec fn effective_nonce(local: u64, asserted: u64) -> u64 {
    if asserted > local {
        asserted
    } else {
        local
    }
}

/// Append the 8 big-endian bytes of `n` to `buf`.
pub fn write_u64(buf: &mut Vec<u8>, n: u64)
    ensures
        final(buf)@ == old(buf)@ + u64_be_bytes(n),
{
    buf.push((n >> 56) as u8);
    buf.push((n >> 48) as u8);
    buf.push((n >> 40) as u8);
    buf.push((n >> 32) as u8);
    buf.push((n >> 24) as u8);
    buf.push((n >> 16) as u8);
    buf.push((n >> 8) as u8);
    buf.push(n as u8);
    proof {
        assert(final(buf)@ =~= old(buf)@ + u64_be_bytes(n));
    }
}

/// Read a u64 from 8 big-endian bytes.
pub fn read_u64(buf: &[u8]) -> (n: u64)
    requires
        buf@.len() == 8,
    ensures
        n == u64_from_be_bytes(buf@),
{
    ((buf[0] as u64) << 56) | ((buf[1] as u64) << 48) | ((buf[2] as u64) << 40) | ((buf[3]
        as u64) << 32) | ((buf[4] as u64) << 24) | ((buf[5] as u64) << 16) | ((buf[6]
        as u64) << 8) | (buf[7] as u64)
}

/// Writing a nonce and reading it back yields the same value: the nonce field
/// of an encoded packet asserts exactly the nonce the encoder used.
pub proof fn lemma_u64_be_round_trip(n: u64)
    ensures
        u64_be_bytes(n).len() == 8,
        u64_from_be_bytes(u64_be_bytes(n)) == n,
{
    assert(((((n >> 56) as u8) as u64) << 56) | ((((n >> 48) as u8) as u64) << 48) | ((((n
        >> 40) as u8) as u64) << 40) | ((((n >> 32) as u8) as u64) << 32) | ((((n >> 24) as u8)
        as u64) << 24) | ((((n >> 16) as u8) as u64) << 16) | ((((n >> 8) as u8) as u64) << 8) | ((
    n as u8) as u64) == n) by (bit_vector);
}

} // verus!
