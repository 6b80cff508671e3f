use noise_stream::channel::{loopback_transfer, NoiseChannel};
use noise_stream::errors::NoiseError;
use noise_stream::handshakes::NNpsk0;
use noise_stream::session::{HandshakeSession, HandshakeStatus};
use noise_stream::wire::{MIN_CIPHERTEXT_PACKET_SIZE, PLAINTEXT_PACKET_SIZE};

/// Run a complete handshake in memory, shuttling the messages between the two
/// sessions, and return the two established channels (initiator, responder).
fn handshake_pair(
    initiator_psk: &[u8],
    responder_psk: &[u8],
) -> Result<(NoiseChannel, NoiseChannel), NoiseError> {
    let mut ini = HandshakeSession::new_initiator(NNpsk0::new(initiator_psk))?;
    let mut res = HandshakeSession::new_responder(NNpsk0::new(responder_psk))?;
    let mut steps: u32 = 0;
    while ini.status() != HandshakeStatus::Done || res.status() != HandshakeStatus::Done {
        if ini.status() == HandshakeStatus::Send {
            let m = ini.next_message()?;
            res.message_received(&m)?;
        } else if res.status() == HandshakeStatus::Send {
            let m = res.next_message()?;
            ini.message_received(&m)?;
        } else {
            return Err(NoiseError::HandshakeProtocol);
        }
        steps += 1;
        assert!(steps <= 4, "handshake exchanged more than four messages");
    }
    Ok((ini.finish()?, res.finish()?))
}

fn matching_pair() -> (NoiseChannel, NoiseChannel) {
    let psk = [10u8; 32];
    handshake_pair(&psk, &psk).expect("noise handshake failed")
}

/// Deliver one packet from `from` to `to` and return how many bytes the
/// packet consumed from `data`.
fn deliver(from: &mut NoiseChannel, to: &mut NoiseChannel, data: &[u8]) -> usize {
    let (packet, consumed) = from.send_packet(data).expect("send_packet failed");
    to.recv_packet(&packet).expect("recv_packet failed");
    consumed
}

/// Send a whole byte string, re-issuing the unconsumed remainder, and collect
/// it on the other side.
fn send_all(from: &mut NoiseChannel, to: &mut NoiseChannel, data: &[u8]) {
    let mut sent: usize = 0;
    while sent < data.len() {
        sent += deliver(from, to, &data[sent..]);
    }
}

#[test]
fn send_and_recv_small() {
    let (mut client, mut server) = matching_pair();

    let n = deliver(&mut client, &mut server, b"OK");
    assert_eq!(n, 2);
    let ok_buf = server.take_pending(2);
    assert_eq!(ok_buf.len(), 2);
    assert_eq!(ok_buf, b"OK".to_vec());

    let n = deliver(&mut server, &mut client, &ok_buf);
    assert_eq!(n, 2);
    let ok_buf = client.take_pending(2);
    assert_eq!(ok_buf.len(), 2);
    assert_eq!(ok_buf, b"OK".to_vec());
}

#[test]
fn send_and_recv_large() {
    const BIG_SIZE: usize = 200_000;
    let (mut client, mut server) = matching_pair();

    let big_buf = vec![0xFFu8; BIG_SIZE];
    send_all(&mut client, &mut server, &big_buf);
    assert_eq!(server.pending_len(), BIG_SIZE);
    let got = server.take_pending(BIG_SIZE);
    assert_eq!(got.len(), BIG_SIZE);
    assert!(got.iter().all(|&b| b == 0xFF));

    send_all(&mut server, &mut client, &got);
    let echoed = client.take_pending(BIG_SIZE);
    assert_eq!(echoed.len(), BIG_SIZE);
    assert!(echoed.iter().all(|&b| b == 0xFF));
}

#[test]
fn round_trip_various_payloads() {
    let (mut a, mut b) = matching_pair();
    let cases: Vec<Vec<u8>> = vec![
        vec![],
        vec![0x00],
        b"hello world".to_vec(),
        (0..=255u8).collect(),
        vec![0x5A; PLAINTEXT_PACKET_SIZE],
    ];
    for case in cases {
        let n = deliver(&mut a, &mut b, &case);
        assert_eq!(n, case.len());
        assert_eq!(b.take_pending(usize::MAX), case);
    }
}

#[test]
fn loopback_transfer_delivers_prefix() {
    let (mut a, mut b) = matching_pair();
    let data = vec![7u8; 5000];
    let n = loopback_transfer(&mut a, &mut b, &data).expect("transfer failed");
    assert_eq!(n, PLAINTEXT_PACKET_SIZE);
    assert_eq!(b.pending_len(), PLAINTEXT_PACKET_SIZE);
    assert_eq!(b.take_pending(usize::MAX), vec![7u8; PLAINTEXT_PACKET_SIZE]);
}

#[test]
fn nonces_increase_by_one_per_send() {
    let (mut a, mut b) = matching_pair();
    assert_eq!(a.sending_nonce(), 0);
    for expected in 0u64..5 {
        assert_eq!(a.sending_nonce(), expected);
        let (packet, _) = a.send_packet(b"x").expect("send_packet failed");
        assert_eq!(a.sending_nonce(), expected + 1);
        // The packet asserts the nonce it was encrypted under, big-endian.
        assert_eq!(noise_stream::wire::read_u64(&packet[..8]), expected);
        b.recv_packet(&packet).expect("recv_packet failed");
        assert_eq!(b.receiving_nonce(), expected + 1);
    }
    assert_eq!(b.take_pending(usize::MAX), b"xxxxx".to_vec());
}

#[test]
fn nonce_resync_on_lost_packets() {
    let (mut a, mut b) = matching_pair();
    // Two packets are encoded but never delivered: the sender's counter keeps
    // moving while the receiver's stays behind.
    a.send_packet(b"lost one").expect("send_packet failed");
    a.send_packet(b"lost two").expect("send_packet failed");
    let (packet, _) = a.send_packet(b"delivered").expect("send_packet failed");
    assert_eq!(b.receiving_nonce(), 0);
    b.recv_packet(&packet).expect("resynchronizing decode failed");
    assert_eq!(b.receiving_nonce(), 3);
    assert_eq!(b.take_pending(usize::MAX), b"delivered".to_vec());
}

#[test]
fn stale_packet_does_not_move_counter_back() {
    let (mut a, mut b) = matching_pair();
    let (first, _) = a.send_packet(b"first").expect("send_packet failed");
    let (second, _) = a.send_packet(b"second").expect("send_packet failed");
    b.recv_packet(&first).expect("recv_packet failed");
    b.recv_packet(&second).expect("recv_packet failed");
    assert_eq!(b.receiving_nonce(), 2);
    // A replay of the first packet asserts nonce 0; the counter stays at 2,
    // the packet is decrypted under 2 instead, and authentication fails.
    let replay = b.recv_packet(&first);
    assert!(matches!(replay, Err(NoiseError::Snow(_))));
    assert_eq!(b.receiving_nonce(), 2);
    assert_eq!(b.take_pending(usize::MAX), b"firstsecond".to_vec());
}

#[test]
fn oversized_write_consumes_only_max_payload() {
    let (mut a, mut b) = matching_pair();
    let data = vec![0x42u8; PLAINTEXT_PACKET_SIZE + 1000];
    let (packet, consumed) = a.send_packet(&data).expect("send_packet failed");
    assert_eq!(consumed, PLAINTEXT_PACKET_SIZE);
    assert_eq!(packet.len(), 2048);
    b.recv_packet(&packet).expect("recv_packet failed");
    assert_eq!(b.pending_len(), PLAINTEXT_PACKET_SIZE);
    assert_eq!(b.take_pending(usize::MAX), vec![0x42u8; PLAINTEXT_PACKET_SIZE]);
}

#[test]
fn ordering_is_kept_across_arbitrary_read_sizes() {
    let (mut a, mut b) = matching_pair();
    let data: Vec<u8> = (0..40_000u32).map(|i| (i % 251) as u8).collect();
    send_all(&mut a, &mut b, &data);

    let mut got: Vec<u8> = Vec::new();
    let mut chunk: usize = 1;
    while b.pending_len() > 0 {
        got.extend(b.take_pending(chunk));
        chunk = chunk % 613 + 7;
    }
    assert_eq!(got, data);
}

#[test]
fn truncated_packet_is_a_framing_error() {
    let (mut a, mut b) = matching_pair();
    let (packet, _) = a.send_packet(b"payload").expect("send_packet failed");
    let short = &packet[..MIN_CIPHERTEXT_PACKET_SIZE - 1];
    assert!(matches!(b.recv_packet(short), Err(NoiseError::TruncatedPacket)));
    // The channel is untouched and still decodes the whole packet.
    assert_eq!(b.receiving_nonce(), 0);
    b.recv_packet(&packet).expect("recv_packet failed");
    assert_eq!(b.take_pending(usize::MAX), b"payload".to_vec());
}

#[test]
fn tampered_packet_fails_authentication() {
    let (mut a, mut b) = matching_pair();
    let (mut packet, _) = a.send_packet(b"genuine").expect("send_packet failed");
    let last: usize = packet.len() - 1;
    packet[last] ^= 0x01;
    assert!(matches!(b.recv_packet(&packet), Err(NoiseError::Snow(_))));
    assert_eq!(b.pending_len(), 0);
}

#[test]
fn nonce_exhaustion_is_refused() {
    let (_, mut b) = matching_pair();
    // A packet asserting the reserved maximum nonce may not be decrypted.
    let mut packet = vec![0xFFu8; 8];
    packet.extend(vec![0u8; 16]);
    assert!(matches!(b.recv_packet(&packet), Err(NoiseError::NonceExhausted)));
}

#[test]
fn mismatched_psks_fail_before_transport() {
    let result = handshake_pair(&[1u8; 32], &[2u8; 32]);
    match result {
        Ok(_) => panic!("handshake with mismatched pre-shared keys succeeded"),
        Err(NoiseError::Snow(_)) => {},
        Err(e) => panic!("unexpected error kind: {:?}", e),
    }
}

#[test]
fn wrong_length_psk_is_refused() {
    let result = HandshakeSession::new_initiator(NNpsk0::new(&[1u8; 5]));
    assert!(result.is_err());
}

#[test]
fn empty_payload_packet_is_minimum_size() {
    let (mut a, mut b) = matching_pair();
    let (packet, consumed) = a.send_packet(&[]).expect("send_packet failed");
    assert_eq!(consumed, 0);
    assert_eq!(packet.len(), MIN_CIPHERTEXT_PACKET_SIZE);
    b.recv_packet(&packet).expect("recv_packet failed");
    assert_eq!(b.pending_len(), 0);
    assert_eq!(b.receiving_nonce(), 1);
}

/// An `NNpsk0` variant whose responder piggybacks application bytes on its
/// final handshake message.
struct GreetingNNpsk0 {
    inner: NNpsk0,
    greeting: Vec<u8>,
}

impl noise_stream::handshakes::Handshake for GreetingNNpsk0 {
    fn build_initiator(&mut self) -> Result<snow::HandshakeState, NoiseError> {
        self.inner.build_initiator()
    }

    fn build_responder(&mut self) -> Result<snow::HandshakeState, NoiseError> {
        self.inner.build_responder()
    }

    fn initiator_first_message(
        &mut self,
        hs: &mut snow::HandshakeState,
    ) -> Result<Vec<u8>, NoiseError> {
        noise_stream::handshakes::hs_write_message(hs, &[], 2048)
    }

    fn responder_first_message(
        &mut self,
        hs: &mut snow::HandshakeState,
        _received: &[u8],
    ) -> Result<Vec<u8>, NoiseError> {
        noise_stream::handshakes::hs_write_message(hs, &self.greeting, 2048)
    }

    fn initiator_second_message(
        &mut self,
        hs: &mut snow::HandshakeState,
        _received: &[u8],
    ) -> Result<Vec<u8>, NoiseError> {
        noise_stream::handshakes::hs_write_message(hs, &[], 2048)
    }

    fn responder_second_message(
        &mut self,
        hs: &mut snow::HandshakeState,
        _received: &[u8],
    ) -> Result<Vec<u8>, NoiseError> {
        noise_stream::handshakes::hs_write_message(hs, &[], 2048)
    }
}

#[test]
fn leftover_handshake_payload_is_delivered_first() {
    let psk = [3u8; 32];
    let mut ini = HandshakeSession::new_initiator(GreetingNNpsk0 {
        inner: NNpsk0::new(&psk),
        greeting: Vec::new(),
    })
    .expect("initiator build failed");
    let mut res = HandshakeSession::new_responder(GreetingNNpsk0 {
        inner: NNpsk0::new(&psk),
        greeting: b"early bytes".to_vec(),
    })
    .expect("responder build failed");

    let m1 = ini.next_message().expect("first message failed");
    res.message_received(&m1).expect("responder rejected first message");
    let m2 = res.next_message().expect("second message failed");
    ini.message_received(&m2).expect("initiator rejected second message");
    assert_eq!(ini.status(), HandshakeStatus::Done);
    assert_eq!(res.status(), HandshakeStatus::Done);

    let mut client = ini.finish().expect("initiator finish failed");
    let mut server = res.finish().expect("responder finish failed");

    // The piggybacked bytes are already pending and come out before anything
    // read from the wire.
    assert_eq!(client.pending_len(), 11);
    let (packet, _) = server.send_packet(b" and later ones").expect("send_packet failed");
    client.recv_packet(&packet).expect("recv_packet failed");
    assert_eq!(
        client.take_pending(usize::MAX),
        b"early bytes and later ones".to_vec()
    );
    assert_eq!(server.pending_len(), 0);
}
