use noise_stream::wire::{
    read_u64, write_u64, CIPHERTEXT_PACKET_SIZE, MIN_CIPHERTEXT_PACKET_SIZE, NOISE_NONCE_SIZE,
    NOISE_TAG_SIZE, PLAINTEXT_PACKET_SIZE,
};

#[test]
fn packet_size_constants() {
    assert_eq!(CIPHERTEXT_PACKET_SIZE, 2048);
    assert_eq!(PLAINTEXT_PACKET_SIZE, 2024);
    assert_eq!(MIN_CIPHERTEXT_PACKET_SIZE, 24);
    assert_eq!(NOISE_NONCE_SIZE, 8);
    assert_eq!(NOISE_TAG_SIZE, 16);
}

#[test]
fn write_u64_big_endian() {
    let mut buf: Vec<u8> = Vec::new();
    write_u64(&mut buf, 0x0102030405060708);
    assert_eq!(buf, vec![1, 2, 3, 4, 5, 6, 7, 8]);

    let mut buf2: Vec<u8> = Vec::new();
    write_u64(&mut buf2, 0xFF00000000000001);
    assert_eq!(buf2, vec![0xFF, 0, 0, 0, 0, 0, 0, 1]);
}

#[test]
fn write_u64_appends() {
    let mut buf: Vec<u8> = vec![0xAB];
    write_u64(&mut buf, 2);
    assert_eq!(buf, vec![0xAB, 0, 0, 0, 0, 0, 0, 0, 2]);
}

#[test]
fn read_u64_big_endian() {
    assert_eq!(read_u64(&[1, 2, 3, 4, 5, 6, 7, 8]), 0x0102030405060708);
    assert_eq!(read_u64(&[0, 0, 0, 0, 0, 0, 0, 0]), 0);
    assert_eq!(read_u64(&[0xFF; 8]), u64::MAX);
}

#[test]
fn u64_round_trip() {
    for n in [0u64, 1, 255, 256, 0xDEADBEEF, u64::MAX - 1, u64::MAX] {
        let mut buf: Vec<u8> = Vec::new();
        write_u64(&mut buf, n);
        assert_eq!(read_u64(&buf), n);
    }
}
