use poly_tag::hash::{compute_file_hash, Crc32Sink, BUFFER_SIZE};

fn pattern(len: usize) -> Vec<u8> {
    (0..len).map(|i| (i * 31 % 251) as u8).collect()
}

#[test]
fn checksum_of_hello() {
    let mut sink = Crc32Sink::new();
    sink.update(b"hello");
    assert_eq!(sink.finalize(), 0x3610a686);
}

#[test]
fn checksum_of_nothing_is_zero() {
    assert_eq!(Crc32Sink::new().finalize(), 0);
    assert_eq!(compute_file_hash(b""), 0);
}

#[test]
fn checksum_of_check_string() {
    // The standard check value of CRC-32.
    assert_eq!(compute_file_hash(b"123456789"), 0xcbf43926);
}

#[test]
fn checksum_ignores_chunk_boundaries() {
    let data = pattern(10_000);
    let mut whole = Crc32Sink::new();
    whole.update(&data);
    let mut pieces = Crc32Sink::new();
    for chunk in data.chunks(100) {
        pieces.update(chunk);
    }
    assert_eq!(whole.finalize(), pieces.finalize());
}

#[test]
fn checksum_ignores_empty_chunks() {
    let mut sink = Crc32Sink::new();
    sink.update(b"");
    sink.update(b"hel");
    sink.update(b"");
    sink.update(b"lo");
    assert_eq!(sink.finalize(), 0x3610a686);
}

#[test]
fn checksum_depends_on_order() {
    let mut forward = Crc32Sink::new();
    forward.update(b"ab");
    let mut backward = Crc32Sink::new();
    backward.update(b"ba");
    assert_ne!(forward.finalize(), backward.finalize());
}

#[test]
fn compute_hash_agrees_with_one_shot_hash() {
    let data = pattern(70_000);
    assert_eq!(compute_file_hash(&data), crc32fast::hash(&data));
}

#[test]
fn compute_hash_crosses_buffer_boundary() {
    let data = pattern(BUFFER_SIZE + 17);
    assert_eq!(compute_file_hash(&data), crc32fast::hash(&data));
}

#[test]
fn sink_counts_what_it_is_fed() {
    let mut sink = Crc32Sink::new();
    assert_eq!(sink.total_len(), 0);
    sink.update(b"hel");
    assert!(sink.try_update(b"lo"));
    assert_eq!(sink.total_len(), 5);
    assert_eq!(sink.finalize(), 0x3610a686);
}
