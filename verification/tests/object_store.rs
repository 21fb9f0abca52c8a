use poly_tag::file_driver::{
    CommitStagingIntoFileError, ComputeFileHashError, ReadFileInfoError, WriteFileError,
};
use poly_tag::store::ObjectStore;
use std::io::ErrorKind;

type Stream = Vec<Result<Vec<u8>, String>>;

fn one(bytes: &[u8]) -> Stream {
    vec![Ok(bytes.to_vec())]
}

fn pattern(len: usize, seed: u8) -> Vec<u8> {
    (0..len).map(|i| (i as u8).wrapping_mul(7).wrapping_add(seed)).collect()
}

#[test]
fn fresh_store_is_empty() {
    let store = ObjectStore::new();
    assert_eq!(store.size_of(1), None);
    assert!(store.staged_object(1).is_none());
    assert!(store.committed_object(1).is_none());
}

#[test]
fn write_creates_the_object() {
    let mut store = ObjectStore::new();
    assert_eq!(store.write(1, None, one(b"hello")).unwrap(), 5);
    assert_eq!(store.size_of(1), Some(5));
    assert_eq!(store.staged_object(1).unwrap().as_slice(), b"hello");
}

#[test]
fn write_with_explicit_zero_offset() {
    let mut store = ObjectStore::new();
    assert_eq!(store.write(1, Some(0), one(b"abc")).unwrap(), 3);
    assert_eq!(store.staged_object(1).unwrap().as_slice(), b"abc");
}

#[test]
fn empty_stream_creates_an_empty_object() {
    let mut store = ObjectStore::new();
    assert_eq!(store.write(1, None, Stream::new()).unwrap(), 0);
    assert_eq!(store.size_of(1), Some(0));
}

#[test]
fn chunks_are_appended_in_order() {
    let mut store = ObjectStore::new();
    let stream: Stream = vec![Ok(b"he".to_vec()), Ok(Vec::new()), Ok(b"llo".to_vec())];
    assert_eq!(store.write(1, None, stream).unwrap(), 5);
    assert_eq!(store.staged_object(1).unwrap().as_slice(), b"hello");
}

#[test]
fn rewrite_from_start_is_idempotent() {
    let data = pattern(300, 3);
    let mut once = ObjectStore::new();
    once.write(9, None, one(&data)).unwrap();
    let mut twice = ObjectStore::new();
    twice.write(9, None, one(&data)).unwrap();
    assert_eq!(twice.write(9, Some(0), one(&data)).unwrap(), 300);
    assert_eq!(once.staged_object(9), twice.staged_object(9));
}

#[test]
fn rewrite_from_start_with_shorter_data_drops_the_tail() {
    let mut store = ObjectStore::new();
    store.write(9, None, one(b"a long first version")).unwrap();
    assert_eq!(store.write(9, None, one(b"short")).unwrap(), 5);
    assert_eq!(store.staged_object(9).unwrap().as_slice(), b"short");
}

#[test]
fn offset_past_end_is_invalid() {
    let mut store = ObjectStore::new();
    store.write(1, None, one(b"12345")).unwrap();
    match store.write(1, Some(6), one(b"x")) {
        Err(WriteFileError::InvalidOffset { offset, file_size }) => {
            assert_eq!((offset, file_size), (6, 5));
        }
        other => panic!("unexpected: {:?}", other),
    }
    assert_eq!(store.staged_object(1).unwrap().as_slice(), b"12345");
}

#[test]
fn offset_into_missing_object_is_invalid() {
    let mut store = ObjectStore::new();
    for offset in [1u64, 2, 100, u64::MAX] {
        match store.write(77, Some(offset), one(b"x")) {
            Err(WriteFileError::InvalidOffset { offset: got, file_size }) => {
                assert_eq!((got, file_size), (offset, 0));
            }
            other => panic!("unexpected: {:?}", other),
        }
    }
    // The object was created all the same, and holds nothing.
    assert_eq!(store.size_of(77), Some(0));
}

#[test]
fn offset_at_end_appends() {
    let mut store = ObjectStore::new();
    store.write(1, None, one(b"hello")).unwrap();
    assert_eq!(store.write(1, Some(5), one(b" world")).unwrap(), 11);
    assert_eq!(store.staged_object(1).unwrap().as_slice(), b"hello world");
}

#[test]
fn resume_truncates_tail() {
    let first = pattern(100, 1);
    let second = pattern(60, 200);
    let mut store = ObjectStore::new();
    store.write(1, None, one(&first)).unwrap();
    assert_eq!(store.write(1, Some(40), one(&second)).unwrap(), 100);
    let after = store.staged_object(1).unwrap();
    assert_eq!(after.len(), 100);
    assert_eq!(&after[..40], &first[..40]);
    assert_eq!(&after[40..], &second[..]);
}

#[test]
fn resume_with_less_data_shortens_the_object() {
    let mut store = ObjectStore::new();
    store.write(1, None, one(&pattern(100, 1))).unwrap();
    assert_eq!(store.write(1, Some(40), one(&pattern(10, 9))).unwrap(), 50);
    assert_eq!(store.size_of(1), Some(50));
}

#[test]
fn stream_failure_leaves_what_was_delivered() {
    let mut store = ObjectStore::new();
    store.write(1, None, one(b"0123456789")).unwrap();
    let stream: Stream = vec![
        Ok(b"ab".to_vec()),
        Err("connection reset".to_string()),
        Ok(b"never".to_vec()),
    ];
    match store.write(1, Some(4), stream) {
        Err(WriteFileError::ReadFromStream(cause)) => assert_eq!(cause, "connection reset"),
        other => panic!("unexpected: {:?}", other),
    }
    assert_eq!(store.staged_object(1).unwrap().as_slice(), b"0123ab");
}

#[test]
fn first_stream_failure_is_the_one_reported() {
    let mut store = ObjectStore::new();
    let stream: Stream = vec![Err("first".to_string()), Err("second".to_string())];
    match store.write(1, None, stream) {
        Err(WriteFileError::ReadFromStream(cause)) => assert_eq!(cause, "first"),
        other => panic!("unexpected: {:?}", other),
    }
    assert_eq!(store.size_of(1), Some(0));
}

#[test]
fn invalid_offset_is_found_before_the_stream_is_read() {
    let mut store = ObjectStore::new();
    let stream: Stream = vec![Err("never read".to_string())];
    assert!(matches!(
        store.write(1, Some(3), stream),
        Err(WriteFileError::InvalidOffset { offset: 3, file_size: 0 })
    ));
}

#[test]
fn writes_to_different_objects_do_not_mix() {
    let mut store = ObjectStore::new();
    store.write(1, None, one(b"one")).unwrap();
    store.write(2, None, one(b"two two")).unwrap();
    assert_eq!(store.staged_object(1).unwrap().as_slice(), b"one");
    assert_eq!(store.staged_object(2).unwrap().as_slice(), b"two two");
}

#[test]
fn staged_metadata_of_hello() {
    let mut store = ObjectStore::new();
    store.write(1, None, one(b"hello")).unwrap();
    let info = store.read_staging_info(1).unwrap();
    assert_eq!(info.hash, 0x3610a686);
    assert_eq!(info.mime, "application/octet-stream");
}

#[test]
fn staged_metadata_of_missing_object() {
    let store = ObjectStore::new();
    match store.read_staging_info(1) {
        Err(ReadFileInfoError::ComputeFileHashError(ComputeFileHashError::OpenFileError(
            cause,
        ))) => assert_eq!(cause.kind(), ErrorKind::NotFound),
        other => panic!("unexpected: {:?}", other),
    }
}

#[test]
fn promote_moves_the_object() {
    let mut store = ObjectStore::new();
    store.write(10, None, one(b"hello")).unwrap();
    store.promote(10, 20).unwrap();
    assert_eq!(store.size_of(10), None);
    assert!(store.staged_object(10).is_none());
    assert_eq!(store.committed_object(20).unwrap().as_slice(), b"hello");
    assert!(store.committed_object(10).is_none());
}

#[test]
fn promote_of_missing_object_fails() {
    let mut store = ObjectStore::new();
    store.write(10, None, one(b"kept")).unwrap();
    match store.promote(11, 20) {
        Err(CommitStagingIntoFileError::PromoteFailed(cause)) => {
            assert_eq!(cause.kind(), ErrorKind::NotFound)
        }
        other => panic!("unexpected: {:?}", other),
    }
    assert_eq!(store.staged_object(10).unwrap().as_slice(), b"kept");
    assert!(store.committed_object(20).is_none());
}

#[test]
fn end_to_end_scenario() {
    let staging: u128 = 0x550e8400_e29b_41d4_a716_446655440000;
    let file: u128 = 0xef14ca60_eace_40f0_9cd5_5ee8798ba954;
    let mut store = ObjectStore::new();
    assert_eq!(store.write(staging, Some(0), one(b"hello")).unwrap(), 5);
    let info = store.read_staging_info(staging).unwrap();
    assert_eq!(info.hash, 0x3610a686);
    // The signature check knows no plain text, and a canonical name has no extension.
    assert_eq!(info.mime, "application/octet-stream");
    store.promote(staging, file).unwrap();
    assert_eq!(store.size_of(staging), None);
    assert_eq!(store.committed_object(file).unwrap().len(), 5);
    let committed = store.read_file_info(file).unwrap();
    assert_eq!(committed.hash, 0x3610a686);
    assert!(store.read_staging_info(staging).is_err());
}

#[test]
fn committed_metadata_reads_the_signature() {
    let mut store = ObjectStore::new();
    store.write(1, None, one(&[0xFF, 0xD8, 0xFF, 0xAA])).unwrap();
    store.promote(1, 2).unwrap();
    assert_eq!(store.read_file_info(2).unwrap().mime, "image/jpeg");
    assert!(store.read_file_info(1).is_err());
}
