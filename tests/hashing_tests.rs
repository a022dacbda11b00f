use datalint_core::hashing::{content_hash, hex_of_bytes, hex_u64, sha256_hex};
use datalint_core::queries::ImageQueries;

#[test]
fn hex_of_u64_is_sixteen_digits() {
    assert_eq!(hex_u64(0), "0000000000000000");
    assert_eq!(hex_u64(0xdead_beef), "00000000deadbeef");
    assert_eq!(hex_u64(u64::MAX), "ffffffffffffffff");
    assert_eq!(hex_u64(0x0123_4567_89ab_cdef), "0123456789abcdef");
}

#[test]
fn hex_of_bytes_two_digits_each() {
    assert_eq!(hex_of_bytes(&vec![]), "");
    assert_eq!(hex_of_bytes(&vec![0x00, 0x0f, 0xa0, 0xff]), "000fa0ff");
}

#[test]
fn xxh3_content_hash() {
    assert_eq!(content_hash(&Vec::new()), "2d06800538d394c2");
    assert_eq!(content_hash(&b"abc".to_vec()), content_hash(&b"abc".to_vec()));
    assert_ne!(content_hash(&b"abc".to_vec()), content_hash(&b"abd".to_vec()));
}

#[test]
fn sha256_file_hash() {
    assert_eq!(
        ImageQueries::compute_file_hash(&Vec::new()),
        "e3b0c44298fc1c149afbf4c8996fb92427ae41e4649b934ca495991b7852b855"
    );
    assert_eq!(
        sha256_hex(&b"abc".to_vec()),
        "ba7816bf8f01cfea414140de5dae2223b00361a396177a9cb410ff61f20015ad"
    );
}

#[test]
fn corrupted_column() {
    assert!(!ImageQueries::corrupted_from_column(0));
    assert!(ImageQueries::corrupted_from_column(1));
    assert!(ImageQueries::corrupted_from_column(-3));
}
