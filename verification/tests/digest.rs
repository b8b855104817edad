use milieu::digest::{baseline, content_hash, from_hex, hash_eq, to_hex};

#[test]
fn content_hash_is_blake3() {
    let hash = content_hash(b"A=1\n");
    assert_eq!(&hash, blake3::hash(b"A=1\n").as_bytes());
    assert_ne!(hash.to_vec(), b"A=1\n".to_vec());
    assert_eq!(
        to_hex(&content_hash(b"")),
        "af1349b9f5f9a1a6a0404dea36dcc9499bcb25c9adc112b7cc9a93cae41f3262"
    );
}

#[test]
fn hex_is_that_of_blake3() {
    let hash = blake3::hash(b"some content");
    let text = to_hex(hash.as_bytes());
    assert_eq!(text, hash.to_hex().to_string());
    assert_eq!(text.len(), 64);
    assert_eq!(from_hex(&text).unwrap(), *hash.as_bytes());
    assert_eq!(from_hex(&text.to_uppercase()).unwrap(), *hash.as_bytes());
    assert_eq!(to_hex(&[0u8; 32]), "0".repeat(64));
    assert_eq!(to_hex(&[0xabu8; 32]), "ab".repeat(32));
}

#[test]
fn what_is_no_hash_reads_as_none() {
    assert!(from_hex("").is_none());
    assert!(from_hex(&"a".repeat(63)).is_none());
    assert!(from_hex(&"a".repeat(65)).is_none());
    assert!(from_hex(&"g".repeat(64)).is_none());
    assert!(from_hex(&format!("{}é", "a".repeat(62))).is_none());
    assert!(blake3::Hash::from_hex(format!("{}é", "a".repeat(62))).is_err());
    assert!(baseline(&None).is_none());
    assert!(baseline(&Some("junk".to_string())).is_none());
    assert_eq!(baseline(&Some("01".repeat(32))), Some([1u8; 32]));
}

#[test]
fn hashes_compare_by_their_bytes() {
    let a = content_hash(b"a");
    let b = content_hash(b"b");
    assert!(hash_eq(&a, &a));
    assert!(!hash_eq(&a, &b));
    let mut c = a;
    c[31] ^= 1;
    assert!(!hash_eq(&a, &c));
}
