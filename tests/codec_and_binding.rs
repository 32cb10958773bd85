use fhe_mobile::binding::{build_zk_metadata, compute_ct_hash, serialize_proof};
use fhe_mobile::codec::{decode_prefixed_hex, encode_prefixed_hex, keccak256_digest, strip_hex_prefix};
use fhe_mobile::error::FHEError;
use fhe_mobile::types::FheUintType;
use sha3::Digest;

fn account_hex(byte: &str) -> String {
    format!("0x{}", byte.repeat(20))
}

#[test]
fn strip_prefix_removes_one_leading_0x() {
    assert_eq!(strip_hex_prefix("0xabcd"), "abcd");
    assert_eq!(strip_hex_prefix("0x0xab"), "0xab");
    assert_eq!(strip_hex_prefix("abcd"), "abcd");
    assert_eq!(strip_hex_prefix("0"), "0");
    assert_eq!(strip_hex_prefix(""), "");
}

#[test]
fn decode_accepts_both_cases_and_prefix() {
    assert_eq!(decode_prefixed_hex("0xDEad01").unwrap(), vec![0xde, 0xad, 0x01]);
    assert_eq!(decode_prefixed_hex("ff").unwrap(), vec![0xff]);
    assert_eq!(decode_prefixed_hex("").unwrap(), Vec::<u8>::new());
}

#[test]
fn decode_rejects_odd_length_and_non_hex() {
    assert!(decode_prefixed_hex("0xabc").is_err());
    assert!(decode_prefixed_hex("zz").is_err());
    assert!(decode_prefixed_hex("0xé1").is_err());
    assert!(decode_prefixed_hex("0x0xab").is_err());
}

#[test]
fn encode_writes_lowercase_with_prefix() {
    assert_eq!(encode_prefixed_hex(&[0xde, 0xad, 0xbe, 0xef]), "0xdeadbeef");
    assert_eq!(encode_prefixed_hex(&[]), "0x");
    assert_eq!(serialize_proof(&[0x00, 0x0a, 0xff]), "0x000aff");
}

#[test]
fn keccak_digest_matches_known_value() {
    let empty = keccak256_digest(&[]);
    assert_eq!(
        hex::encode(empty),
        "c5d2460186f7233c927e7db2dcc703c0e500b653ca82273b7bfad8045d85a470"
    );
}

#[test]
fn metadata_has_fixed_layout() {
    let m = build_zk_metadata(&account_hex("11"), 0x01020304, 0x0102030405060708).unwrap();
    let mut expected = vec![0x11u8; 20];
    expected.extend_from_slice(&[1, 2, 3, 4]);
    expected.extend_from_slice(&[1, 2, 3, 4, 5, 6, 7, 8]);
    assert_eq!(m, expected);
    assert_eq!(m.len(), 32);
}

#[test]
fn metadata_without_prefix_is_accepted() {
    let m = build_zk_metadata(&"ab".repeat(20), 0, 1).unwrap();
    assert_eq!(&m[..20], &[0xab; 20]);
    assert_eq!(&m[20..], &[0, 0, 0, 0, 0, 0, 0, 0, 0, 0, 0, 1]);
}

#[test]
fn metadata_is_deterministic() {
    let a = build_zk_metadata(&account_hex("7f"), 9, 42).unwrap();
    let b = build_zk_metadata(&account_hex("7f"), 9, 42).unwrap();
    assert_eq!(a, b);
}

#[test]
fn metadata_rejects_wrong_account_lengths() {
    for acct in [format!("0x{}", "11".repeat(19)), format!("0x{}", "11".repeat(21)), String::new()] {
        let r = build_zk_metadata(&acct, 0, 1);
        assert!(matches!(r, Err(FHEError::InvalidInput { .. })));
    }
}

#[test]
fn metadata_rejects_malformed_hex() {
    let r = build_zk_metadata(&format!("0x{}", "g1".repeat(20)), 0, 1);
    assert!(matches!(r, Err(FHEError::InvalidInput { .. })));
}

#[test]
fn ct_hash_is_keccak_of_data_and_index() {
    let data = [1u8, 2, 3];
    let h = compute_ct_hash(&data, 1);
    let mut hasher = sha3::Keccak256::new();
    hasher.update(data);
    hasher.update(1u64.to_be_bytes());
    let expected = format!("0x{}", hex::encode(hasher.finalize()));
    assert_eq!(h, expected);
    assert_eq!(h.len(), 66);
}

#[test]
fn ct_hash_differs_by_index() {
    let data = [9u8; 16];
    assert_ne!(compute_ct_hash(&data, 0), compute_ct_hash(&data, 1));
    assert_eq!(compute_ct_hash(&data, 0), compute_ct_hash(&data, 0));
}

#[test]
fn uint_type_tags() {
    assert_eq!(FheUintType::Uint8.as_u8(), 2);
    assert_eq!(FheUintType::Uint16.as_u8(), 3);
    assert_eq!(FheUintType::Uint32.as_u8(), 4);
    assert_eq!(FheUintType::Uint64.as_u8(), 5);
    assert_eq!(FheUintType::Uint128.as_u8(), 6);
}

#[test]
fn error_descriptions() {
    assert_eq!(FHEError::NotInitialized.describe(), "Not initialized");
    let e = FHEError::InvalidInput { message: "bad".to_string() };
    assert_eq!(e.describe(), "Invalid input: bad");
    let e = FHEError::CrsDeserializationFailed { message: "short".to_string() };
    assert_eq!(e.describe(), "Failed to deserialize CRS: short");
}
