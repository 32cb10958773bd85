use std::cell::Cell;

use fhe_mobile::backend::{ByteSeq, ProofBackend, U64Seq};
use fhe_mobile::encryption::{
    ct_hashes_for_batch, encrypt_swap, encrypt_transaction, encrypt_value, swap_payload_from,
    EncryptionContext,
};
use fhe_mobile::binding::compute_ct_hash;
use fhe_mobile::error::FHEError;
use fhe_mobile::keys::{clear_cache, is_initialized, load_keys_from_hex, KeyCache};

/// Keys and reference strings are non-empty byte strings; a "proof" is the
/// metadata followed by each value's bytes.
struct Mock {
    prove_calls: Cell<usize>,
    fail_prove: bool,
    fail_serialize: bool,
}

fn mock() -> Mock {
    Mock { prove_calls: Cell::new(0), fail_prove: false, fail_serialize: false }
}

// The spec functions only take part in verification; a test double claims nothing.
impl ProofBackend<Vec<u8>, Vec<u8>, Vec<u8>> for Mock {
    fn decodes_public_key(&self, _bytes: ByteSeq, _key: Vec<u8>) -> bool {
        true
    }

    fn decodes_crs(&self, _bytes: ByteSeq, _crs: Vec<u8>) -> bool {
        true
    }

    fn proves_u64(&self, _list: Vec<u8>, _pk: Vec<u8>, _crs: Vec<u8>, _values: U64Seq, _metadata: ByteSeq) -> bool {
        true
    }

    fn proves_u128(&self, _list: Vec<u8>, _pk: Vec<u8>, _crs: Vec<u8>, _value: u128, _metadata: ByteSeq) -> bool {
        true
    }

    fn encodes(&self, _list: Vec<u8>, _bytes: ByteSeq) -> bool {
        true
    }

    fn decode_public_key(&self, bytes: &[u8]) -> Result<Vec<u8>, String> {
        if bytes.first() == Some(&0x01) { Ok(bytes.to_vec()) } else { Err("not a key".to_string()) }
    }

    fn decode_crs(&self, bytes: &[u8]) -> Result<Vec<u8>, String> {
        if bytes.first() == Some(&0x02) { Ok(bytes.to_vec()) } else { Err("not a crs".to_string()) }
    }

    fn prove_packed_u64(&self, pk: &Vec<u8>, crs: &Vec<u8>, values: &[u64], metadata: &[u8]) -> Result<Vec<u8>, String> {
        self.prove_calls.set(self.prove_calls.get() + 1);
        if self.fail_prove {
            return Err("prover failed".to_string());
        }
        let mut out = pk.clone();
        out.extend_from_slice(crs);
        out.extend_from_slice(metadata);
        for v in values {
            out.extend_from_slice(&v.to_be_bytes());
        }
        Ok(out)
    }

    fn prove_packed_u128(&self, pk: &Vec<u8>, crs: &Vec<u8>, value: u128, metadata: &[u8]) -> Result<Vec<u8>, String> {
        self.prove_calls.set(self.prove_calls.get() + 1);
        let mut out = pk.clone();
        out.extend_from_slice(crs);
        out.extend_from_slice(metadata);
        out.extend_from_slice(&value.to_be_bytes());
        Ok(out)
    }

    fn serialize_list(&self, list: &Vec<u8>) -> Result<Vec<u8>, String> {
        if self.fail_serialize { Err("cannot encode".to_string()) } else { Ok(list.clone()) }
    }
}

fn zero_account() -> String {
    format!("0x{}", "00".repeat(20))
}

fn loaded(chain_id: u64) -> KeyCache<Vec<u8>, Vec<u8>> {
    let mut cache = KeyCache::new();
    load_keys_from_hex(&mock(), &mut cache, chain_id, "0x01aa".to_string(), "02bb".to_string()).unwrap();
    cache
}

fn is_ct_hash(s: &str) -> bool {
    s.len() == 66 && s.starts_with("0x") && s[2..].chars().all(|c| c.is_ascii_hexdigit() && !c.is_ascii_uppercase())
}

#[test]
fn fresh_cache_is_not_initialized() {
    let cache: KeyCache<Vec<u8>, Vec<u8>> = KeyCache::new();
    assert!(!is_initialized(&cache, 1));
    assert!(!is_initialized(&cache, 999));
}

#[test]
fn unloaded_chain_fails_without_proving() {
    let backend = mock();
    let cache = loaded(1);
    let r = encrypt_value(&backend, &cache, 999, zero_account(), 500, 0);
    assert!(matches!(r, Err(FHEError::NotInitialized)));
    let r = encrypt_swap(&backend, &cache, 999, zero_account(), 1, 2, "ETH".into(), "app".into(), 0);
    assert!(matches!(r, Err(FHEError::NotInitialized)));
    let r = encrypt_transaction(&backend, &cache, 999, zero_account(), 1, 2, "t".into(), "p".into(), "app".into(), 0);
    assert!(matches!(r, Err(FHEError::NotInitialized)));
    assert_eq!(backend.prove_calls.get(), 0);
}

#[test]
fn load_initializes_only_its_chain() {
    let backend = mock();
    let cache = loaded(1);
    assert!(is_initialized(&cache, 1));
    assert!(!is_initialized(&cache, 2));
    assert!(encrypt_value(&backend, &cache, 1, zero_account(), 7, 0).is_ok());
    assert!(matches!(encrypt_value(&backend, &cache, 2, zero_account(), 7, 0), Err(FHEError::NotInitialized)));
}

#[test]
fn load_rejects_bad_hex_and_bad_artifacts() {
    let backend = mock();
    let mut cache = KeyCache::new();
    let r = load_keys_from_hex(&backend, &mut cache, 1, "0x0".to_string(), "02".to_string());
    assert!(matches!(r, Err(FHEError::InvalidInput { .. })));
    let r = load_keys_from_hex(&backend, &mut cache, 1, "0x03".to_string(), "02".to_string());
    assert!(matches!(r, Err(FHEError::KeyDeserializationFailed { .. })));
    let r = load_keys_from_hex(&backend, &mut cache, 1, "0x03".to_string(), "xyz".to_string());
    assert!(matches!(r, Err(FHEError::KeyDeserializationFailed { .. })));
    let r = load_keys_from_hex(&backend, &mut cache, 1, "0x01".to_string(), "xyz".to_string());
    assert!(matches!(r, Err(FHEError::InvalidInput { .. })));
    let r = load_keys_from_hex(&backend, &mut cache, 1, "0x01".to_string(), "0x05".to_string());
    assert!(matches!(r, Err(FHEError::CrsDeserializationFailed { .. })));
    assert!(!is_initialized(&cache, 1));
}

#[test]
fn clear_drops_every_chain() {
    let mut cache = loaded(1);
    load_keys_from_hex(&mock(), &mut cache, 5, "01".to_string(), "02".to_string()).unwrap();
    clear_cache(&mut cache);
    assert!(!is_initialized(&cache, 1));
    assert!(!is_initialized(&cache, 5));
    assert!(matches!(encrypt_value(&mock(), &cache, 1, zero_account(), 1, 0), Err(FHEError::NotInitialized)));
}

#[test]
fn encrypt_value_single_batch() {
    let backend = mock();
    let cache = loaded(1);
    let e = encrypt_value(&backend, &cache, 1, zero_account(), 500, 0).unwrap();
    assert!(is_ct_hash(&e.ct_hash));
    assert_eq!(e.ct_hash, compute_ct_hash(&e.proof_data, 0));
    assert_eq!(e.utype, 5);
    assert_eq!(e.security_zone, 0);
    assert_eq!(e.signature, "");
    assert!(!e.proof_data.is_empty());
    assert_eq!(backend.prove_calls.get(), 1);
}

#[test]
fn encrypt_value_binds_metadata() {
    let backend = mock();
    let cache = loaded(3);
    let acct = format!("0x{}", "ab".repeat(20));
    let e = encrypt_value(&backend, &cache, 3, acct, 500, 7).unwrap();
    // key bytes, crs bytes, then the 32-byte metadata, then the value
    let meta = &e.proof_data[4..36];
    assert_eq!(&meta[..20], &[0xab; 20]);
    assert_eq!(&meta[20..24], &[0, 0, 0, 7]);
    assert_eq!(&meta[24..], &[0, 0, 0, 0, 0, 0, 0, 3]);
    assert_eq!(&e.proof_data[36..], &500u64.to_be_bytes());
    assert_eq!(e.security_zone, 7);
}

#[test]
fn encrypt_swap_shares_proof_distinct_hashes() {
    let backend = mock();
    let cache = loaded(1);
    let p = encrypt_swap(&backend, &cache, 1, zero_account(), 1_000_000, 1_000, "ETH".into(), "zashi".into(), 2).unwrap();
    assert_eq!(p.encrypted_amount_in.proof_data, p.encrypted_fee.proof_data);
    assert_ne!(p.encrypted_amount_in.ct_hash, p.encrypted_fee.ct_hash);
    assert_eq!(p.destination_asset, "ETH");
    assert_eq!(p.platform, "zashi");
    assert_eq!(p.encrypted_fee.security_zone, 2);
    assert_eq!(backend.prove_calls.get(), 1);
}

#[test]
fn equal_values_get_distinct_identifiers() {
    let backend = mock();
    let cache = loaded(1);
    let p = encrypt_transaction(&backend, &cache, 1, zero_account(), 1000, 1000, "send".into(), "sapling".into(), "zashi".into(), 0).unwrap();
    assert_ne!(p.encrypted_amount.ct_hash, p.encrypted_fee.ct_hash);
    assert_eq!(p.encrypted_amount.ct_hash, compute_ct_hash(&p.encrypted_amount.proof_data, 0));
    assert_eq!(p.encrypted_fee.ct_hash, compute_ct_hash(&p.encrypted_fee.proof_data, 1));
    assert_eq!(p.transaction_type, "send");
    assert_eq!(p.pool_type, "sapling");
    assert_eq!(p.platform, "zashi");
}

#[test]
fn bad_account_fails_before_proving() {
    let backend = mock();
    let cache = loaded(1);
    let r = encrypt_value(&backend, &cache, 1, "0x1234".to_string(), 5, 0);
    assert!(matches!(r, Err(FHEError::InvalidInput { .. })));
    assert_eq!(backend.prove_calls.get(), 0);
}

#[test]
fn prover_and_serializer_failures_are_reported() {
    let cache = loaded(1);
    let failing = Mock { prove_calls: Cell::new(0), fail_prove: true, fail_serialize: false };
    let r = encrypt_value(&failing, &cache, 1, zero_account(), 5, 0);
    assert!(matches!(r, Err(FHEError::ProofGenerationFailed { .. })));
    let failing = Mock { prove_calls: Cell::new(0), fail_prove: false, fail_serialize: true };
    let r = encrypt_swap(&failing, &cache, 1, zero_account(), 5, 6, "a".into(), "b".into(), 0);
    assert!(matches!(r, Err(FHEError::SerializationFailed { .. })));
}

#[test]
fn context_encrypts_u128_and_batches() {
    let backend = mock();
    let cache = loaded(1);
    let ctx = EncryptionContext::new(&cache, 1, zero_account(), 0).unwrap();
    let (data, hash) = ctx.encrypt_u128(&backend, 1u128 << 100).unwrap();
    assert_eq!(hash, compute_ct_hash(&data, 0));
    let (data, hashes) = ctx.encrypt_multiple_u64(&backend, &[4, 4, 4]).unwrap();
    assert_eq!(hashes.len(), 3);
    assert_eq!(hashes[2], compute_ct_hash(&data, 2));
    assert_ne!(hashes[0], hashes[1]);
    assert_ne!(hashes[1], hashes[2]);
    assert!(matches!(EncryptionContext::new(&cache, 8, zero_account(), 0), Err(FHEError::NotInitialized)));
}

#[test]
fn batch_hashes_and_swap_assembly() {
    let data = vec![5u8, 6, 7];
    let hashes = ct_hashes_for_batch(&data, 2);
    assert_eq!(hashes, vec![compute_ct_hash(&data, 0), compute_ct_hash(&data, 1)]);
    assert!(ct_hashes_for_batch(&data, 0).is_empty());
    let p = swap_payload_from(data.clone(), 4, "BTC".into(), "web".into());
    assert_eq!(p.encrypted_amount_in.ct_hash, hashes[0]);
    assert_eq!(p.encrypted_fee.ct_hash, hashes[1]);
    assert_eq!(p.encrypted_fee.proof_data, data);
    assert_eq!(p.encrypted_amount_in.utype, 5);
}
