//! Proof-binding metadata and content identifiers.

use vstd::prelude::*;
use vstd::string::*;
use crate::codec::{
    be_bytes_u32, be_bytes_u64, decode_prefixed_hex, encode_prefixed_hex, hex_decoded, is_hex_text,
    keccak256_digest, keccak256_of, lemma_be_bytes_u64_injective, prefixed_hex, push_be_u32, push_be_u64, without_hex_prefix,
};
use crate::error::FHEError;

verus! {

/// Length in bytes of an account address.
pub const ACCOUNT_LEN: usize = 20;

/// The account bytes that a hex address names, when it names 20 of them.
pub open spec fn account_bytes(account: Seq<char>) -> Option<Seq<u8>> {
    let digits = without_hex_prefix(account);
    if is_hex_text(digits) && hex_decoded(digits).len() == ACCOUNT_LEN {
        Some(hex_decoded(digits))
    } else {
        None
    }
}

/// The binding blob: account, then zone and chain in big-endian.
pub open spec fn metadata_layout(account: Seq<u8>, security_zone: u32, chain_id: u64) -> Seq<u8> {
    account + be_bytes_u32(security_zone) + be_bytes_u64(chain_id)
}

/// What metadata construction yields for an account text, if it is valid.
pub open spec fn zk_metadata(account: Seq<char>, security_zone: u32, chain_id: u64) -> Option<Seq<u8>> {
    match account_bytes(account) {
        Some(a) => Some(metadata_layout(a, security_zone, chain_id)),
        None => None,
    }
}

/// The bytes hashed for the value at `index` of a batch.
pub open spec fn ct_hash_preimage(proof_data: Seq<u8>, index: u64) -> Seq<u8> {
    proof_data + be_bytes_u64(index)
}

/// The content identifier of the value at `index` of a batch.
pub open spec fn ct_hash_text(proof_data: Seq<u8>, index: u64) -> Seq<char> {
    prefixed_hex(keccak256_of(ct_hash_preimage(proof_data, index)))
}

/// Builds the 32-byte blob that binds a proof to an account, zone and chain.
/// The account is hex text, with or without `0x`, naming exactly 20 bytes.
pub fn build_zk_metadata(account: &str, security_zone: u32, chain_id: u64) -> (r: Result<Vec<u8>, FHEError>)
    ensures
        match zk_metadata(account@, security_zone, chain_id) {
            Some(m) => r is Ok && r->Ok_0@ == m,
            None => r is Err && r->Err_0 is InvalidInput,
        },
{
    let account_bytes = match decode_prefixed_hex(account) {
        Ok(bytes) => bytes,
        Err(message) => {
            return Err(FHEError::InvalidInput { message });
        },
    };
    if account_bytes.len() != ACCOUNT_LEN {
        return Err(
            FHEError::InvalidInput { message: String::from_str("Account address must be 20 bytes") },
        );
    }
    let mut metadata: Vec<u8> = Vec::with_capacity(32);
    let mut i: usize = 0;
    while i < account_bytes.len()
        invariant
            i <= account_bytes@.len(),
            metadata@ == account_bytes@.subrange(0, i as int),
        decreases account_bytes@.len() - i,
    {
        metadata.push(account_bytes[i]);
        i = i + 1;
    }
    push_be_u32(&mut metadata, security_zone);
    push_be_u64(&mut metadata, chain_id);
    assert(account_bytes@.subrange(0, account_bytes@.len() as int) =~= account_bytes@);
    Ok(metadata)
}

/// The content identifier of the value at `index` of a batch whose proof
/// serializes to `proof_data`: `0x` and the hex Keccak-256 digest of the
/// proof bytes followed by the big-endian index.
pub fn compute_ct_hash(proof_data: &[u8], index: u64) -> (r: String)
    ensures
        r@ == ct_hash_text(proof_data@, index),
        r@.len() == 66,
{
    let mut preimage: Vec<u8> = Vec::new();
    let mut i: usize = 0;
    while i < proof_data.len()
        invariant
            i <= proof_data@.len(),
            preimage@ == proof_data@.subrange(0, i as int),
        decreases proof_data@.len() - i,
    {
        preimage.push(proof_data[i]);
        i = i + 1;
    }
    assert(proof_data@.subrange(0, proof_data@.len() as int) =~= proof_data@);
    push_be_u64(&mut preimage, index);
    let digest = keccak256_digest(preimage.as_slice());
    encode_prefixed_hex(digest.as_slice())
}

/// Serialized proof bytes as `0x`-prefixed lowercase hex.
pub fn serialize_proof(proof_data: &[u8]) -> (r: String)
    ensures
        r@ == prefixed_hex(proof_data@),
{
    encode_prefixed_hex(proof_data)
}

/// Metadata construction is a function of its inputs: two calls with the same
/// account text, zone and chain both succeed or both fail, and when they
/// succeed they give the same 32 bytes.
pub proof fn lemma_metadata_deterministic(
    account: &str,
    security_zone: u32,
    chain_id: u64,
    first: Result<Vec<u8>, FHEError>,
    second: Result<Vec<u8>, FHEError>,
)
    requires
        call_ensures(build_zk_metadata, (account, security_zone, chain_id), first),
        call_ensures(build_zk_metadata, (account, security_zone, chain_id), second),
    ensures
        first is Ok <==> second is Ok,
        first is Ok ==> first->Ok_0@ == second->Ok_0@ && first->Ok_0@.len() == 32,
{
}

/// Metadata construction fails, with an invalid-input error, exactly on the
/// account texts that do not decode to 20 bytes.
pub proof fn lemma_metadata_rejects_bad_account(
    account: &str,
    security_zone: u32,
    chain_id: u64,
    r: Result<Vec<u8>, FHEError>,
)
    requires
        call_ensures(build_zk_metadata, (account, security_zone, chain_id), r),
    ensures
        r is Err <==> !(is_hex_text(without_hex_prefix(account@)) && hex_decoded(
            without_hex_prefix(account@),
        ).len() == 20),
        r is Err ==> r->Err_0 is InvalidInput,
{
}

/// Within one batch the bytes hashed for two different positions differ, so
/// the identifiers of equal values at different positions are digests of
/// different inputs.
pub proof fn lemma_ct_hash_preimages_distinct(proof_data: Seq<u8>, i: u64, j: u64)
    requires
        i != j,
    ensures
        ct_hash_preimage(proof_data, i) != ct_hash_preimage(proof_data, j),
{
    let n = proof_data.len() as int;
    let a = ct_hash_preimage(proof_data, i);
    let b = ct_hash_preimage(proof_data, j);
    if a == b {
        assert(a.subrange(n, n + 8) =~= be_bytes_u64(i));
        assert(b.subrange(n, n + 8) =~= be_bytes_u64(j));
        lemma_be_bytes_u64_injective(i, j);
    }
}

} // verus!
