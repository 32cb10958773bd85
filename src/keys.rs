//! The per-chain cache of public keys and proof reference strings.

use vstd::prelude::*;
use std::collections::HashMap;
use std::sync::Arc;
use crate::backend::ProofBackend;
use crate::codec::{decode_prefixed_hex, hex_decoded, is_hex_text, without_hex_prefix};
use crate::error::FHEError;

verus! {

broadcast use vstd::std_specs::hash::group_hash_axioms;

/// Relies on `Arc::clone`: the new handle points to the same allocation, so
/// it stands for the same value.
#[verifier::external_body]
fn share<T>(handle: &Arc<T>) -> (r: Arc<T>)
    ensures
        r == *handle,
{
    Arc::clone(handle)
}

/// Whether hex text, with or without `0x`, spells some bytes.
pub open spec fn hex_blob_valid(text: Seq<char>) -> bool {
    is_hex_text(without_hex_prefix(text))
}

/// Decodes a hex blob that may open with `0x`; malformed text is invalid input.
pub fn decode_hex_blob(text: &str) -> (r: Result<Vec<u8>, FHEError>)
    ensures
        r is Ok <==> hex_blob_valid(text@),
        r is Ok ==> r->Ok_0@ == hex_decoded(without_hex_prefix(text@)),
        r is Err ==> r->Err_0 is InvalidInput,
{
    match decode_prefixed_hex(text) {
        Ok(bytes) => Ok(bytes),
        Err(message) => Err(FHEError::InvalidInput { message }),
    }
}

/// Hex text, with or without `0x`, whose bytes encode some public key.
pub open spec fn key_decodable<K, C, L, B: ProofBackend<K, C, L>>(backend: &B, key_hex: Seq<char>) -> bool {
    &&& hex_blob_valid(key_hex)
    &&& exists|k: K| #[trigger] backend.decodes_public_key(hex_decoded(without_hex_prefix(key_hex)), k)
}

/// Hex text, with or without `0x`, whose bytes encode some reference string.
pub open spec fn crs_decodable<K, C, L, B: ProofBackend<K, C, L>>(backend: &B, crs_hex: Seq<char>) -> bool {
    &&& hex_blob_valid(crs_hex)
    &&& exists|c: C| #[trigger] backend.decodes_crs(hex_decoded(without_hex_prefix(crs_hex)), c)
}

/// Decodes a public key from hex text that may open with `0x`.
pub fn deserialize_public_key<K, C, L, B: ProofBackend<K, C, L>>(
    backend: &B,
    key_hex: &str,
) -> (r: Result<Arc<K>, FHEError>)
    ensures
        !hex_blob_valid(key_hex@) ==> r is Err && r->Err_0 is InvalidInput,
        hex_blob_valid(key_hex@) && r is Err ==> r->Err_0 is KeyDeserializationFailed,
        r is Ok <==> key_decodable(backend, key_hex@),
        r is Ok ==> hex_blob_valid(key_hex@) && backend.decodes_public_key(
            hex_decoded(without_hex_prefix(key_hex@)),
            *r->Ok_0,
        ),
{
    let bytes = decode_hex_blob(key_hex)?;
    match backend.decode_public_key(bytes.as_slice()) {
        Ok(key) => Ok(Arc::new(key)),
        Err(message) => Err(FHEError::KeyDeserializationFailed { message }),
    }
}

/// Decodes a proof reference string from hex text that may open with `0x`.
pub fn deserialize_crs<K, C, L, B: ProofBackend<K, C, L>>(
    backend: &B,
    crs_hex: &str,
) -> (r: Result<Arc<C>, FHEError>)
    ensures
        !hex_blob_valid(crs_hex@) ==> r is Err && r->Err_0 is InvalidInput,
        hex_blob_valid(crs_hex@) && r is Err ==> r->Err_0 is CrsDeserializationFailed,
        r is Ok <==> crs_decodable(backend, crs_hex@),
        r is Ok ==> hex_blob_valid(crs_hex@) && backend.decodes_crs(
            hex_decoded(without_hex_prefix(crs_hex@)),
            *r->Ok_0,
        ),
{
    let bytes = decode_hex_blob(crs_hex)?;
    match backend.decode_crs(bytes.as_slice()) {
        Ok(crs) => Ok(Arc::new(crs)),
        Err(message) => Err(FHEError::CrsDeserializationFailed { message }),
    }
}

/// The cached key material of every loaded chain. A process shares one
/// behind a readers-writer lock; the values are shared handles, so replacing
/// an entry leaves the handles that callers already hold intact.
#[verifier::reject_recursive_types(K)]
#[verifier::reject_recursive_types(C)]
pub struct KeyCache<K, C> {
    public_keys: HashMap<u64, Arc<K>>,
    crs_cache: HashMap<u64, Arc<C>>,
}

impl<K, C> KeyCache<K, C> {
    /// The public key held for each chain.
    pub closed spec fn public_keys(&self) -> Map<u64, Arc<K>> {
        self.public_keys@
    }

    /// The reference string held for each chain.
    pub closed spec fn crs_entries(&self) -> Map<u64, Arc<C>> {
        self.crs_cache@
    }

    /// Both halves of a chain's key material are held.
    pub open spec fn holds(&self, chain_id: u64) -> bool {
        self.public_keys().contains_key(chain_id) && self.crs_entries().contains_key(chain_id)
    }

    /// An empty cache.
    pub fn new() -> (r: KeyCache<K, C>)
        ensures
            r.public_keys() == Map::<u64, Arc<K>>::empty(),
            r.crs_entries() == Map::<u64, Arc<C>>::empty(),
    {
        KeyCache { public_keys: HashMap::new(), crs_cache: HashMap::new() }
    }
}

/// Installs `key` as the public key of `chain_id`, replacing any earlier one.
pub fn cache_public_key<K, C>(cache: &mut KeyCache<K, C>, chain_id: u64, key: Arc<K>)
    ensures
        final(cache).public_keys() == old(cache).public_keys().insert(chain_id, key),
        final(cache).crs_entries() == old(cache).crs_entries(),
{
    cache.public_keys.insert(chain_id, key);
}

/// Installs `crs` as the reference string of `chain_id`, replacing any earlier one.
pub fn cache_crs<K, C>(cache: &mut KeyCache<K, C>, chain_id: u64, crs: Arc<C>)
    ensures
        final(cache).crs_entries() == old(cache).crs_entries().insert(chain_id, crs),
        final(cache).public_keys() == old(cache).public_keys(),
{
    cache.crs_cache.insert(chain_id, crs);
}

/// A shared handle on the public key of `chain_id`, if one is held.
pub fn get_cached_public_key<K, C>(cache: &KeyCache<K, C>, chain_id: u64) -> (r: Option<Arc<K>>)
    ensures
        r is Some <==> cache.public_keys().contains_key(chain_id),
        r is Some ==> r->Some_0 == cache.public_keys()[chain_id],
{
    match cache.public_keys.get(&chain_id) {
        Some(key) => Some(share(key)),
        None => None,
    }
}

/// A shared handle on the reference string of `chain_id`, if one is held.
pub fn get_cached_crs<K, C>(cache: &KeyCache<K, C>, chain_id: u64) -> (r: Option<Arc<C>>)
    ensures
        r is Some <==> cache.crs_entries().contains_key(chain_id),
        r is Some ==> r->Some_0 == cache.crs_entries()[chain_id],
{
    match cache.crs_cache.get(&chain_id) {
        Some(crs) => Some(share(crs)),
        None => None,
    }
}

/// Drops the key material of every chain.
pub fn clear_cache<K, C>(cache: &mut KeyCache<K, C>)
    ensures
        final(cache).public_keys() == Map::<u64, Arc<K>>::empty(),
        final(cache).crs_entries() == Map::<u64, Arc<C>>::empty(),
{
    cache.public_keys.clear();
    cache.crs_cache.clear();
}

/// `after` holds new key material for `chain_id`, in place of any earlier,
/// and for every other chain exactly what `before` held.
pub open spec fn installs<K, C>(before: &KeyCache<K, C>, after: &KeyCache<K, C>, chain_id: u64) -> bool {
    &&& after.holds(chain_id)
    &&& after.public_keys() == before.public_keys().insert(chain_id, after.public_keys()[chain_id])
    &&& after.crs_entries() == before.crs_entries().insert(chain_id, after.crs_entries()[chain_id])
}

/// Decodes a public key and a reference string from hex and installs both as
/// the key material of `chain_id`. Nothing changes when either fails to decode.
pub fn load_keys_from_hex<K, C, L, B: ProofBackend<K, C, L>>(
    backend: &B,
    cache: &mut KeyCache<K, C>,
    chain_id: u64,
    public_key_hex: String,
    crs_hex: String,
) -> (r: Result<(), FHEError>)
    ensures
        r is Ok ==> installs(old(cache), final(cache), chain_id),
        r is Ok ==> hex_blob_valid(public_key_hex@) && hex_blob_valid(crs_hex@)
            && backend.decodes_public_key(
            hex_decoded(without_hex_prefix(public_key_hex@)),
            *final(cache).public_keys()[chain_id],
        ) && backend.decodes_crs(hex_decoded(without_hex_prefix(crs_hex@)), *final(cache).crs_entries()[chain_id]),
        r is Err ==> *final(cache) == *old(cache),
        r is Ok <==> key_decodable(backend, public_key_hex@) && crs_decodable(backend, crs_hex@),
        !hex_blob_valid(public_key_hex@) ==> r is Err && r->Err_0 is InvalidInput,
        hex_blob_valid(public_key_hex@) && !key_decodable(backend, public_key_hex@) ==> r is Err
            && r->Err_0 is KeyDeserializationFailed,
        key_decodable(backend, public_key_hex@) && !hex_blob_valid(crs_hex@) ==> r is Err
            && r->Err_0 is InvalidInput,
        key_decodable(backend, public_key_hex@) && hex_blob_valid(crs_hex@) && !crs_decodable(
            backend,
            crs_hex@,
        ) ==> r is Err && r->Err_0 is CrsDeserializationFailed,
{
    let public_key = deserialize_public_key(backend, public_key_hex.as_str())?;
    let crs = deserialize_crs(backend, crs_hex.as_str())?;
    cache_public_key(cache, chain_id, public_key);
    cache_crs(cache, chain_id, crs);
    Ok(())
}

/// Whether both halves of the key material of `chain_id` are held.
pub fn is_initialized<K, C>(cache: &KeyCache<K, C>, chain_id: u64) -> (r: bool)
    ensures
        r == cache.holds(chain_id),
{
    get_cached_public_key(cache, chain_id).is_some() && get_cached_crs(cache, chain_id).is_some()
}

} // verus!
