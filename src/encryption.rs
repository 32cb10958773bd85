//! Encryption of transaction fields under a chain's cached key material.

use vstd::prelude::*;
use vstd::string::*;
use std::sync::Arc;
use crate::backend::ProofBackend;
use crate::codec::{hex_prefix, keccak256_of, prefixed_hex};
use crate::error::FHEError;
use crate::keys::{get_cached_crs, get_cached_public_key, installs, is_initialized, KeyCache};
use crate::binding::{
    build_zk_metadata, compute_ct_hash, ct_hash_preimage, ct_hash_text,
    lemma_ct_hash_preimages_distinct, zk_metadata,
};
use crate::types::{
    EncryptedInput, EncryptedSwapPayload, EncryptedTransactionPayload, FheUintType,
};

verus! {

/// An encrypted 64-bit value at `index` of the batch whose proof serializes to `proof_data`.
pub open spec fn is_encrypted_u64(e: EncryptedInput, proof_data: Seq<u8>, index: u64, security_zone: u32) -> bool {
    &&& e.ct_hash@ == ct_hash_text(proof_data, index)
    &&& e.ct_hash@.len() == 66
    &&& e.security_zone == security_zone
    &&& e.utype == FheUintType::Uint64.tag()
    &&& e.signature@ == Seq::<char>::empty()
    &&& e.proof_data@ == proof_data
}

/// A swap payload built from one batch proof over amount-in then fee.
pub open spec fn is_swap_payload(
    p: EncryptedSwapPayload,
    proof_data: Seq<u8>,
    security_zone: u32,
    destination_asset: Seq<char>,
    platform: Seq<char>,
) -> bool {
    &&& is_encrypted_u64(p.encrypted_amount_in, proof_data, 0, security_zone)
    &&& is_encrypted_u64(p.encrypted_fee, proof_data, 1, security_zone)
    &&& p.destination_asset@ == destination_asset
    &&& p.platform@ == platform
}

/// A transaction payload built from one batch proof over amount then fee.
pub open spec fn is_transaction_payload(
    p: EncryptedTransactionPayload,
    proof_data: Seq<u8>,
    security_zone: u32,
    transaction_type: Seq<char>,
    pool_type: Seq<char>,
    platform: Seq<char>,
) -> bool {
    &&& is_encrypted_u64(p.encrypted_amount, proof_data, 0, security_zone)
    &&& is_encrypted_u64(p.encrypted_fee, proof_data, 1, security_zone)
    &&& p.transaction_type@ == transaction_type
    &&& p.pool_type@ == pool_type
    &&& p.platform@ == platform
}

/// A copy of some bytes.
fn copy_bytes(b: &[u8]) -> (r: Vec<u8>)
    ensures
        r@ == b@,
{
    let mut out: Vec<u8> = Vec::with_capacity(b.len());
    let mut i: usize = 0;
    while i < b.len()
        invariant
            i <= b@.len(),
            out@ == b@.subrange(0, i as int),
        decreases b@.len() - i,
    {
        out.push(b[i]);
        i = i + 1;
    }
    assert(b@.subrange(0, b@.len() as int) =~= b@);
    out
}

/// The content identifiers of the first `count` positions of a batch whose
/// proof serializes to `proof_data`.
pub fn ct_hashes_for_batch(proof_data: &[u8], count: usize) -> (r: Vec<String>)
    ensures
        r@.len() == count,
        forall|i: int|
            0 <= i < count ==> #[trigger] r@[i]@ == ct_hash_text(proof_data@, i as u64) && r@[i]@.len()
                == 66,
{
    let mut hashes: Vec<String> = Vec::with_capacity(count);
    let mut i: usize = 0;
    while i < count
        invariant
            i <= count,
            hashes@.len() == i,
            forall|k: int|
                0 <= k < i ==> #[trigger] hashes@[k]@ == ct_hash_text(proof_data@, k as u64)
                    && hashes@[k]@.len() == 66,
        decreases count - i,
    {
        let h = compute_ct_hash(proof_data, i as u64);
        hashes.push(h);
        i = i + 1;
    }
    hashes
}

/// The encrypted value at `index` of a batch whose proof serializes to `proof_data`.
pub fn encrypted_u64_from(
    proof_data: Vec<u8>,
    index: u64,
    security_zone: u32,
) -> (r: EncryptedInput)
    ensures
        is_encrypted_u64(r, proof_data@, index, security_zone),
{
    let ct_hash = compute_ct_hash(proof_data.as_slice(), index);
    EncryptedInput {
        ct_hash,
        security_zone,
        utype: FheUintType::Uint64.as_u8(),
        signature: String::new(),
        proof_data,
    }
}

/// The swap payload for a batch proof over amount-in then fee.
pub fn swap_payload_from(
    proof_data: Vec<u8>,
    security_zone: u32,
    destination_asset: String,
    platform: String,
) -> (r: EncryptedSwapPayload)
    ensures
        is_swap_payload(r, proof_data@, security_zone, destination_asset@, platform@),
{
    let shared = copy_bytes(proof_data.as_slice());
    EncryptedSwapPayload {
        encrypted_amount_in: encrypted_u64_from(shared, 0, security_zone),
        encrypted_fee: encrypted_u64_from(proof_data, 1, security_zone),
        destination_asset,
        platform,
    }
}

/// The transaction payload for a batch proof over amount then fee.
pub fn transaction_payload_from(
    proof_data: Vec<u8>,
    security_zone: u32,
    transaction_type: String,
    pool_type: String,
    platform: String,
) -> (r: EncryptedTransactionPayload)
    ensures
        is_transaction_payload(r, proof_data@, security_zone, transaction_type@, pool_type@, platform@),
{
    let shared = copy_bytes(proof_data.as_slice());
    EncryptedTransactionPayload {
        encrypted_amount: encrypted_u64_from(shared, 0, security_zone),
        encrypted_fee: encrypted_u64_from(proof_data, 1, security_zone),
        transaction_type,
        pool_type,
        platform,
    }
}

/// Some list that `backend` made from `values` under `public_key` and `crs`,
/// bound to `metadata`, encodes to `proof_data`.
pub open spec fn proven_u64_batch<K, C, L, B: ProofBackend<K, C, L>>(
    backend: &B,
    public_key: K,
    crs: C,
    values: Seq<u64>,
    metadata: Seq<u8>,
    proof_data: Seq<u8>,
) -> bool {
    exists|list: L|
        #[trigger] backend.proves_u64(list, public_key, crs, values, metadata) && backend.encodes(
            list,
            proof_data,
        )
}

/// Some list that `backend` made from the 128-bit `value` under `public_key`
/// and `crs`, bound to `metadata`, encodes to `proof_data`.
pub open spec fn proven_u128_value<K, C, L, B: ProofBackend<K, C, L>>(
    backend: &B,
    public_key: K,
    crs: C,
    value: u128,
    metadata: Seq<u8>,
    proof_data: Seq<u8>,
) -> bool {
    exists|list: L|
        #[trigger] backend.proves_u128(list, public_key, crs, value, metadata) && backend.encodes(
            list,
            proof_data,
        )
}

/// `backend` made a proven list from `values` under `public_key` and `crs`,
/// bound to `metadata`.
pub open spec fn proof_made_u64<K, C, L, B: ProofBackend<K, C, L>>(
    backend: &B,
    public_key: K,
    crs: C,
    values: Seq<u64>,
    metadata: Seq<u8>,
) -> bool {
    exists|list: L| #[trigger] backend.proves_u64(list, public_key, crs, values, metadata)
}

/// Serializes a proven list; a failed proof and a failed encoding are
/// reported as such.
fn serialize_proven<K, C, L, B: ProofBackend<K, C, L>>(
    backend: &B,
    list: Result<L, String>,
) -> (r: Result<Vec<u8>, FHEError>)
    ensures
        list is Err ==> r is Err && r->Err_0 is ProofGenerationFailed,
        list is Ok && r is Err ==> r->Err_0 is SerializationFailed,
        r is Ok ==> list is Ok && backend.encodes(list->Ok_0, r->Ok_0@),
{
    let list = match list {
        Ok(list) => list,
        Err(message) => {
            return Err(FHEError::ProofGenerationFailed { message });
        },
    };
    match backend.serialize_list(&list) {
        Ok(bytes) => Ok(bytes),
        Err(message) => Err(FHEError::SerializationFailed { message }),
    }
}

/// The key material of one chain together with the account and zone that
/// proofs made through it are bound to.
pub struct EncryptionContext<K, C> {
    public_key: Arc<K>,
    crs: Arc<C>,
    account: String,
    security_zone: u32,
    chain_id: u64,
}

impl<K, C> EncryptionContext<K, C> {
    /// The public key that values are encrypted under.
    pub closed spec fn public_key(&self) -> K {
        *self.public_key
    }

    /// The reference string that proofs are made with.
    pub closed spec fn crs(&self) -> C {
        *self.crs
    }

    /// The account text that proofs are bound to.
    pub closed spec fn account(&self) -> Seq<char> {
        self.account@
    }

    /// The security zone that proofs are bound to.
    pub closed spec fn security_zone(&self) -> u32 {
        self.security_zone
    }

    /// The chain whose key material this context holds.
    pub closed spec fn chain_id(&self) -> u64 {
        self.chain_id
    }

    /// The metadata that proofs made through this context are bound to.
    pub open spec fn metadata(&self) -> Option<Seq<u8>> {
        zk_metadata(self.account(), self.security_zone(), self.chain_id())
    }

    /// `proof_data` encodes a list that `backend` proved over `values` with
    /// this context's key, reference string and metadata.
    pub open spec fn proven<L, B: ProofBackend<K, C, L>>(&self, backend: &B, values: Seq<u64>, proof_data: Seq<u8>) -> bool {
        self.metadata() is Some && proven_u64_batch(
            backend,
            self.public_key(),
            self.crs(),
            values,
            self.metadata()->Some_0,
            proof_data,
        )
    }

    /// The errors owed once this context's metadata is in hand: a proof that
    /// could not be made, or one made but not encoded.
    pub open spec fn proving_failure<L, B: ProofBackend<K, C, L>>(&self, backend: &B, values: Seq<u64>, e: FHEError) -> bool {
        ||| e is ProofGenerationFailed
        ||| e is SerializationFailed && proof_made_u64(
            backend,
            self.public_key(),
            self.crs(),
            values,
            self.metadata()->Some_0,
        )
    }

    /// Takes the key material of `chain_id` from the cache; fails with
    /// `NotInitialized` when either half is missing.
    pub fn new(
        cache: &KeyCache<K, C>,
        chain_id: u64,
        account: String,
        security_zone: u32,
    ) -> (r: Result<EncryptionContext<K, C>, FHEError>)
        ensures
            r is Ok <==> cache.holds(chain_id),
            r is Err ==> r->Err_0 is NotInitialized,
            r is Ok ==> r->Ok_0.account() == account@ && r->Ok_0.security_zone() == security_zone
                && r->Ok_0.chain_id() == chain_id,
            r is Ok ==> r->Ok_0.public_key() == *cache.public_keys()[chain_id]
                && r->Ok_0.crs() == *cache.crs_entries()[chain_id],
    {
        let public_key = match get_cached_public_key(cache, chain_id) {
            Some(key) => key,
            None => {
                return Err(FHEError::NotInitialized);
            },
        };
        let crs = match get_cached_crs(cache, chain_id) {
            Some(crs) => crs,
            None => {
                return Err(FHEError::NotInitialized);
            },
        };
        Ok(EncryptionContext { public_key, crs, account, security_zone, chain_id })
    }

    /// Encrypts one 64-bit value with a proof bound to this context; returns
    /// the serialized proof and the value's content identifier.
    pub fn encrypt_u64<L, B: ProofBackend<K, C, L>>(
        &self,
        backend: &B,
        value: u64,
    ) -> (r: Result<(Vec<u8>, String), FHEError>)
        ensures
            self.metadata() is None ==> r is Err && r->Err_0 is InvalidInput,
            r is Err && self.metadata() is Some ==> self.proving_failure(backend, seq![value], r->Err_0),
            r is Ok ==> self.proven(backend, seq![value], r->Ok_0.0@),
            r is Ok ==> r->Ok_0.1@ == ct_hash_text(r->Ok_0.0@, 0) && r->Ok_0.1@.len() == 66,
    {
        let metadata = build_zk_metadata(self.account.as_str(), self.security_zone, self.chain_id)?;
        let values: [u64; 1] = [value];
        assert(values@ =~= seq![value]);
        let list = backend.prove_packed_u64(&*self.public_key, &*self.crs, values.as_slice(), metadata.as_slice());
        proof {
            if list is Ok {
                assert(backend.proves_u64(list->Ok_0, self.public_key(), self.crs(), seq![value], metadata@));
            }
        }
        let proof_data = serialize_proven(backend, list)?;
        let ct_hash = compute_ct_hash(proof_data.as_slice(), 0);
        Ok((proof_data, ct_hash))
    }

    /// Encrypts one 128-bit value with a proof bound to this context; returns
    /// the serialized proof and the value's content identifier.
    pub fn encrypt_u128<L, B: ProofBackend<K, C, L>>(
        &self,
        backend: &B,
        value: u128,
    ) -> (r: Result<(Vec<u8>, String), FHEError>)
        ensures
            self.metadata() is None ==> r is Err && r->Err_0 is InvalidInput,
            r is Err && self.metadata() is Some ==> r->Err_0 is ProofGenerationFailed || (
            r->Err_0 is SerializationFailed && exists|list: L|
                #[trigger] backend.proves_u128(
                    list,
                    self.public_key(),
                    self.crs(),
                    value,
                    self.metadata()->Some_0,
                )),
            r is Ok ==> self.metadata() is Some && proven_u128_value(
                backend,
                self.public_key(),
                self.crs(),
                value,
                self.metadata()->Some_0,
                r->Ok_0.0@,
            ),
            r is Ok ==> r->Ok_0.1@ == ct_hash_text(r->Ok_0.0@, 0) && r->Ok_0.1@.len() == 66,
    {
        let metadata = build_zk_metadata(self.account.as_str(), self.security_zone, self.chain_id)?;
        let list = backend.prove_packed_u128(&*self.public_key, &*self.crs, value, metadata.as_slice());
        proof {
            if list is Ok {
                assert(backend.proves_u128(list->Ok_0, self.public_key(), self.crs(), value, metadata@));
            }
        }
        let proof_data = serialize_proven(backend, list)?;
        let ct_hash = compute_ct_hash(proof_data.as_slice(), 0);
        Ok((proof_data, ct_hash))
    }

    /// Encrypts several 64-bit values under one batch proof bound to this
    /// context; returns the serialized proof and one content identifier per
    /// value, in order.
    pub fn encrypt_multiple_u64<L, B: ProofBackend<K, C, L>>(
        &self,
        backend: &B,
        values: &[u64],
    ) -> (r: Result<(Vec<u8>, Vec<String>), FHEError>)
        ensures
            self.metadata() is None ==> r is Err && r->Err_0 is InvalidInput,
            r is Err && self.metadata() is Some ==> self.proving_failure(backend, values@, r->Err_0),
            r is Ok ==> self.proven(backend, values@, r->Ok_0.0@),
            r is Ok ==> r->Ok_0.1@.len() == values@.len() && forall|i: int|
                0 <= i < values@.len() ==> #[trigger] r->Ok_0.1@[i]@ == ct_hash_text(r->Ok_0.0@, i as u64)
                    && r->Ok_0.1@[i]@.len() == 66,
    {
        let metadata = build_zk_metadata(self.account.as_str(), self.security_zone, self.chain_id)?;
        let list = backend.prove_packed_u64(&*self.public_key, &*self.crs, values, metadata.as_slice());
        proof {
            if list is Ok {
                assert(backend.proves_u64(list->Ok_0, self.public_key(), self.crs(), values@, metadata@));
            }
        }
        let proof_data = serialize_proven(backend, list)?;
        let ct_hashes = ct_hashes_for_batch(proof_data.as_slice(), values.len());
        Ok((proof_data, ct_hashes))
    }

    /// Encrypts one 64-bit value and returns it as an encrypted input.
    pub fn encrypt_value_payload<L, B: ProofBackend<K, C, L>>(
        &self,
        backend: &B,
        value: u64,
    ) -> (r: Result<EncryptedInput, FHEError>)
        ensures
            self.metadata() is None ==> r is Err && r->Err_0 is InvalidInput,
            r is Err && self.metadata() is Some ==> self.proving_failure(backend, seq![value], r->Err_0),
            r is Ok ==> self.proven(backend, seq![value], r->Ok_0.proof_data@),
            r is Ok ==> is_encrypted_u64(r->Ok_0, r->Ok_0.proof_data@, 0, self.security_zone()),
    {
        let (proof_data, _ct_hash) = self.encrypt_u64(backend, value)?;
        Ok(encrypted_u64_from(proof_data, 0, self.security_zone))
    }

    /// Encrypts the amount-in and fee of a swap under one batch proof.
    pub fn encrypt_swap_payload<L, B: ProofBackend<K, C, L>>(
        &self,
        backend: &B,
        amount_in_zatoshi: u64,
        fee_zatoshi: u64,
        destination_asset: String,
        platform: String,
    ) -> (r: Result<EncryptedSwapPayload, FHEError>)
        ensures
            self.metadata() is None ==> r is Err && r->Err_0 is InvalidInput,
            r is Err && self.metadata() is Some ==> self.proving_failure(
                backend,
                seq![amount_in_zatoshi, fee_zatoshi],
                r->Err_0,
            ),
            r is Ok ==> self.proven(
                backend,
                seq![amount_in_zatoshi, fee_zatoshi],
                r->Ok_0.encrypted_amount_in.proof_data@,
            ),
            r is Ok ==> is_swap_payload(
                r->Ok_0,
                r->Ok_0.encrypted_amount_in.proof_data@,
                self.security_zone(),
                destination_asset@,
                platform@,
            ),
    {
        let values: [u64; 2] = [amount_in_zatoshi, fee_zatoshi];
        assert(values@ =~= seq![amount_in_zatoshi, fee_zatoshi]);
        let (proof_data, _ct_hashes) = self.encrypt_multiple_u64(backend, values.as_slice())?;
        Ok(swap_payload_from(proof_data, self.security_zone, destination_asset, platform))
    }

    /// Encrypts the amount and fee of a transaction under one batch proof.
    pub fn encrypt_transaction_payload<L, B: ProofBackend<K, C, L>>(
        &self,
        backend: &B,
        amount_zatoshi: u64,
        fee_zatoshi: u64,
        transaction_type: String,
        pool_type: String,
        platform: String,
    ) -> (r: Result<EncryptedTransactionPayload, FHEError>)
        ensures
            self.metadata() is None ==> r is Err && r->Err_0 is InvalidInput,
            r is Err && self.metadata() is Some ==> self.proving_failure(
                backend,
                seq![amount_zatoshi, fee_zatoshi],
                r->Err_0,
            ),
            r is Ok ==> self.proven(
                backend,
                seq![amount_zatoshi, fee_zatoshi],
                r->Ok_0.encrypted_amount.proof_data@,
            ),
            r is Ok ==> is_transaction_payload(
                r->Ok_0,
                r->Ok_0.encrypted_amount.proof_data@,
                self.security_zone(),
                transaction_type@,
                pool_type@,
                platform@,
            ),
    {
        let values: [u64; 2] = [amount_zatoshi, fee_zatoshi];
        assert(values@ =~= seq![amount_zatoshi, fee_zatoshi]);
        let (proof_data, _ct_hashes) = self.encrypt_multiple_u64(backend, values.as_slice())?;
        Ok(transaction_payload_from(proof_data, self.security_zone, transaction_type, pool_type, platform))
    }
}

/// The chain's key material in `cache` proved `values`, bound to the
/// account's metadata, into the list that `proof_data` encodes.
pub open spec fn cache_proven<K, C, L, B: ProofBackend<K, C, L>>(
    backend: &B,
    cache: &KeyCache<K, C>,
    chain_id: u64,
    account: Seq<char>,
    security_zone: u32,
    values: Seq<u64>,
    proof_data: Seq<u8>,
) -> bool {
    &&& cache.holds(chain_id)
    &&& zk_metadata(account, security_zone, chain_id) is Some
    &&& proven_u64_batch(
        backend,
        *cache.public_keys()[chain_id],
        *cache.crs_entries()[chain_id],
        values,
        zk_metadata(account, security_zone, chain_id)->Some_0,
        proof_data,
    )
}

/// The errors owed once the chain is held and the account is valid: a proof
/// that could not be made, or one made from the chain's key material and
/// `values` but not encoded.
pub open spec fn cache_proving_failure<K, C, L, B: ProofBackend<K, C, L>>(
    backend: &B,
    cache: &KeyCache<K, C>,
    chain_id: u64,
    account: Seq<char>,
    security_zone: u32,
    values: Seq<u64>,
    e: FHEError,
) -> bool {
    ||| e is ProofGenerationFailed
    ||| e is SerializationFailed && proof_made_u64(
        backend,
        *cache.public_keys()[chain_id],
        *cache.crs_entries()[chain_id],
        values,
        zk_metadata(account, security_zone, chain_id)->Some_0,
    )
}

/// Encrypts one 64-bit value for `account` on `chain_id`.
pub fn encrypt_value<K, C, L, B: ProofBackend<K, C, L>>(
    backend: &B,
    cache: &KeyCache<K, C>,
    chain_id: u64,
    account: String,
    value: u64,
    security_zone: u32,
) -> (r: Result<EncryptedInput, FHEError>)
    ensures
        !cache.holds(chain_id) ==> r is Err && r->Err_0 is NotInitialized,
        cache.holds(chain_id) && zk_metadata(account@, security_zone, chain_id) is None ==> r is Err
            && r->Err_0 is InvalidInput,
        cache.holds(chain_id) && zk_metadata(account@, security_zone, chain_id) is Some && r is Err
            ==> cache_proving_failure(backend, cache, chain_id, account@, security_zone, seq![value], r->Err_0),
        r is Ok ==> cache_proven(
            backend,
            cache,
            chain_id,
            account@,
            security_zone,
            seq![value],
            r->Ok_0.proof_data@,
        ),
        r is Ok ==> is_encrypted_u64(r->Ok_0, r->Ok_0.proof_data@, 0, security_zone),
{
    let ctx = EncryptionContext::new(cache, chain_id, account, security_zone)?;
    ctx.encrypt_value_payload(backend, value)
}

/// Encrypts the amount-in and fee of a swap under one batch proof.
pub fn encrypt_swap<K, C, L, B: ProofBackend<K, C, L>>(
    backend: &B,
    cache: &KeyCache<K, C>,
    chain_id: u64,
    account: String,
    amount_in_zatoshi: u64,
    fee_zatoshi: u64,
    destination_asset: String,
    platform: String,
    security_zone: u32,
) -> (r: Result<EncryptedSwapPayload, FHEError>)
    ensures
        !cache.holds(chain_id) ==> r is Err && r->Err_0 is NotInitialized,
        cache.holds(chain_id) && zk_metadata(account@, security_zone, chain_id) is None ==> r is Err
            && r->Err_0 is InvalidInput,
        cache.holds(chain_id) && zk_metadata(account@, security_zone, chain_id) is Some && r is Err
            ==> cache_proving_failure(
            backend,
            cache,
            chain_id,
            account@,
            security_zone,
            seq![amount_in_zatoshi, fee_zatoshi],
            r->Err_0,
        ),
        r is Ok ==> cache_proven(
            backend,
            cache,
            chain_id,
            account@,
            security_zone,
            seq![amount_in_zatoshi, fee_zatoshi],
            r->Ok_0.encrypted_amount_in.proof_data@,
        ),
        r is Ok ==> is_swap_payload(
            r->Ok_0,
            r->Ok_0.encrypted_amount_in.proof_data@,
            security_zone,
            destination_asset@,
            platform@,
        ),
{
    let ctx = EncryptionContext::new(cache, chain_id, account, security_zone)?;
    ctx.encrypt_swap_payload(backend, amount_in_zatoshi, fee_zatoshi, destination_asset, platform)
}

/// Encrypts the amount and fee of a transaction under one batch proof.
pub fn encrypt_transaction<K, C, L, B: ProofBackend<K, C, L>>(
    backend: &B,
    cache: &KeyCache<K, C>,
    chain_id: u64,
    account: String,
    amount_zatoshi: u64,
    fee_zatoshi: u64,
    transaction_type: String,
    pool_type: String,
    platform: String,
    security_zone: u32,
) -> (r: Result<EncryptedTransactionPayload, FHEError>)
    ensures
        !cache.holds(chain_id) ==> r is Err && r->Err_0 is NotInitialized,
        cache.holds(chain_id) && zk_metadata(account@, security_zone, chain_id) is None ==> r is Err
            && r->Err_0 is InvalidInput,
        cache.holds(chain_id) && zk_metadata(account@, security_zone, chain_id) is Some && r is Err
            ==> cache_proving_failure(
            backend,
            cache,
            chain_id,
            account@,
            security_zone,
            seq![amount_zatoshi, fee_zatoshi],
            r->Err_0,
        ),
        r is Ok ==> cache_proven(
            backend,
            cache,
            chain_id,
            account@,
            security_zone,
            seq![amount_zatoshi, fee_zatoshi],
            r->Ok_0.encrypted_amount.proof_data@,
        ),
        r is Ok ==> is_transaction_payload(
            r->Ok_0,
            r->Ok_0.encrypted_amount.proof_data@,
            security_zone,
            transaction_type@,
            pool_type@,
            platform@,
        ),
{
    let ctx = EncryptionContext::new(cache, chain_id, account, security_zone)?;
    ctx.encrypt_transaction_payload(backend, amount_zatoshi, fee_zatoshi, transaction_type, pool_type, platform)
}

/// A successful single-value encryption is a one-element batch: its
/// identifier is `0x` and 64 hex digits for position 0 of its own proof
/// bytes, its tag is the 64-bit one, and it carries the caller's zone and an
/// empty signature.
pub proof fn lemma_encrypted_value_shape<K, C, L, B: ProofBackend<K, C, L>>(
    backend: &B,
    cache: &KeyCache<K, C>,
    chain_id: u64,
    account: String,
    value: u64,
    security_zone: u32,
    r: Result<EncryptedInput, FHEError>,
)
    requires
        call_ensures(encrypt_value::<K, C, L, B>, (backend, cache, chain_id, account, value, security_zone), r),
        r is Ok,
    ensures
        r->Ok_0.ct_hash@ == ct_hash_text(r->Ok_0.proof_data@, 0),
        r->Ok_0.ct_hash@.len() == 66,
        r->Ok_0.ct_hash@.subrange(0, 2) == hex_prefix(),
        r->Ok_0.utype == 5,
        r->Ok_0.security_zone == security_zone,
        r->Ok_0.signature@.len() == 0,
{
    let h = r->Ok_0.ct_hash@;
    assert(h.subrange(0, 2) =~= hex_prefix());
}

/// A chain whose key material the cache does not hold is reported as not
/// initialized, and every encryption on it fails with `NotInitialized`.
pub proof fn lemma_unloaded_chain_rejected<K, C, L, B: ProofBackend<K, C, L>>(
    backend: &B,
    cache: &KeyCache<K, C>,
    chain_id: u64,
    account: String,
    value: u64,
    security_zone: u32,
    initialized: bool,
    r: Result<EncryptedInput, FHEError>,
)
    requires
        !cache.holds(chain_id),
        call_ensures(is_initialized::<K, C>, (cache, chain_id), initialized),
        call_ensures(encrypt_value::<K, C, L, B>, (backend, cache, chain_id, account, value, security_zone), r),
    ensures
        !initialized,
        r is Err && r->Err_0 is NotInitialized,
{
}

/// After a successful load for `chain_id`, the chain is reported as
/// initialized and an encryption on it gets past key resolution, failing
/// only for a bad account or in the proving stages; a different chain that
/// was not held before is still rejected as not initialized.
pub proof fn lemma_load_initializes_only_its_chain<K, C, L, B: ProofBackend<K, C, L>>(
    backend: &B,
    before: KeyCache<K, C>,
    after: KeyCache<K, C>,
    chain_id: u64,
    other: u64,
    account: String,
    value: u64,
    security_zone: u32,
    initialized: bool,
    on_chain: Result<EncryptedInput, FHEError>,
    on_other: Result<EncryptedInput, FHEError>,
)
    requires
        installs(&before, &after, chain_id),
        other != chain_id,
        !before.holds(other),
        call_ensures(is_initialized::<K, C>, (&after, chain_id), initialized),
        call_ensures(
            encrypt_value::<K, C, L, B>,
            (backend, &after, chain_id, account, value, security_zone),
            on_chain,
        ),
        call_ensures(
            encrypt_value::<K, C, L, B>,
            (backend, &after, other, account, value, security_zone),
            on_other,
        ),
    ensures
        initialized,
        on_chain is Err ==> !(on_chain->Err_0 is NotInitialized),
        on_other is Err && on_other->Err_0 is NotInitialized,
{
}

/// The two encrypted inputs of a swap payload carry the same proof bytes, and
/// their identifiers are digests of different inputs.
pub proof fn lemma_swap_inputs_share_proof(
    p: EncryptedSwapPayload,
    proof_data: Seq<u8>,
    security_zone: u32,
    destination_asset: Seq<char>,
    platform: Seq<char>,
)
    requires
        is_swap_payload(p, proof_data, security_zone, destination_asset, platform),
    ensures
        p.encrypted_amount_in.proof_data@ == p.encrypted_fee.proof_data@,
        p.encrypted_amount_in.ct_hash@ == ct_hash_text(proof_data, 0),
        p.encrypted_fee.ct_hash@ == ct_hash_text(proof_data, 1),
        ct_hash_preimage(proof_data, 0) != ct_hash_preimage(proof_data, 1),
{
    lemma_ct_hash_preimages_distinct(proof_data, 0, 1);
}

/// Every two positions of a batch get identifiers that are digests of
/// different inputs, whatever values stand at those positions.
pub proof fn lemma_batch_identifiers_from_distinct_inputs(
    proof_data: Seq<u8>,
    hashes: Seq<String>,
    i: int,
    j: int,
)
    requires
        0 <= i < hashes.len(),
        0 <= j < hashes.len(),
        i != j,
        hashes.len() <= u64::MAX,
        forall|k: int| 0 <= k < hashes.len() ==> #[trigger] hashes[k]@ == ct_hash_text(proof_data, k as u64),
    ensures
        hashes[i]@ == prefixed_hex(keccak256_of(ct_hash_preimage(proof_data, i as u64))),
        hashes[j]@ == prefixed_hex(keccak256_of(ct_hash_preimage(proof_data, j as u64))),
        ct_hash_preimage(proof_data, i as u64) != ct_hash_preimage(proof_data, j as u64),
{
    lemma_ct_hash_preimages_distinct(proof_data, i as u64, j as u64);
}

} // verus!
