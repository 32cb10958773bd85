//! The encryption and proof library that the orchestration drives.

use vstd::prelude::*;

verus! {

/// A byte string as the spec functions below see it.
pub type ByteSeq = Seq<u8>;

/// A list of 64-bit plaintexts as the spec functions below see it.
pub type U64Seq = Seq<u64>;

/// The homomorphic-encryption and zero-knowledge proof library, as the
/// orchestration sees it: key material of type `K`, reference strings of type
/// `C`, and proven ciphertext lists of type `L`. Each implementation says,
/// through the spec functions below, what its results stand for; encryption
/// draws fresh randomness, so a proven list is not a function of its inputs.
pub trait ProofBackend<K, C, L> {
    /// `key` is what `bytes` encode as a public key.
    spec fn decodes_public_key(&self, bytes: Seq<u8>, key: K) -> bool;

    /// `crs` is what `bytes` encode as a proof reference string.
    spec fn decodes_crs(&self, bytes: Seq<u8>, crs: C) -> bool;

    /// `list` encrypts `values`, in order, under `public_key`, with one packed
    /// proof made with `crs` and bound to `metadata`.
    spec fn proves_u64(&self, list: L, public_key: K, crs: C, values: Seq<u64>, metadata: Seq<u8>) -> bool;

    /// `list` encrypts the single 128-bit `value` under `public_key`, with a
    /// packed proof made with `crs` and bound to `metadata`.
    spec fn proves_u128(&self, list: L, public_key: K, crs: C, value: u128, metadata: Seq<u8>) -> bool;

    /// `bytes` is the binary encoding of `list`.
    spec fn encodes(&self, list: L, bytes: Seq<u8>) -> bool;

    /// Decodes a public key from its binary encoding; fails only on bytes
    /// that encode no key.
    fn decode_public_key(&self, bytes: &[u8]) -> (r: Result<K, String>)
        ensures
            r is Ok ==> self.decodes_public_key(bytes@, r->Ok_0),
            r is Err ==> forall|k: K| !#[trigger] self.decodes_public_key(bytes@, k),
    ;

    /// Decodes a proof reference string from its binary encoding; fails only
    /// on bytes that encode no reference string.
    fn decode_crs(&self, bytes: &[u8]) -> (r: Result<C, String>)
        ensures
            r is Ok ==> self.decodes_crs(bytes@, r->Ok_0),
            r is Err ==> forall|c: C| !#[trigger] self.decodes_crs(bytes@, c),
    ;

    /// Encrypts 64-bit values in order under one packed proof bound to
    /// `metadata`, in the library's most rigorous proving mode.
    fn prove_packed_u64(
        &self,
        public_key: &K,
        crs: &C,
        values: &[u64],
        metadata: &[u8],
    ) -> (r: Result<L, String>)
        ensures
            r is Ok ==> self.proves_u64(r->Ok_0, *public_key, *crs, values@, metadata@),
    ;

    /// Encrypts one 128-bit value under a packed proof bound to `metadata`,
    /// in the library's most rigorous proving mode.
    fn prove_packed_u128(
        &self,
        public_key: &K,
        crs: &C,
        value: u128,
        metadata: &[u8],
    ) -> (r: Result<L, String>)
        ensures
            r is Ok ==> self.proves_u128(r->Ok_0, *public_key, *crs, value, metadata@),
    ;

    /// The binary encoding of a proven list.
    fn serialize_list(&self, list: &L) -> (r: Result<Vec<u8>, String>)
        ensures
            r is Ok ==> self.encodes(*list, r->Ok_0@),
    ;
}

} // verus!
