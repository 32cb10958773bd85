//! The payloads handed back to callers.

use vstd::prelude::*;

verus! {

/// Where a chain's confidential-computation services are reached.
#[derive(Debug, Clone)]
pub struct ChainConfig {
    pub chain_id: u64,
    pub cofhe_url: String,
    pub verifier_url: String,
    pub threshold_network_url: String,
}

/// One proven ciphertext, addressed by its content identifier.
#[derive(Debug, Clone)]
pub struct EncryptedInput {
    pub ct_hash: String,
    pub security_zone: u32,
    pub utype: u8,
    pub signature: String,
    pub proof_data: Vec<u8>,
}

/// The two encrypted values of a swap and its plain tags.
#[derive(Debug, Clone)]
pub struct EncryptedSwapPayload {
    pub encrypted_amount_in: EncryptedInput,
    pub encrypted_fee: EncryptedInput,
    pub destination_asset: String,
    pub platform: String,
}

/// The two encrypted values of a transaction and its plain tags.
#[derive(Debug, Clone)]
pub struct EncryptedTransactionPayload {
    pub encrypted_amount: EncryptedInput,
    pub encrypted_fee: EncryptedInput,
    pub transaction_type: String,
    pub pool_type: String,
    pub platform: String,
}

/// The integer width that a ciphertext encodes.
#[derive(Debug, Clone, Copy, PartialEq, Eq, Structural)]
pub enum FheUintType {
    Uint8,
    Uint16,
    Uint32,
    Uint64,
    Uint128,
}

impl FheUintType {
    /// The wire tag of a width.
    pub open spec fn tag(self) -> u8 {
        match self {
            FheUintType::Uint8 => 2,
            FheUintType::Uint16 => 3,
            FheUintType::Uint32 => 4,
            FheUintType::Uint64 => 5,
            FheUintType::Uint128 => 6,
        }
    }

    /// The wire tag of this width.
    pub fn as_u8(&self) -> (r: u8)
        ensures
            r == self.tag(),
    {
        match self {
            FheUintType::Uint8 => 2,
            FheUintType::Uint16 => 3,
            FheUintType::Uint32 => 4,
            FheUintType::Uint64 => 5,
            FheUintType::Uint128 => 6,
        }
    }
}

/// A proof sent for verification on behalf of an account.
#[derive(Debug, Clone)]
pub struct VerifyRequest {
    pub proof: String,
    pub account: String,
    pub security_zone: u32,
    pub chain_id: u64,
}

/// A verifier's answer: the content identifier and its signature.
#[derive(Debug, Clone)]
pub struct VerifyResponse {
    pub ct_hash: String,
    pub signature: String,
}

/// A chain's public key and reference string as hex text.
#[derive(Debug, Clone)]
pub struct KeysResponse {
    pub public_key: String,
    pub crs: String,
}

} // verus!
