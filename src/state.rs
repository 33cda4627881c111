//! The persisted records of a rail, and the accounts they are read from.

use crate::bytes::is_zero32;
use vstd::prelude::*;

verus! {

/// Stamped into every new rail.
pub const PROTOCOL_VERSION: u8 = 2;

/// The seed (`"sol"`) that stands for the native currency in an asset vault's address.
pub const SOL_ASSET_SEED: [u8; 3] = [0x73, 0x6f, 0x6c];

/// 32 zero bytes: an address or a commitment never written.
pub const ZERO_32: [u8; 32] = [
    0, 0, 0, 0, 0, 0, 0, 0, 0, 0, 0, 0, 0, 0, 0, 0,
    0, 0, 0, 0, 0, 0, 0, 0, 0, 0, 0, 0, 0, 0, 0, 0,
];

/// 64 zero bytes: a ciphertext never written.
pub const ZERO_64: [u8; 64] = [
    0, 0, 0, 0, 0, 0, 0, 0, 0, 0, 0, 0, 0, 0, 0, 0,
    0, 0, 0, 0, 0, 0, 0, 0, 0, 0, 0, 0, 0, 0, 0, 0,
    0, 0, 0, 0, 0, 0, 0, 0, 0, 0, 0, 0, 0, 0, 0, 0,
    0, 0, 0, 0, 0, 0, 0, 0, 0, 0, 0, 0, 0, 0, 0, 0,
];

/// A 32-byte account address (a public key).
pub type Address = [u8; 32];

/// Whether `a` is the all-zero address, the value of a field never written.
pub open spec fn is_unset(a: Seq<u8>) -> bool {
    a == Seq::new(32, |i: int| 0u8)
}

/// The asset key of the native currency: 32 zero bytes.
pub fn sol_asset_key() -> (r: [u8; 32])
    ensures
        is_unset(r@),
{
    let r = [0u8; 32];
    assert(r@ =~= Seq::new(32, |i: int| 0u8));
    r
}

/// The asset key of a fungible token: its mint's address.
pub fn mint_asset_key(mint: &Address) -> (r: [u8; 32])
    ensures
        r == *mint,
{
    *mint
}

/// Whether `a` is the all-zero address.
pub fn address_unset(a: &Address) -> (r: bool)
    ensures
        r == is_unset(a@),
{
    is_zero32(a)
}

/// An authority-controlled namespace for confidential state.
#[derive(Clone, Copy, Debug)]
pub struct RailState {
    pub authority: Address,
    pub institution_type: u8,
    pub compliance_level: u8,
    pub is_sealed: bool,
    pub is_active: bool,
    pub is_paused: bool,
    pub audit_seal: [u8; 32],
    pub total_handshakes: u64,
    pub created_at: i64,
    pub sealed_at: i64,
    pub deactivated_at: i64,
    pub deactivation_reason: u8,
    pub version: u8,
}

/// The per-rail vault; its counters number the deposit records.
#[derive(Clone, Copy, Debug)]
pub struct ZkVault {
    pub rail: Address,
    pub elgamal_pubkey: [u8; 32],
    pub encrypted_balance: [u8; 64],
    pub balance_commitment: [u8; 32],
    pub deposit_count: u64,
    pub token_deposit_count: u64,
    pub bump: u8,
}

/// The encrypted balance and commitment of one asset on one rail.
#[derive(Clone, Copy, Debug)]
pub struct VaultAssetState {
    pub rail: Address,
    pub asset_key: [u8; 32],
    pub balance_commitment: [u8; 32],
    pub encrypted_balance: [u8; 64],
    pub updated_at: i64,
    pub bump: u8,
}

/// The credential that admits a commitment and nullifier pair to a rail.
#[derive(Clone, Copy, Debug)]
pub struct HandshakeState {
    pub rail: Address,
    pub commitment: [u8; 32],
    pub nullifier_hash: [u8; 32],
    pub is_active: bool,
    pub created_at: i64,
    pub revoked_at: i64,
}

/// The one-shot record of a spent nullifier.
#[derive(Clone, Copy, Debug)]
pub struct NullifierRegistry {
    pub rail: Address,
    pub nullifier_hash: [u8; 32],
    pub is_spent: bool,
    pub spent_at: i64,
}

/// The audit record of a native deposit.
#[derive(Clone, Copy, Debug)]
pub struct DepositRecord {
    pub rail: Address,
    pub sender: Address,
    pub encrypted_amount: [u8; 64],
    pub commitment: [u8; 32],
    pub is_withdrawn: bool,
    pub created_at: i64,
    pub withdrawn_at: i64,
    pub bump: u8,
}

/// The audit record of a token deposit.
#[derive(Clone, Copy, Debug)]
pub struct TokenDepositRecord {
    pub rail: Address,
    pub sender: Address,
    pub token_mint: Address,
    pub encrypted_amount: [u8; 64],
    pub commitment: [u8; 32],
    pub decimals: u8,
    pub is_withdrawn: bool,
    pub created_at: i64,
    pub withdrawn_at: i64,
    pub bump: u8,
}

/// The audit record of a confidential transfer between two rails.
#[derive(Clone, Copy, Debug)]
pub struct TransferRecord {
    pub sender_rail: Address,
    pub receiver_rail: Address,
    pub sender_commitment: [u8; 32],
    pub receiver_commitment: [u8; 32],
    pub nullifier_hash: [u8; 32],
    pub proof_hash: [u8; 32],
    pub is_token: bool,
    pub token_mint: Address,
    pub created_at: i64,
    pub bump: u8,
}

/// What the ledger reads of a fungible-token account.
#[derive(Clone, Copy, Debug)]
pub struct TokenAccount {
    pub owner: Address,
    pub mint: Address,
    pub amount: u64,
}

/// What the ledger reads of a fungible-token mint.
#[derive(Clone, Copy, Debug)]
pub struct Mint {
    pub key: Address,
    pub decimals: u8,
}

} // verus!
