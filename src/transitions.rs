//! The confidential transitions: deposits, transfers and withdrawals of the
//! native currency and of fungible tokens.
//!
//! Each one is split in two. `apply_*` takes the verifier's verdict as an
//! argument and decides everything else; the entry point of the same name
//! without the prefix checks the accounts, runs the verifier on the right
//! key and public inputs, and hands its verdict on. Moving custody (the
//! native or token transfer into the vault) is left to the caller once the
//! transition has succeeded; native withdrawals move lamports here.

use crate::bytes::{eq32, take_bytes};
use crate::error::SentinelError;
use crate::groth16::{
    amount_field, amount_to_field, groth16_outcome, parse_proof, verify, GROTH16_PROOF_SIZE,
};
use crate::rail::outcome;
use crate::state::{
    address_unset, is_unset, mint_asset_key, sol_asset_key, Address, DepositRecord, HandshakeState, Mint,
    NullifierRegistry, RailState, TokenAccount, TokenDepositRecord, TransferRecord, VaultAssetState, ZkVault,
    ZERO_32,
};
use crate::vk::{commitment_key, commitment_vk, transfer_key, transfer_vk, withdraw_key, withdraw_vk};
use vstd::prelude::*;

verus! {

/// The failure, if any, that a verifier verdict stands for.
pub open spec fn verdict_failure(verdict: Result<bool, SentinelError>) -> Option<SentinelError> {
    match verdict {
        Err(e) => Some(e),
        Ok(false) => Some(SentinelError::InvalidZkProof),
        Ok(true) => None,
    }
}

fn verdict_check(verdict: Result<bool, SentinelError>) -> (r: Option<SentinelError>)
    ensures
        r == verdict_failure(verdict),
{
    match verdict {
        Err(e) => Some(e),
        Ok(false) => Some(SentinelError::InvalidZkProof),
        Ok(true) => None,
    }
}

/// The verdict on a deposit proof: key of deposits, inputs
/// `[commitment, nullifier_hash]`.
pub open spec fn deposit_verdict(
    proof: [u8; GROTH16_PROOF_SIZE],
    commitment: [u8; 32],
    nullifier_hash: [u8; 32],
) -> Result<bool, SentinelError> {
    groth16_outcome(proof@, seq![commitment@, nullifier_hash@], commitment_key())
}

/// The verdict on a transfer proof: key of transfers, the four commitments
/// then the nullifier.
pub open spec fn transfer_verdict(
    proof: [u8; GROTH16_PROOF_SIZE],
    sender_before: [u8; 32],
    sender_after: [u8; 32],
    receiver_before: [u8; 32],
    receiver_after: [u8; 32],
    nullifier_hash: [u8; 32],
) -> Result<bool, SentinelError> {
    groth16_outcome(
        proof@,
        seq![sender_before@, sender_after@, receiver_before@, receiver_after@, nullifier_hash@],
        transfer_key(),
    )
}

/// The verdict on a withdrawal proof: key of withdrawals, inputs
/// `[before, after, amount_field(amount), nullifier_hash]`.
pub open spec fn withdraw_verdict(
    proof: [u8; GROTH16_PROOF_SIZE],
    before: [u8; 32],
    after: [u8; 32],
    amount: u64,
    nullifier_hash: [u8; 32],
) -> Result<bool, SentinelError> {
    groth16_outcome(
        proof@,
        seq![before@, after@, amount_field(amount), nullifier_hash@],
        withdraw_key(),
    )
}

fn verify_deposit(proof: &[u8; GROTH16_PROOF_SIZE], commitment: &[u8; 32], nullifier_hash: &[u8; 32]) -> (r: Result<
    bool,
    SentinelError,
>)
    ensures
        r == deposit_verdict(*proof, *commitment, *nullifier_hash),
{
    let p = parse_proof(proof);
    let vk = commitment_vk();
    let inputs: [[u8; 32]; 2] = [*commitment, *nullifier_hash];
    proof {
        assert(crate::groth16::field_inputs(inputs@) =~= seq![commitment@, nullifier_hash@]);
    }
    verify(&p, inputs.as_slice(), &vk)
}

fn verify_transfer(
    proof: &[u8; GROTH16_PROOF_SIZE],
    sender_before: &[u8; 32],
    sender_after: &[u8; 32],
    receiver_before: &[u8; 32],
    receiver_after: &[u8; 32],
    nullifier_hash: &[u8; 32],
) -> (r: Result<bool, SentinelError>)
    ensures
        r == transfer_verdict(
            *proof,
            *sender_before,
            *sender_after,
            *receiver_before,
            *receiver_after,
            *nullifier_hash,
        ),
{
    let p = parse_proof(proof);
    let vk = transfer_vk();
    let inputs: [[u8; 32]; 5] = [
        *sender_before,
        *sender_after,
        *receiver_before,
        *receiver_after,
        *nullifier_hash,
    ];
    proof {
        assert(crate::groth16::field_inputs(inputs@) =~= seq![
            sender_before@,
            sender_after@,
            receiver_before@,
            receiver_after@,
            nullifier_hash@,
        ]);
    }
    verify(&p, inputs.as_slice(), &vk)
}

fn verify_withdraw(
    proof: &[u8; GROTH16_PROOF_SIZE],
    before: &[u8; 32],
    after: &[u8; 32],
    amount: u64,
    nullifier_hash: &[u8; 32],
) -> (r: Result<bool, SentinelError>)
    ensures
        r == withdraw_verdict(*proof, *before, *after, amount, *nullifier_hash),
{
    let p = parse_proof(proof);
    let vk = withdraw_vk();
    let amount_bytes = amount_to_field(amount);
    let inputs: [[u8; 32]; 4] = [*before, *after, amount_bytes, *nullifier_hash];
    proof {
        assert(crate::groth16::field_inputs(inputs@) =~= seq![
            before@,
            after@,
            amount_field(amount),
            nullifier_hash@,
        ]);
    }
    verify(&p, inputs.as_slice(), &vk)
}

/// Why an asset state cannot take a deposit of the asset `asset_key` on
/// `rail`: it was created for another rail or asset.
pub open spec fn asset_state_failure(
    s: VaultAssetState,
    rail: Address,
    asset_key: [u8; 32],
) -> Option<SentinelError> {
    if !is_unset(s.rail@) && (s.rail != rail || s.asset_key != asset_key) {
        Some(SentinelError::InvalidAssetState)
    } else {
        None
    }
}

/// An asset state after a deposit: created if never written, then set to
/// the deposit's commitment and ciphertext.
pub open spec fn credited_asset_state(
    s: VaultAssetState,
    rail: Address,
    asset_key: [u8; 32],
    bump: u8,
    commitment: [u8; 32],
    encrypted_balance: [u8; 64],
    now: i64,
) -> VaultAssetState {
    let base = if is_unset(s.rail@) {
        VaultAssetState { rail, asset_key, bump, ..s }
    } else {
        s
    };
    VaultAssetState { balance_commitment: commitment, encrypted_balance, updated_at: now, ..base }
}

fn asset_state_check(s: &VaultAssetState, rail: &Address, asset_key: &[u8; 32]) -> (r: Option<
    SentinelError,
>)
    ensures
        r == asset_state_failure(*s, *rail, *asset_key),
{
    if !address_unset(&s.rail) && (!eq32(&s.rail, rail) || !eq32(&s.asset_key, asset_key)) {
        Some(SentinelError::InvalidAssetState)
    } else {
        None
    }
}

fn credit_asset_state(
    s: &mut VaultAssetState,
    rail: &Address,
    asset_key: &[u8; 32],
    bump: u8,
    commitment: [u8; 32],
    encrypted_balance: [u8; 64],
    now: i64,
)
    ensures
        *final(s) == credited_asset_state(
            *old(s),
            *rail,
            *asset_key,
            bump,
            commitment,
            encrypted_balance,
            now,
        ),
{
    if address_unset(&s.rail) {
        s.rail = *rail;
        s.asset_key = *asset_key;
        s.bump = bump;
    }
    s.balance_commitment = commitment;
    s.encrypted_balance = encrypted_balance;
    s.updated_at = now;
}

/// Accounts of `deposit`. `deposit_record` is the record being created, at
/// the address numbered by `zk_vault.deposit_count`; `sol_asset_state` is
/// created on the first deposit.
#[derive(Clone, Copy, Debug)]
pub struct Deposit {
    pub rail: RailState,
    pub rail_key: Address,
    pub zk_vault: ZkVault,
    pub sol_asset_state: VaultAssetState,
    pub sol_asset_state_bump: u8,
    pub handshake: HandshakeState,
    pub deposit_record: DepositRecord,
    pub deposit_record_bump: u8,
    pub sender: Address,
    pub authority: Address,
    pub now: i64,
}

/// The checks of a deposit made before its proof is looked at.
pub open spec fn deposit_precheck(c: Deposit, amount: u64) -> Option<SentinelError> {
    if !c.rail.is_active {
        Some(SentinelError::RailInactive)
    } else if c.rail.authority != c.authority {
        Some(SentinelError::Unauthorized)
    } else if c.handshake.rail != c.rail_key {
        Some(SentinelError::InvalidRail)
    } else if !c.handshake.is_active {
        Some(SentinelError::HandshakeAlreadyRevoked)
    } else if amount == 0 {
        Some(SentinelError::InvalidAmount)
    } else if c.rail.is_paused {
        Some(SentinelError::RailPaused)
    } else {
        None
    }
}

/// The first failure of a deposit, given the verdict on its proof.
pub open spec fn deposit_failure(
    c: Deposit,
    amount: u64,
    verdict: Result<bool, SentinelError>,
) -> Option<SentinelError> {
    if deposit_precheck(c, amount) is Some {
        deposit_precheck(c, amount)
    } else if verdict_failure(verdict) is Some {
        verdict_failure(verdict)
    } else if asset_state_failure(c.sol_asset_state, c.rail_key, ZERO_32) is Some {
        asset_state_failure(c.sol_asset_state, c.rail_key, ZERO_32)
    } else if c.zk_vault.deposit_count == u64::MAX {
        Some(SentinelError::Overflow)
    } else {
        None
    }
}

/// The accounts after a successful deposit.
pub open spec fn deposit_after(c: Deposit, commitment: [u8; 32], encrypted_amount: [u8; 64]) -> Deposit {
    Deposit {
        deposit_record: DepositRecord {
            rail: c.rail_key,
            sender: c.sender,
            encrypted_amount,
            commitment,
            is_withdrawn: false,
            created_at: c.now,
            withdrawn_at: 0,
            bump: c.deposit_record_bump,
        },
        sol_asset_state: credited_asset_state(
            c.sol_asset_state,
            c.rail_key,
            ZERO_32,
            c.sol_asset_state_bump,
            commitment,
            encrypted_amount,
            c.now,
        ),
        zk_vault: ZkVault { deposit_count: (c.zk_vault.deposit_count + 1) as u64, ..c.zk_vault },
        ..c
    }
}

fn deposit_check(c: &Deposit, amount: u64) -> (r: Option<SentinelError>)
    ensures
        r == deposit_precheck(*c, amount),
{
    if !c.rail.is_active {
        Some(SentinelError::RailInactive)
    } else if !eq32(&c.rail.authority, &c.authority) {
        Some(SentinelError::Unauthorized)
    } else if !eq32(&c.handshake.rail, &c.rail_key) {
        Some(SentinelError::InvalidRail)
    } else if !c.handshake.is_active {
        Some(SentinelError::HandshakeAlreadyRevoked)
    } else if amount == 0 {
        Some(SentinelError::InvalidAmount)
    } else if c.rail.is_paused {
        Some(SentinelError::RailPaused)
    } else {
        None
    }
}

/// A native deposit of `amount`, given the verdict on its proof.
pub fn apply_deposit(
    ctx: &mut Deposit,
    amount: u64,
    commitment: [u8; 32],
    encrypted_amount: [u8; 64],
    verdict: Result<bool, SentinelError>,
) -> (r: Result<(), SentinelError>)
    ensures
        r == outcome(deposit_failure(*old(ctx), amount, verdict)),
        r is Err ==> *final(ctx) == *old(ctx),
        r is Ok ==> *final(ctx) == deposit_after(*old(ctx), commitment, encrypted_amount),
{
    match deposit_check(ctx, amount) {
        Some(e) => return Err(e),
        None => {},
    }
    match verdict_check(verdict) {
        Some(e) => return Err(e),
        None => {},
    }
    let native = sol_asset_key();
    assert(native == ZERO_32);
    match asset_state_check(&ctx.sol_asset_state, &ctx.rail_key, &native) {
        Some(e) => return Err(e),
        None => {},
    }
    let count = match ctx.zk_vault.deposit_count.checked_add(1) {
        Some(n) => n,
        None => return Err(SentinelError::Overflow),
    };
    ctx.deposit_record = DepositRecord {
        rail: ctx.rail_key,
        sender: ctx.sender,
        encrypted_amount,
        commitment,
        is_withdrawn: false,
        created_at: ctx.now,
        withdrawn_at: 0,
        bump: ctx.deposit_record_bump,
    };
    let rail_key = ctx.rail_key;
    credit_asset_state(
        &mut ctx.sol_asset_state,
        &rail_key,
        &native,
        ctx.sol_asset_state_bump,
        commitment,
        encrypted_amount,
        ctx.now,
    );
    ctx.zk_vault.deposit_count = count;
    Ok(())
}

/// Deposits `amount` of the native currency against a proof that
/// `commitment` and `nullifier_hash` are well formed. On success the caller
/// moves `amount` from the sender into the rail's vault pool.
pub fn deposit(
    ctx: &mut Deposit,
    amount: u64,
    proof: [u8; GROTH16_PROOF_SIZE],
    commitment: [u8; 32],
    nullifier_hash: [u8; 32],
    encrypted_amount: [u8; 64],
) -> (r: Result<(), SentinelError>)
    ensures
        r == outcome(
            deposit_failure(*old(ctx), amount, deposit_verdict(proof, commitment, nullifier_hash)),
        ),
        r is Err ==> *final(ctx) == *old(ctx),
        r is Ok ==> *final(ctx) == deposit_after(*old(ctx), commitment, encrypted_amount),
{
    match deposit_check(ctx, amount) {
        Some(e) => return Err(e),
        None => {},
    }
    let verdict = verify_deposit(&proof, &commitment, &nullifier_hash);
    apply_deposit(ctx, amount, commitment, encrypted_amount, verdict)
}

/// The transfer nonce is a strictly positive 64-bit integer.
pub open spec fn nonce_failure(transfer_nonce: i64) -> Option<SentinelError> {
    if transfer_nonce <= 0 {
        Some(SentinelError::InvalidTransferNonce)
    } else {
        None
    }
}

/// Why an asset state is not the one of `asset_key` on `rail`.
pub open spec fn asset_binding_failure(
    s: VaultAssetState,
    rail: Address,
    asset_key: [u8; 32],
) -> Option<SentinelError> {
    if s.rail != rail || s.asset_key != asset_key {
        Some(SentinelError::InvalidAssetState)
    } else {
        None
    }
}

fn asset_binding_check(s: &VaultAssetState, rail: &Address, asset_key: &[u8; 32]) -> (r: Option<
    SentinelError,
>)
    ensures
        r == asset_binding_failure(*s, *rail, *asset_key),
{
    if !eq32(&s.rail, rail) || !eq32(&s.asset_key, asset_key) {
        Some(SentinelError::InvalidAssetState)
    } else {
        None
    }
}

/// An asset state after a transfer or withdrawal has replaced its balance.
pub open spec fn rebalanced(
    s: VaultAssetState,
    commitment: [u8; 32],
    encrypted_balance: [u8; 64],
    now: i64,
) -> VaultAssetState {
    VaultAssetState { balance_commitment: commitment, encrypted_balance, updated_at: now, ..s }
}

/// Accounts of `confidential_transfer`. `transfer_record` is the record
/// being created, at the address of `(sender rail, receiver rail, nonce)`.
#[derive(Clone, Copy, Debug)]
pub struct ConfidentialTransfer {
    pub sender_rail: RailState,
    pub sender_rail_key: Address,
    pub receiver_rail: RailState,
    pub receiver_rail_key: Address,
    pub sender_sol_asset_state: VaultAssetState,
    pub receiver_sol_asset_state: VaultAssetState,
    pub transfer_record: TransferRecord,
    pub transfer_record_bump: u8,
    pub authority: Address,
    pub receiver_authority: Address,
    pub now: i64,
}

/// The checks of a transfer between two rails, over their rails, asset
/// states (of `asset_key`) and commitments, made before its proof is looked at.
pub open spec fn rails_precheck(
    sender_rail: RailState,
    sender_rail_key: Address,
    receiver_rail: RailState,
    receiver_rail_key: Address,
    sender_state: VaultAssetState,
    receiver_state: VaultAssetState,
    asset_key: [u8; 32],
    authority: Address,
    receiver_authority: Address,
    transfer_nonce: i64,
    sender_before: [u8; 32],
    receiver_before: [u8; 32],
) -> Option<SentinelError> {
    if !sender_rail.is_active || !receiver_rail.is_active {
        Some(SentinelError::RailInactive)
    } else if sender_rail.authority != authority {
        Some(SentinelError::Unauthorized)
    } else if receiver_rail.authority != receiver_authority {
        Some(SentinelError::Unauthorized)
    } else if asset_binding_failure(sender_state, sender_rail_key, asset_key) is Some {
        asset_binding_failure(sender_state, sender_rail_key, asset_key)
    } else if asset_binding_failure(receiver_state, receiver_rail_key, asset_key) is Some {
        asset_binding_failure(receiver_state, receiver_rail_key, asset_key)
    } else if sender_rail.is_paused || receiver_rail.is_paused {
        Some(SentinelError::RailPaused)
    } else if nonce_failure(transfer_nonce) is Some {
        nonce_failure(transfer_nonce)
    } else if sender_state.balance_commitment != sender_before
        || receiver_state.balance_commitment != receiver_before {
        Some(SentinelError::CommitmentMismatch)
    } else {
        None
    }
}

fn rails_check(
    sender_rail: &RailState,
    sender_rail_key: &Address,
    receiver_rail: &RailState,
    receiver_rail_key: &Address,
    sender_state: &VaultAssetState,
    receiver_state: &VaultAssetState,
    asset_key: &[u8; 32],
    authority: &Address,
    receiver_authority: &Address,
    transfer_nonce: i64,
    sender_before: &[u8; 32],
    receiver_before: &[u8; 32],
) -> (r: Option<SentinelError>)
    ensures
        r == rails_precheck(
            *sender_rail,
            *sender_rail_key,
            *receiver_rail,
            *receiver_rail_key,
            *sender_state,
            *receiver_state,
            *asset_key,
            *authority,
            *receiver_authority,
            transfer_nonce,
            *sender_before,
            *receiver_before,
        ),
{
    if !sender_rail.is_active || !receiver_rail.is_active {
        return Some(SentinelError::RailInactive);
    }
    if !eq32(&sender_rail.authority, authority) {
        return Some(SentinelError::Unauthorized);
    }
    if !eq32(&receiver_rail.authority, receiver_authority) {
        return Some(SentinelError::Unauthorized);
    }
    match asset_binding_check(sender_state, sender_rail_key, asset_key) {
        Some(e) => return Some(e),
        None => {},
    }
    match asset_binding_check(receiver_state, receiver_rail_key, asset_key) {
        Some(e) => return Some(e),
        None => {},
    }
    if sender_rail.is_paused || receiver_rail.is_paused {
        return Some(SentinelError::RailPaused);
    }
    if transfer_nonce <= 0 {
        return Some(SentinelError::InvalidTransferNonce);
    }
    if !eq32(&sender_state.balance_commitment, sender_before) || !eq32(
        &receiver_state.balance_commitment,
        receiver_before,
    ) {
        return Some(SentinelError::CommitmentMismatch);
    }
    None
}

pub open spec fn confidential_transfer_precheck(
    c: ConfidentialTransfer,
    transfer_nonce: i64,
    sender_before: [u8; 32],
    receiver_before: [u8; 32],
) -> Option<SentinelError> {
    rails_precheck(
        c.sender_rail,
        c.sender_rail_key,
        c.receiver_rail,
        c.receiver_rail_key,
        c.sender_sol_asset_state,
        c.receiver_sol_asset_state,
        ZERO_32,
        c.authority,
        c.receiver_authority,
        transfer_nonce,
        sender_before,
        receiver_before,
    )
}

/// The first failure of a native transfer, given the verdict on its proof.
pub open spec fn confidential_transfer_failure(
    c: ConfidentialTransfer,
    transfer_nonce: i64,
    sender_before: [u8; 32],
    receiver_before: [u8; 32],
    verdict: Result<bool, SentinelError>,
) -> Option<SentinelError> {
    if confidential_transfer_precheck(c, transfer_nonce, sender_before, receiver_before) is Some {
        confidential_transfer_precheck(c, transfer_nonce, sender_before, receiver_before)
    } else {
        verdict_failure(verdict)
    }
}

/// The accounts after a successful native transfer; `proof_hash` is the
/// proof's first 32 bytes.
pub open spec fn confidential_transfer_after(
    c: ConfidentialTransfer,
    sender_after: [u8; 32],
    receiver_after: [u8; 32],
    nullifier_hash: [u8; 32],
    new_sender_encrypted_balance: [u8; 64],
    new_receiver_encrypted_balance: [u8; 64],
    proof_hash: [u8; 32],
) -> ConfidentialTransfer {
    ConfidentialTransfer {
        sender_sol_asset_state: rebalanced(
            c.sender_sol_asset_state,
            sender_after,
            new_sender_encrypted_balance,
            c.now,
        ),
        receiver_sol_asset_state: rebalanced(
            c.receiver_sol_asset_state,
            receiver_after,
            new_receiver_encrypted_balance,
            c.now,
        ),
        transfer_record: TransferRecord {
            sender_rail: c.sender_rail_key,
            receiver_rail: c.receiver_rail_key,
            sender_commitment: sender_after,
            receiver_commitment: receiver_after,
            nullifier_hash,
            proof_hash,
            is_token: false,
            token_mint: ZERO_32,
            created_at: c.now,
            bump: c.transfer_record_bump,
        },
        ..c
    }
}

fn confidential_transfer_check(
    c: &ConfidentialTransfer,
    transfer_nonce: i64,
    sender_before: &[u8; 32],
    receiver_before: &[u8; 32],
) -> (r: Option<SentinelError>)
    ensures
        r == confidential_transfer_precheck(*c, transfer_nonce, *sender_before, *receiver_before),
{
    let native = sol_asset_key();
    assert(native == ZERO_32);
    rails_check(
        &c.sender_rail,
        &c.sender_rail_key,
        &c.receiver_rail,
        &c.receiver_rail_key,
        &c.sender_sol_asset_state,
        &c.receiver_sol_asset_state,
        &native,
        &c.authority,
        &c.receiver_authority,
        transfer_nonce,
        sender_before,
        receiver_before,
    )
}

/// A native transfer between two rails, given the verdict on its proof.
pub fn apply_confidential_transfer(
    ctx: &mut ConfidentialTransfer,
    transfer_nonce: i64,
    proof: [u8; GROTH16_PROOF_SIZE],
    sender_commitment_before: [u8; 32],
    sender_commitment_after: [u8; 32],
    receiver_commitment_before: [u8; 32],
    receiver_commitment_after: [u8; 32],
    nullifier_hash: [u8; 32],
    new_sender_encrypted_balance: [u8; 64],
    new_receiver_encrypted_balance: [u8; 64],
    verdict: Result<bool, SentinelError>,
) -> (r: Result<(), SentinelError>)
    ensures
        r == outcome(
            confidential_transfer_failure(
                *old(ctx),
                transfer_nonce,
                sender_commitment_before,
                receiver_commitment_before,
                verdict,
            ),
        ),
        r is Err ==> *final(ctx) == *old(ctx),
        r is Ok ==> *final(ctx) == confidential_transfer_after(
            *old(ctx),
            sender_commitment_after,
            receiver_commitment_after,
            nullifier_hash,
            new_sender_encrypted_balance,
            new_receiver_encrypted_balance,
            final(ctx).transfer_record.proof_hash,
        ),
        r is Ok ==> final(ctx).transfer_record.proof_hash@ == proof@.subrange(0, 32),
{
    match confidential_transfer_check(
        ctx,
        transfer_nonce,
        &sender_commitment_before,
        &receiver_commitment_before,
    ) {
        Some(e) => return Err(e),
        None => {},
    }
    match verdict_check(verdict) {
        Some(e) => return Err(e),
        None => {},
    }
    let proof_hash: [u8; 32] = take_bytes(proof.as_slice(), 0);
    ctx.sender_sol_asset_state.balance_commitment = sender_commitment_after;
    ctx.sender_sol_asset_state.encrypted_balance = new_sender_encrypted_balance;
    ctx.sender_sol_asset_state.updated_at = ctx.now;
    ctx.receiver_sol_asset_state.balance_commitment = receiver_commitment_after;
    ctx.receiver_sol_asset_state.encrypted_balance = new_receiver_encrypted_balance;
    ctx.receiver_sol_asset_state.updated_at = ctx.now;
    ctx.transfer_record = TransferRecord {
        sender_rail: ctx.sender_rail_key,
        receiver_rail: ctx.receiver_rail_key,
        sender_commitment: sender_commitment_after,
        receiver_commitment: receiver_commitment_after,
        nullifier_hash,
        proof_hash,
        is_token: false,
        token_mint: ZERO_32,
        created_at: ctx.now,
        bump: ctx.transfer_record_bump,
    };
    Ok(())
}

/// Transfers a hidden amount of the native currency between two rails
/// against a proof over both balances' commitments before and after.
pub fn confidential_transfer(
    ctx: &mut ConfidentialTransfer,
    transfer_nonce: i64,
    proof: [u8; GROTH16_PROOF_SIZE],
    sender_commitment_before: [u8; 32],
    sender_commitment_after: [u8; 32],
    receiver_commitment_before: [u8; 32],
    receiver_commitment_after: [u8; 32],
    nullifier_hash: [u8; 32],
    new_sender_encrypted_balance: [u8; 64],
    new_receiver_encrypted_balance: [u8; 64],
) -> (r: Result<(), SentinelError>)
    ensures
        r == outcome(
            confidential_transfer_failure(
                *old(ctx),
                transfer_nonce,
                sender_commitment_before,
                receiver_commitment_before,
                transfer_verdict(
                    proof,
                    sender_commitment_before,
                    sender_commitment_after,
                    receiver_commitment_before,
                    receiver_commitment_after,
                    nullifier_hash,
                ),
            ),
        ),
        r is Err ==> *final(ctx) == *old(ctx),
        r is Ok ==> *final(ctx) == confidential_transfer_after(
            *old(ctx),
            sender_commitment_after,
            receiver_commitment_after,
            nullifier_hash,
            new_sender_encrypted_balance,
            new_receiver_encrypted_balance,
            final(ctx).transfer_record.proof_hash,
        ),
        r is Ok ==> final(ctx).transfer_record.proof_hash@ == proof@.subrange(0, 32),
{
    match confidential_transfer_check(
        ctx,
        transfer_nonce,
        &sender_commitment_before,
        &receiver_commitment_before,
    ) {
        Some(e) => return Err(e),
        None => {},
    }
    let verdict = verify_transfer(
        &proof,
        &sender_commitment_before,
        &sender_commitment_after,
        &receiver_commitment_before,
        &receiver_commitment_after,
        &nullifier_hash,
    );
    apply_confidential_transfer(
        ctx,
        transfer_nonce,
        proof,
        sender_commitment_before,
        sender_commitment_after,
        receiver_commitment_before,
        receiver_commitment_after,
        nullifier_hash,
        new_sender_encrypted_balance,
        new_receiver_encrypted_balance,
        verdict,
    )
}

/// The registry record of a nullifier once a withdrawal has spent it.
pub open spec fn spent_nullifier(rail: Address, nullifier_hash: [u8; 32], now: i64) -> NullifierRegistry {
    NullifierRegistry { rail, nullifier_hash, is_spent: true, spent_at: now }
}

/// Accounts of `withdraw`: the rail's native asset state, the deposit
/// record being closed, the registry record of the proof's nullifier, and
/// the lamport balances of the vault pool and the receiver.
/// `vault_pool_owned` tells whether the pool belongs to this program.
#[derive(Clone, Copy, Debug)]
pub struct Withdraw {
    pub rail: RailState,
    pub rail_key: Address,
    pub sol_asset_state: VaultAssetState,
    pub deposit_record: DepositRecord,
    pub nullifier_registry: NullifierRegistry,
    pub vault_pool_lamports: u64,
    pub vault_pool_owned: bool,
    pub receiver_lamports: u64,
    pub authority: Address,
    pub now: i64,
}

/// The checks of a native withdrawal made before its proof is looked at.
pub open spec fn withdraw_precheck(c: Withdraw, amount: u64, before: [u8; 32]) -> Option<
    SentinelError,
> {
    if !c.rail.is_active {
        Some(SentinelError::RailInactive)
    } else if asset_binding_failure(c.sol_asset_state, c.rail_key, ZERO_32) is Some {
        asset_binding_failure(c.sol_asset_state, c.rail_key, ZERO_32)
    } else if c.deposit_record.rail != c.rail_key {
        Some(SentinelError::InvalidRail)
    } else if c.deposit_record.is_withdrawn {
        Some(SentinelError::AlreadyWithdrawn)
    } else if !c.vault_pool_owned {
        Some(SentinelError::InvalidVaultPoolOwner)
    } else if c.rail.authority != c.authority {
        Some(SentinelError::Unauthorized)
    } else if amount == 0 {
        Some(SentinelError::InvalidAmount)
    } else if c.rail.is_paused {
        Some(SentinelError::RailPaused)
    } else if c.sol_asset_state.balance_commitment != before {
        Some(SentinelError::CommitmentMismatch)
    } else if c.nullifier_registry.is_spent {
        Some(SentinelError::NullifierAlreadyUsed)
    } else {
        None
    }
}

/// The first failure of a native withdrawal, given the verdict on its proof.
pub open spec fn withdraw_failure(
    c: Withdraw,
    amount: u64,
    before: [u8; 32],
    verdict: Result<bool, SentinelError>,
) -> Option<SentinelError> {
    if withdraw_precheck(c, amount, before) is Some {
        withdraw_precheck(c, amount, before)
    } else if verdict_failure(verdict) is Some {
        verdict_failure(verdict)
    } else if c.vault_pool_lamports < amount {
        Some(SentinelError::InsufficientVaultBalance)
    } else if c.receiver_lamports + amount > u64::MAX {
        Some(SentinelError::Overflow)
    } else {
        None
    }
}

/// The accounts after a successful native withdrawal: lamports moved, the
/// balance replaced, the deposit record closed and the nullifier spent.
pub open spec fn withdraw_after(
    c: Withdraw,
    amount: u64,
    after: [u8; 32],
    nullifier_hash: [u8; 32],
    new_encrypted_balance: [u8; 64],
) -> Withdraw {
    Withdraw {
        nullifier_registry: spent_nullifier(c.rail_key, nullifier_hash, c.now),
        vault_pool_lamports: (c.vault_pool_lamports - amount) as u64,
        receiver_lamports: (c.receiver_lamports + amount) as u64,
        sol_asset_state: rebalanced(c.sol_asset_state, after, new_encrypted_balance, c.now),
        deposit_record: DepositRecord { is_withdrawn: true, withdrawn_at: c.now, ..c.deposit_record },
        ..c
    }
}

fn withdraw_check(c: &Withdraw, amount: u64, before: &[u8; 32]) -> (r: Option<SentinelError>)
    ensures
        r == withdraw_precheck(*c, amount, *before),
{
    if !c.rail.is_active {
        return Some(SentinelError::RailInactive);
    }
    let native = sol_asset_key();
    assert(native == ZERO_32);
    match asset_binding_check(&c.sol_asset_state, &c.rail_key, &native) {
        Some(e) => return Some(e),
        None => {},
    }
    if !eq32(&c.deposit_record.rail, &c.rail_key) {
        return Some(SentinelError::InvalidRail);
    }
    if c.deposit_record.is_withdrawn {
        return Some(SentinelError::AlreadyWithdrawn);
    }
    if !c.vault_pool_owned {
        return Some(SentinelError::InvalidVaultPoolOwner);
    }
    if !eq32(&c.rail.authority, &c.authority) {
        return Some(SentinelError::Unauthorized);
    }
    if amount == 0 {
        return Some(SentinelError::InvalidAmount);
    }
    if c.rail.is_paused {
        return Some(SentinelError::RailPaused);
    }
    if !eq32(&c.sol_asset_state.balance_commitment, before) {
        return Some(SentinelError::CommitmentMismatch);
    }
    if c.nullifier_registry.is_spent {
        return Some(SentinelError::NullifierAlreadyUsed);
    }
    None
}

/// A native withdrawal of `amount`, given the verdict on its proof.
pub fn apply_withdraw(
    ctx: &mut Withdraw,
    amount: u64,
    balance_commitment_before: [u8; 32],
    balance_commitment_after: [u8; 32],
    nullifier_hash: [u8; 32],
    new_encrypted_balance: [u8; 64],
    verdict: Result<bool, SentinelError>,
) -> (r: Result<(), SentinelError>)
    ensures
        r == outcome(withdraw_failure(*old(ctx), amount, balance_commitment_before, verdict)),
        r is Err ==> *final(ctx) == *old(ctx),
        r is Ok ==> *final(ctx) == withdraw_after(
            *old(ctx),
            amount,
            balance_commitment_after,
            nullifier_hash,
            new_encrypted_balance,
        ),
{
    match withdraw_check(ctx, amount, &balance_commitment_before) {
        Some(e) => return Err(e),
        None => {},
    }
    match verdict_check(verdict) {
        Some(e) => return Err(e),
        None => {},
    }
    if ctx.vault_pool_lamports < amount {
        return Err(SentinelError::InsufficientVaultBalance);
    }
    let credited = match ctx.receiver_lamports.checked_add(amount) {
        Some(v) => v,
        None => return Err(SentinelError::Overflow),
    };
    ctx.vault_pool_lamports = ctx.vault_pool_lamports - amount;
    ctx.receiver_lamports = credited;
    ctx.sol_asset_state.balance_commitment = balance_commitment_after;
    ctx.sol_asset_state.encrypted_balance = new_encrypted_balance;
    ctx.sol_asset_state.updated_at = ctx.now;
    ctx.deposit_record.is_withdrawn = true;
    ctx.deposit_record.withdrawn_at = ctx.now;
    ctx.nullifier_registry = NullifierRegistry {
        rail: ctx.rail_key,
        nullifier_hash,
        is_spent: true,
        spent_at: ctx.now,
    };
    Ok(())
}

/// Withdraws `amount` of the native currency from the rail's vault pool to
/// the receiver against a proof over the balance's commitments, closing a
/// deposit record.
pub fn withdraw(
    ctx: &mut Withdraw,
    amount: u64,
    proof: [u8; GROTH16_PROOF_SIZE],
    balance_commitment_before: [u8; 32],
    balance_commitment_after: [u8; 32],
    nullifier_hash: [u8; 32],
    new_encrypted_balance: [u8; 64],
) -> (r: Result<(), SentinelError>)
    ensures
        r == outcome(
            withdraw_failure(
                *old(ctx),
                amount,
                balance_commitment_before,
                withdraw_verdict(
                    proof,
                    balance_commitment_before,
                    balance_commitment_after,
                    amount,
                    nullifier_hash,
                ),
            ),
        ),
        r is Err ==> *final(ctx) == *old(ctx),
        r is Ok ==> *final(ctx) == withdraw_after(
            *old(ctx),
            amount,
            balance_commitment_after,
            nullifier_hash,
            new_encrypted_balance,
        ),
{
    match withdraw_check(ctx, amount, &balance_commitment_before) {
        Some(e) => return Err(e),
        None => {},
    }
    let verdict = verify_withdraw(
        &proof,
        &balance_commitment_before,
        &balance_commitment_after,
        amount,
        &nullifier_hash,
    );
    apply_withdraw(
        ctx,
        amount,
        balance_commitment_before,
        balance_commitment_after,
        nullifier_hash,
        new_encrypted_balance,
        verdict,
    )
}

/// Accounts of `deposit_token`. `token_deposit_record` is the record being
/// created, at the address numbered by `zk_vault.token_deposit_count`;
/// `token_asset_state` is created on the first deposit of the mint.
#[derive(Clone, Copy, Debug)]
pub struct DepositToken {
    pub rail: RailState,
    pub rail_key: Address,
    pub zk_vault: ZkVault,
    pub zk_vault_key: Address,
    pub handshake: HandshakeState,
    pub token_mint: Mint,
    pub token_asset_state: VaultAssetState,
    pub token_asset_state_bump: u8,
    pub sender_token_account: TokenAccount,
    pub vault_token_account: TokenAccount,
    pub token_deposit_record: TokenDepositRecord,
    pub token_deposit_record_bump: u8,
    pub sender: Address,
    pub authority: Address,
    pub now: i64,
}

/// The checks of a token deposit made before its proof is looked at.
pub open spec fn deposit_token_precheck(c: DepositToken, amount: u64) -> Option<SentinelError> {
    if !c.rail.is_active {
        Some(SentinelError::RailInactive)
    } else if c.rail.authority != c.authority {
        Some(SentinelError::Unauthorized)
    } else if c.handshake.rail != c.rail_key {
        Some(SentinelError::InvalidRail)
    } else if !c.handshake.is_active {
        Some(SentinelError::HandshakeAlreadyRevoked)
    } else if c.sender_token_account.owner != c.sender {
        Some(SentinelError::InvalidTokenAccount)
    } else if c.sender_token_account.mint != c.token_mint.key {
        Some(SentinelError::InvalidMint)
    } else if c.vault_token_account.owner != c.zk_vault_key {
        Some(SentinelError::InvalidTokenAccount)
    } else if c.vault_token_account.mint != c.token_mint.key {
        Some(SentinelError::InvalidMint)
    } else if amount == 0 {
        Some(SentinelError::InvalidAmount)
    } else if c.rail.is_paused {
        Some(SentinelError::RailPaused)
    } else {
        None
    }
}

/// The first failure of a token deposit, given the verdict on its proof.
pub open spec fn deposit_token_failure(
    c: DepositToken,
    amount: u64,
    verdict: Result<bool, SentinelError>,
) -> Option<SentinelError> {
    if deposit_token_precheck(c, amount) is Some {
        deposit_token_precheck(c, amount)
    } else if verdict_failure(verdict) is Some {
        verdict_failure(verdict)
    } else if asset_state_failure(c.token_asset_state, c.rail_key, c.token_mint.key) is Some {
        asset_state_failure(c.token_asset_state, c.rail_key, c.token_mint.key)
    } else if c.zk_vault.token_deposit_count == u64::MAX {
        Some(SentinelError::Overflow)
    } else {
        None
    }
}

/// The accounts after a successful token deposit.
pub open spec fn deposit_token_after(
    c: DepositToken,
    commitment: [u8; 32],
    encrypted_amount: [u8; 64],
) -> DepositToken {
    DepositToken {
        token_deposit_record: TokenDepositRecord {
            rail: c.rail_key,
            sender: c.sender,
            token_mint: c.token_mint.key,
            encrypted_amount,
            commitment,
            decimals: c.token_mint.decimals,
            is_withdrawn: false,
            created_at: c.now,
            withdrawn_at: 0,
            bump: c.token_deposit_record_bump,
        },
        token_asset_state: credited_asset_state(
            c.token_asset_state,
            c.rail_key,
            c.token_mint.key,
            c.token_asset_state_bump,
            commitment,
            encrypted_amount,
            c.now,
        ),
        zk_vault: ZkVault {
            token_deposit_count: (c.zk_vault.token_deposit_count + 1) as u64,
            ..c.zk_vault
        },
        ..c
    }
}

fn deposit_token_check(c: &DepositToken, amount: u64) -> (r: Option<SentinelError>)
    ensures
        r == deposit_token_precheck(*c, amount),
{
    if !c.rail.is_active {
        return Some(SentinelError::RailInactive);
    }
    if !eq32(&c.rail.authority, &c.authority) {
        return Some(SentinelError::Unauthorized);
    }
    if !eq32(&c.handshake.rail, &c.rail_key) {
        return Some(SentinelError::InvalidRail);
    }
    if !c.handshake.is_active {
        return Some(SentinelError::HandshakeAlreadyRevoked);
    }
    if !eq32(&c.sender_token_account.owner, &c.sender) {
        return Some(SentinelError::InvalidTokenAccount);
    }
    if !eq32(&c.sender_token_account.mint, &c.token_mint.key) {
        return Some(SentinelError::InvalidMint);
    }
    if !eq32(&c.vault_token_account.owner, &c.zk_vault_key) {
        return Some(SentinelError::InvalidTokenAccount);
    }
    if !eq32(&c.vault_token_account.mint, &c.token_mint.key) {
        return Some(SentinelError::InvalidMint);
    }
    if amount == 0 {
        return Some(SentinelError::InvalidAmount);
    }
    if c.rail.is_paused {
        return Some(SentinelError::RailPaused);
    }
    None
}

/// A token deposit of `amount`, given the verdict on its proof.
pub fn apply_deposit_token(
    ctx: &mut DepositToken,
    amount: u64,
    commitment: [u8; 32],
    encrypted_amount: [u8; 64],
    verdict: Result<bool, SentinelError>,
) -> (r: Result<(), SentinelError>)
    ensures
        r == outcome(deposit_token_failure(*old(ctx), amount, verdict)),
        r is Err ==> *final(ctx) == *old(ctx),
        r is Ok ==> *final(ctx) == deposit_token_after(*old(ctx), commitment, encrypted_amount),
{
    match deposit_token_check(ctx, amount) {
        Some(e) => return Err(e),
        None => {},
    }
    match verdict_check(verdict) {
        Some(e) => return Err(e),
        None => {},
    }
    let asset_key = mint_asset_key(&ctx.token_mint.key);
    match asset_state_check(&ctx.token_asset_state, &ctx.rail_key, &asset_key) {
        Some(e) => return Err(e),
        None => {},
    }
    let count = match ctx.zk_vault.token_deposit_count.checked_add(1) {
        Some(n) => n,
        None => return Err(SentinelError::Overflow),
    };
    ctx.token_deposit_record = TokenDepositRecord {
        rail: ctx.rail_key,
        sender: ctx.sender,
        token_mint: ctx.token_mint.key,
        encrypted_amount,
        commitment,
        decimals: ctx.token_mint.decimals,
        is_withdrawn: false,
        created_at: ctx.now,
        withdrawn_at: 0,
        bump: ctx.token_deposit_record_bump,
    };
    let rail_key = ctx.rail_key;
    credit_asset_state(
        &mut ctx.token_asset_state,
        &rail_key,
        &asset_key,
        ctx.token_asset_state_bump,
        commitment,
        encrypted_amount,
        ctx.now,
    );
    ctx.zk_vault.token_deposit_count = count;
    Ok(())
}

/// Deposits `amount` of a fungible token against a proof that `commitment`
/// and `nullifier_hash` are well formed. On success the caller moves
/// `amount` (checked against the mint's decimals) from the sender's token
/// account into the vault's.
pub fn deposit_token(
    ctx: &mut DepositToken,
    amount: u64,
    proof: [u8; GROTH16_PROOF_SIZE],
    commitment: [u8; 32],
    nullifier_hash: [u8; 32],
    encrypted_amount: [u8; 64],
) -> (r: Result<(), SentinelError>)
    ensures
        r == outcome(
            deposit_token_failure(
                *old(ctx),
                amount,
                deposit_verdict(proof, commitment, nullifier_hash),
            ),
        ),
        r is Err ==> *final(ctx) == *old(ctx),
        r is Ok ==> *final(ctx) == deposit_token_after(*old(ctx), commitment, encrypted_amount),
{
    match deposit_token_check(ctx, amount) {
        Some(e) => return Err(e),
        None => {},
    }
    let verdict = verify_deposit(&proof, &commitment, &nullifier_hash);
    apply_deposit_token(ctx, amount, commitment, encrypted_amount, verdict)
}

/// Accounts of `confidential_transfer_token`. `transfer_record` is the
/// record being created, at the address of `(sender rail, receiver rail,
/// nonce)`.
#[derive(Clone, Copy, Debug)]
pub struct ConfidentialTransferToken {
    pub sender_rail: RailState,
    pub sender_rail_key: Address,
    pub receiver_rail: RailState,
    pub receiver_rail_key: Address,
    pub token_mint: Mint,
    pub sender_token_asset_state: VaultAssetState,
    pub receiver_token_asset_state: VaultAssetState,
    pub transfer_record: TransferRecord,
    pub transfer_record_bump: u8,
    pub authority: Address,
    pub receiver_authority: Address,
    pub now: i64,
}

pub open spec fn confidential_transfer_token_precheck(
    c: ConfidentialTransferToken,
    transfer_nonce: i64,
    sender_before: [u8; 32],
    receiver_before: [u8; 32],
) -> Option<SentinelError> {
    rails_precheck(
        c.sender_rail,
        c.sender_rail_key,
        c.receiver_rail,
        c.receiver_rail_key,
        c.sender_token_asset_state,
        c.receiver_token_asset_state,
        c.token_mint.key,
        c.authority,
        c.receiver_authority,
        transfer_nonce,
        sender_before,
        receiver_before,
    )
}

/// The first failure of a token transfer, given the verdict on its proof.
pub open spec fn confidential_transfer_token_failure(
    c: ConfidentialTransferToken,
    transfer_nonce: i64,
    sender_before: [u8; 32],
    receiver_before: [u8; 32],
    verdict: Result<bool, SentinelError>,
) -> Option<SentinelError> {
    if confidential_transfer_token_precheck(c, transfer_nonce, sender_before, receiver_before) is Some {
        confidential_transfer_token_precheck(c, transfer_nonce, sender_before, receiver_before)
    } else {
        verdict_failure(verdict)
    }
}

/// The accounts after a successful token transfer; `proof_hash` is the
/// proof's first 32 bytes.
pub open spec fn confidential_transfer_token_after(
    c: ConfidentialTransferToken,
    sender_after: [u8; 32],
    receiver_after: [u8; 32],
    nullifier_hash: [u8; 32],
    new_sender_encrypted_balance: [u8; 64],
    new_receiver_encrypted_balance: [u8; 64],
    proof_hash: [u8; 32],
) -> ConfidentialTransferToken {
    ConfidentialTransferToken {
        sender_token_asset_state: rebalanced(
            c.sender_token_asset_state,
            sender_after,
            new_sender_encrypted_balance,
            c.now,
        ),
        receiver_token_asset_state: rebalanced(
            c.receiver_token_asset_state,
            receiver_after,
            new_receiver_encrypted_balance,
            c.now,
        ),
        transfer_record: TransferRecord {
            sender_rail: c.sender_rail_key,
            receiver_rail: c.receiver_rail_key,
            sender_commitment: sender_after,
            receiver_commitment: receiver_after,
            nullifier_hash,
            proof_hash,
            is_token: true,
            token_mint: c.token_mint.key,
            created_at: c.now,
            bump: c.transfer_record_bump,
        },
        ..c
    }
}

fn confidential_transfer_token_check(
    c: &ConfidentialTransferToken,
    transfer_nonce: i64,
    sender_before: &[u8; 32],
    receiver_before: &[u8; 32],
) -> (r: Option<SentinelError>)
    ensures
        r == confidential_transfer_token_precheck(
            *c,
            transfer_nonce,
            *sender_before,
            *receiver_before,
        ),
{
    let asset_key = mint_asset_key(&c.token_mint.key);
    rails_check(
        &c.sender_rail,
        &c.sender_rail_key,
        &c.receiver_rail,
        &c.receiver_rail_key,
        &c.sender_token_asset_state,
        &c.receiver_token_asset_state,
        &asset_key,
        &c.authority,
        &c.receiver_authority,
        transfer_nonce,
        sender_before,
        receiver_before,
    )
}

/// A token transfer between two rails, given the verdict on its proof.
pub fn apply_confidential_transfer_token(
    ctx: &mut ConfidentialTransferToken,
    transfer_nonce: i64,
    proof: [u8; GROTH16_PROOF_SIZE],
    sender_commitment_before: [u8; 32],
    sender_commitment_after: [u8; 32],
    receiver_commitment_before: [u8; 32],
    receiver_commitment_after: [u8; 32],
    nullifier_hash: [u8; 32],
    new_sender_encrypted_balance: [u8; 64],
    new_receiver_encrypted_balance: [u8; 64],
    verdict: Result<bool, SentinelError>,
) -> (r: Result<(), SentinelError>)
    ensures
        r == outcome(
            confidential_transfer_token_failure(
                *old(ctx),
                transfer_nonce,
                sender_commitment_before,
                receiver_commitment_before,
                verdict,
            ),
        ),
        r is Err ==> *final(ctx) == *old(ctx),
        r is Ok ==> *final(ctx) == confidential_transfer_token_after(
            *old(ctx),
            sender_commitment_after,
            receiver_commitment_after,
            nullifier_hash,
            new_sender_encrypted_balance,
            new_receiver_encrypted_balance,
            final(ctx).transfer_record.proof_hash,
        ),
        r is Ok ==> final(ctx).transfer_record.proof_hash@ == proof@.subrange(0, 32),
{
    match confidential_transfer_token_check(
        ctx,
        transfer_nonce,
        &sender_commitment_before,
        &receiver_commitment_before,
    ) {
        Some(e) => return Err(e),
        None => {},
    }
    match verdict_check(verdict) {
        Some(e) => return Err(e),
        None => {},
    }
    let proof_hash: [u8; 32] = take_bytes(proof.as_slice(), 0);
    ctx.sender_token_asset_state.balance_commitment = sender_commitment_after;
    ctx.sender_token_asset_state.encrypted_balance = new_sender_encrypted_balance;
    ctx.sender_token_asset_state.updated_at = ctx.now;
    ctx.receiver_token_asset_state.balance_commitment = receiver_commitment_after;
    ctx.receiver_token_asset_state.encrypted_balance = new_receiver_encrypted_balance;
    ctx.receiver_token_asset_state.updated_at = ctx.now;
    ctx.transfer_record = TransferRecord {
        sender_rail: ctx.sender_rail_key,
        receiver_rail: ctx.receiver_rail_key,
        sender_commitment: sender_commitment_after,
        receiver_commitment: receiver_commitment_after,
        nullifier_hash,
        proof_hash,
        is_token: true,
        token_mint: ctx.token_mint.key,
        created_at: ctx.now,
        bump: ctx.transfer_record_bump,
    };
    Ok(())
}

/// Transfers a hidden amount of a fungible token between two rails against
/// a proof over both balances' commitments before and after.
pub fn confidential_transfer_token(
    ctx: &mut ConfidentialTransferToken,
    transfer_nonce: i64,
    proof: [u8; GROTH16_PROOF_SIZE],
    sender_commitment_before: [u8; 32],
    sender_commitment_after: [u8; 32],
    receiver_commitment_before: [u8; 32],
    receiver_commitment_after: [u8; 32],
    nullifier_hash: [u8; 32],
    new_sender_encrypted_balance: [u8; 64],
    new_receiver_encrypted_balance: [u8; 64],
) -> (r: Result<(), SentinelError>)
    ensures
        r == outcome(
            confidential_transfer_token_failure(
                *old(ctx),
                transfer_nonce,
                sender_commitment_before,
                receiver_commitment_before,
                transfer_verdict(
                    proof,
                    sender_commitment_before,
                    sender_commitment_after,
                    receiver_commitment_before,
                    receiver_commitment_after,
                    nullifier_hash,
                ),
            ),
        ),
        r is Err ==> *final(ctx) == *old(ctx),
        r is Ok ==> *final(ctx) == confidential_transfer_token_after(
            *old(ctx),
            sender_commitment_after,
            receiver_commitment_after,
            nullifier_hash,
            new_sender_encrypted_balance,
            new_receiver_encrypted_balance,
            final(ctx).transfer_record.proof_hash,
        ),
        r is Ok ==> final(ctx).transfer_record.proof_hash@ == proof@.subrange(0, 32),
{
    match confidential_transfer_token_check(
        ctx,
        transfer_nonce,
        &sender_commitment_before,
        &receiver_commitment_before,
    ) {
        Some(e) => return Err(e),
        None => {},
    }
    let verdict = verify_transfer(
        &proof,
        &sender_commitment_before,
        &sender_commitment_after,
        &receiver_commitment_before,
        &receiver_commitment_after,
        &nullifier_hash,
    );
    apply_confidential_transfer_token(
        ctx,
        transfer_nonce,
        proof,
        sender_commitment_before,
        sender_commitment_after,
        receiver_commitment_before,
        receiver_commitment_after,
        nullifier_hash,
        new_sender_encrypted_balance,
        new_receiver_encrypted_balance,
        verdict,
    )
}

/// Accounts of `withdraw_token`: the rail's asset state of the mint, the
/// token deposit record being closed, the registry record of the proof's
/// nullifier, and the vault's and receiver's token accounts.
#[derive(Clone, Copy, Debug)]
pub struct WithdrawToken {
    pub rail: RailState,
    pub rail_key: Address,
    pub zk_vault_key: Address,
    pub token_deposit_record: TokenDepositRecord,
    pub nullifier_registry: NullifierRegistry,
    pub token_mint: Mint,
    pub token_asset_state: VaultAssetState,
    pub vault_token_account: TokenAccount,
    pub receiver_token_account: TokenAccount,
    pub authority: Address,
    pub now: i64,
}

/// The checks of a token withdrawal made before its proof is looked at.
pub open spec fn withdraw_token_precheck(c: WithdrawToken, amount: u64, before: [u8; 32]) -> Option<
    SentinelError,
> {
    if !c.rail.is_active {
        Some(SentinelError::RailInactive)
    } else if c.token_deposit_record.rail != c.rail_key {
        Some(SentinelError::InvalidRail)
    } else if c.token_deposit_record.is_withdrawn {
        Some(SentinelError::AlreadyWithdrawn)
    } else if asset_binding_failure(c.token_asset_state, c.rail_key, c.token_mint.key) is Some {
        asset_binding_failure(c.token_asset_state, c.rail_key, c.token_mint.key)
    } else if c.vault_token_account.owner != c.zk_vault_key {
        Some(SentinelError::InvalidTokenAccount)
    } else if c.vault_token_account.mint != c.token_mint.key {
        Some(SentinelError::InvalidMint)
    } else if c.receiver_token_account.mint != c.token_mint.key {
        Some(SentinelError::InvalidMint)
    } else if c.rail.authority != c.authority {
        Some(SentinelError::Unauthorized)
    } else if amount == 0 {
        Some(SentinelError::InvalidAmount)
    } else if c.rail.is_paused {
        Some(SentinelError::RailPaused)
    } else if c.token_asset_state.balance_commitment != before {
        Some(SentinelError::CommitmentMismatch)
    } else if c.nullifier_registry.is_spent {
        Some(SentinelError::NullifierAlreadyUsed)
    } else {
        None
    }
}

/// The first failure of a token withdrawal, given the verdict on its proof.
pub open spec fn withdraw_token_failure(
    c: WithdrawToken,
    amount: u64,
    before: [u8; 32],
    verdict: Result<bool, SentinelError>,
) -> Option<SentinelError> {
    if withdraw_token_precheck(c, amount, before) is Some {
        withdraw_token_precheck(c, amount, before)
    } else if verdict_failure(verdict) is Some {
        verdict_failure(verdict)
    } else if c.vault_token_account.amount < amount {
        Some(SentinelError::InsufficientVaultBalance)
    } else {
        None
    }
}

/// The accounts after a successful token withdrawal: the balance replaced,
/// the record closed and the nullifier spent. The tokens themselves are
/// moved by the caller.
pub open spec fn withdraw_token_after(
    c: WithdrawToken,
    after: [u8; 32],
    nullifier_hash: [u8; 32],
    new_encrypted_balance: [u8; 64],
) -> WithdrawToken {
    WithdrawToken {
        nullifier_registry: spent_nullifier(c.rail_key, nullifier_hash, c.now),
        token_asset_state: rebalanced(c.token_asset_state, after, new_encrypted_balance, c.now),
        token_deposit_record: TokenDepositRecord {
            is_withdrawn: true,
            withdrawn_at: c.now,
            ..c.token_deposit_record
        },
        ..c
    }
}

fn withdraw_token_check(c: &WithdrawToken, amount: u64, before: &[u8; 32]) -> (r: Option<
    SentinelError,
>)
    ensures
        r == withdraw_token_precheck(*c, amount, *before),
{
    if !c.rail.is_active {
        return Some(SentinelError::RailInactive);
    }
    if !eq32(&c.token_deposit_record.rail, &c.rail_key) {
        return Some(SentinelError::InvalidRail);
    }
    if c.token_deposit_record.is_withdrawn {
        return Some(SentinelError::AlreadyWithdrawn);
    }
    let asset_key = mint_asset_key(&c.token_mint.key);
    match asset_binding_check(&c.token_asset_state, &c.rail_key, &asset_key) {
        Some(e) => return Some(e),
        None => {},
    }
    if !eq32(&c.vault_token_account.owner, &c.zk_vault_key) {
        return Some(SentinelError::InvalidTokenAccount);
    }
    if !eq32(&c.vault_token_account.mint, &c.token_mint.key) {
        return Some(SentinelError::InvalidMint);
    }
    if !eq32(&c.receiver_token_account.mint, &c.token_mint.key) {
        return Some(SentinelError::InvalidMint);
    }
    if !eq32(&c.rail.authority, &c.authority) {
        return Some(SentinelError::Unauthorized);
    }
    if amount == 0 {
        return Some(SentinelError::InvalidAmount);
    }
    if c.rail.is_paused {
        return Some(SentinelError::RailPaused);
    }
    if !eq32(&c.token_asset_state.balance_commitment, before) {
        return Some(SentinelError::CommitmentMismatch);
    }
    if c.nullifier_registry.is_spent {
        return Some(SentinelError::NullifierAlreadyUsed);
    }
    None
}

/// A token withdrawal of `amount`, given the verdict on its proof.
pub fn apply_withdraw_token(
    ctx: &mut WithdrawToken,
    amount: u64,
    balance_commitment_before: [u8; 32],
    balance_commitment_after: [u8; 32],
    nullifier_hash: [u8; 32],
    new_encrypted_balance: [u8; 64],
    verdict: Result<bool, SentinelError>,
) -> (r: Result<(), SentinelError>)
    ensures
        r == outcome(withdraw_token_failure(*old(ctx), amount, balance_commitment_before, verdict)),
        r is Err ==> *final(ctx) == *old(ctx),
        r is Ok ==> *final(ctx) == withdraw_token_after(
            *old(ctx),
            balance_commitment_after,
            nullifier_hash,
            new_encrypted_balance,
        ),
{
    match withdraw_token_check(ctx, amount, &balance_commitment_before) {
        Some(e) => return Err(e),
        None => {},
    }
    match verdict_check(verdict) {
        Some(e) => return Err(e),
        None => {},
    }
    if ctx.vault_token_account.amount < amount {
        return Err(SentinelError::InsufficientVaultBalance);
    }
    ctx.token_asset_state.balance_commitment = balance_commitment_after;
    ctx.token_asset_state.encrypted_balance = new_encrypted_balance;
    ctx.token_asset_state.updated_at = ctx.now;
    ctx.token_deposit_record.is_withdrawn = true;
    ctx.token_deposit_record.withdrawn_at = ctx.now;
    ctx.nullifier_registry = NullifierRegistry {
        rail: ctx.rail_key,
        nullifier_hash,
        is_spent: true,
        spent_at: ctx.now,
    };
    Ok(())
}

/// Withdraws `amount` of a fungible token from the vault's token account to
/// the receiver's against a proof over the balance's commitments, closing a
/// token deposit record. On success the caller moves the tokens, signing as
/// the vault.
pub fn withdraw_token(
    ctx: &mut WithdrawToken,
    amount: u64,
    proof: [u8; GROTH16_PROOF_SIZE],
    balance_commitment_before: [u8; 32],
    balance_commitment_after: [u8; 32],
    nullifier_hash: [u8; 32],
    new_encrypted_balance: [u8; 64],
) -> (r: Result<(), SentinelError>)
    ensures
        r == outcome(
            withdraw_token_failure(
                *old(ctx),
                amount,
                balance_commitment_before,
                withdraw_verdict(
                    proof,
                    balance_commitment_before,
                    balance_commitment_after,
                    amount,
                    nullifier_hash,
                ),
            ),
        ),
        r is Err ==> *final(ctx) == *old(ctx),
        r is Ok ==> *final(ctx) == withdraw_token_after(
            *old(ctx),
            balance_commitment_after,
            nullifier_hash,
            new_encrypted_balance,
        ),
{
    match withdraw_token_check(ctx, amount, &balance_commitment_before) {
        Some(e) => return Err(e),
        None => {},
    }
    let verdict = verify_withdraw(
        &proof,
        &balance_commitment_before,
        &balance_commitment_after,
        amount,
        &nullifier_hash,
    );
    apply_withdraw_token(
        ctx,
        amount,
        balance_commitment_before,
        balance_commitment_after,
        nullifier_hash,
        new_encrypted_balance,
        verdict,
    )
}

/// Accounts of `get_balance`, loaded for readers off the ledger.
#[derive(Clone, Copy, Debug)]
pub struct GetBalance {
    pub zk_vault: ZkVault,
    pub rail: RailState,
}

/// A read-only probe: it changes nothing and always succeeds.
pub fn get_balance(ctx: &GetBalance) -> (r: Result<(), SentinelError>)
    ensures
        r is Ok,
{
    Ok(())
}

} // verus!
