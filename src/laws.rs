//! Properties that hold across transitions, stated over the transitions'
//! own contracts and proved.

use crate::bytes::{
    be_bytes, be_value, lemma_be_value_of_bytes, lemma_bytes_of_be_value,
};
use crate::error::SentinelError;
use crate::groth16::{field_modulus, g1_negation, lemma_field_modulus_bounds, neg_mod_p};
use crate::rail::{
    create_handshake_after, create_handshake_failure, seal_rail_failure, CreateHandshake,
    RailAuthority,
};
use crate::state::{Address, VaultAssetState, ZERO_32};
use crate::state::is_unset;
use crate::transitions::{
    asset_state_failure, credited_asset_state, rebalanced,
    confidential_transfer_after, confidential_transfer_failure, confidential_transfer_token_after,
    confidential_transfer_token_failure, deposit_after, deposit_failure, deposit_token_after,
    deposit_token_failure, withdraw_after, withdraw_failure, withdraw_token_after,
    withdraw_token_failure, ConfidentialTransfer, ConfidentialTransferToken, Deposit, DepositToken,
    Withdraw, WithdrawToken,
};
use vstd::arithmetic::div_mod::{lemma_mod_self_0, lemma_small_mod};
use vstd::prelude::*;

verus! {

/// Negating a G1 point twice gives the point back, for every point whose
/// `y` coordinate is a field element (below `p`).
pub proof fn lemma_negation_involution(a: Seq<u8>)
    requires
        a.len() == 64,
        be_value(a.subrange(32, 64)) < field_modulus(),
    ensures
        g1_negation(g1_negation(a)) == a,
{
    lemma_field_modulus_bounds();
    let m = field_modulus();
    let y = a.subrange(32, 64);
    let v = be_value(y);
    lemma_small_mod(v, m);
    let w = neg_mod_p(v);
    if v == 0 {
        lemma_mod_self_0(m as int);
        assert(w == 0);
    } else {
        lemma_small_mod((m - v) as nat, m);
        assert(w == m - v);
    }
    assert(w < m);
    lemma_small_mod(w, m);
    let b = g1_negation(a);
    lemma_be_value_of_bytes(w, 32);
    assert(b.subrange(0, 32) =~= a.subrange(0, 32));
    assert(b.subrange(32, 64) =~= be_bytes(w, 32));
    let u = neg_mod_p(w);
    if w == 0 {
        lemma_mod_self_0(m as int);
        assert(u == 0);
        assert(v == 0);
    } else {
        lemma_small_mod((m - w) as nat, m);
        assert(u == v);
    }
    lemma_bytes_of_be_value(y);
    assert(be_bytes(u, 32) == y);
    assert(g1_negation(b) =~= a);
}

/// A nullifier is spent once: a handshake on a nullifier whose record is
/// already spent fails, and after a successful one the record is spent with
/// that nullifier, so that repeating it fails with `NullifierAlreadyUsed`.
pub proof fn lemma_nullifier_spent_once(
    c: CreateHandshake,
    commitment: [u8; 32],
    nullifier_hash: [u8; 32],
    commitment2: [u8; 32],
)
    ensures
        c.nullifier_registry.is_spent ==> create_handshake_failure(c) is Some,
        create_handshake_failure(c) is None ==> {
            let d = create_handshake_after(c, commitment, nullifier_hash);
            &&& d.nullifier_registry.is_spent
            &&& d.nullifier_registry.nullifier_hash == nullifier_hash
            &&& d.nullifier_registry.rail == c.rail_key
            &&& create_handshake_failure(d) == Some(SentinelError::NullifierAlreadyUsed)
        },
{
}

/// A sealed rail admits no handshake.
pub proof fn lemma_sealed_rail_admits_no_handshake(c: CreateHandshake)
    requires
        c.rail.is_sealed,
    ensures
        create_handshake_failure(c) == Some(SentinelError::RailSealed),
{
}

/// A deactivated rail admits no confidential transition: each fails with
/// `RailInactive`, whatever its arguments and whatever the verdict on its
/// proof; a transfer fails so when either of its rails is deactivated.
pub proof fn lemma_inactive_rail_admits_nothing(
    d: Deposit,
    dt: DepositToken,
    w: Withdraw,
    wt: WithdrawToken,
    t: ConfidentialTransfer,
    tt: ConfidentialTransferToken,
    amount: u64,
    nonce: i64,
    before: [u8; 32],
    other_before: [u8; 32],
    verdict: Result<bool, SentinelError>,
)
    ensures
        !d.rail.is_active ==> deposit_failure(d, amount, verdict) == Some(
            SentinelError::RailInactive,
        ),
        !dt.rail.is_active ==> deposit_token_failure(dt, amount, verdict) == Some(
            SentinelError::RailInactive,
        ),
        !w.rail.is_active ==> withdraw_failure(w, amount, before, verdict) == Some(
            SentinelError::RailInactive,
        ),
        !wt.rail.is_active ==> withdraw_token_failure(wt, amount, before, verdict) == Some(
            SentinelError::RailInactive,
        ),
        !t.sender_rail.is_active || !t.receiver_rail.is_active ==> confidential_transfer_failure(
            t,
            nonce,
            before,
            other_before,
            verdict,
        ) == Some(SentinelError::RailInactive),
        !tt.sender_rail.is_active || !tt.receiver_rail.is_active
            ==> confidential_transfer_token_failure(
            tt,
            nonce,
            before,
            other_before,
            verdict,
        ) == Some(SentinelError::RailInactive),
{
}

/// Once withdrawn, a deposit record stays withdrawn: a withdrawal that
/// names a withdrawn record fails, and a successful one marks its record
/// withdrawn, so that repeating it fails with `AlreadyWithdrawn`.
pub proof fn lemma_withdrawn_stays_withdrawn(
    w: Withdraw,
    wt: WithdrawToken,
    amount: u64,
    before: [u8; 32],
    after: [u8; 32],
    nullifier_hash: [u8; 32],
    new_encrypted_balance: [u8; 64],
    verdict: Result<bool, SentinelError>,
    amount2: u64,
    before2: [u8; 32],
    verdict2: Result<bool, SentinelError>,
)
    ensures
        w.deposit_record.is_withdrawn ==> withdraw_failure(w, amount, before, verdict) is Some,
        wt.token_deposit_record.is_withdrawn ==> withdraw_token_failure(
            wt,
            amount,
            before,
            verdict,
        ) is Some,
        withdraw_failure(w, amount, before, verdict) is None ==> {
            let x = withdraw_after(w, amount, after, nullifier_hash, new_encrypted_balance);
            &&& x.deposit_record.is_withdrawn
            &&& withdraw_failure(x, amount2, before2, verdict2) == Some(
                SentinelError::AlreadyWithdrawn,
            )
        },
        withdraw_token_failure(wt, amount, before, verdict) is None ==> {
            let x = withdraw_token_after(wt, after, nullifier_hash, new_encrypted_balance);
            &&& x.token_deposit_record.is_withdrawn
            &&& withdraw_token_failure(x, amount2, before2, verdict2) == Some(
                SentinelError::AlreadyWithdrawn,
            )
        },
{
}

/// After every successful transition the stored asset-state commitment is
/// the one the transition committed to.
pub proof fn lemma_commitment_follows_transition(
    d: Deposit,
    dt: DepositToken,
    w: Withdraw,
    wt: WithdrawToken,
    t: ConfidentialTransfer,
    tt: ConfidentialTransferToken,
    amount: u64,
    commitment: [u8; 32],
    sender_after: [u8; 32],
    receiver_after: [u8; 32],
    nullifier_hash: [u8; 32],
    encrypted: [u8; 64],
    other_encrypted: [u8; 64],
    proof_hash: [u8; 32],
)
    ensures
        deposit_after(d, commitment, encrypted).sol_asset_state.balance_commitment == commitment,
        deposit_token_after(dt, commitment, encrypted).token_asset_state.balance_commitment
            == commitment,
        withdraw_after(w, amount, commitment, nullifier_hash, encrypted).sol_asset_state.balance_commitment
            == commitment,
        withdraw_token_after(wt, commitment, nullifier_hash, encrypted).token_asset_state.balance_commitment
            == commitment,
        ({
            let x = confidential_transfer_after(
                t,
                sender_after,
                receiver_after,
                nullifier_hash,
                encrypted,
                other_encrypted,
                proof_hash,
            );
            x.sender_sol_asset_state.balance_commitment == sender_after
                && x.receiver_sol_asset_state.balance_commitment == receiver_after
        }),
        ({
            let x = confidential_transfer_token_after(
                tt,
                sender_after,
                receiver_after,
                nullifier_hash,
                encrypted,
                other_encrypted,
                proof_hash,
            );
            x.sender_token_asset_state.balance_commitment == sender_after
                && x.receiver_token_asset_state.balance_commitment == receiver_after
        }),
{
}

/// A native deposit followed by a withdrawal of the same amount that closes
/// the deposit's record: the record is created open and bound to the rail,
/// the withdrawal closes it, and it moves exactly `amount` from the vault
/// pool to the receiver (the deposit having moved `amount` into the pool).
pub proof fn lemma_deposit_then_withdraw(
    d: Deposit,
    amount: u64,
    commitment: [u8; 32],
    encrypted_amount: [u8; 64],
    deposit_verdict: Result<bool, SentinelError>,
    w: Withdraw,
    after: [u8; 32],
    nullifier_hash: [u8; 32],
    new_encrypted_balance: [u8; 64],
    withdraw_verdict: Result<bool, SentinelError>,
)
    requires
        deposit_failure(d, amount, deposit_verdict) is None,
        w.rail_key == d.rail_key,
        w.deposit_record == deposit_after(d, commitment, encrypted_amount).deposit_record,
        withdraw_failure(w, amount, commitment, withdraw_verdict) is None,
    ensures
        !w.deposit_record.is_withdrawn,
        w.deposit_record.rail == w.rail_key,
        ({
            let x = withdraw_after(w, amount, after, nullifier_hash, new_encrypted_balance);
            &&& x.deposit_record.is_withdrawn
            &&& x.vault_pool_lamports + amount == w.vault_pool_lamports
            &&& x.receiver_lamports == w.receiver_lamports + amount
        }),
{
}

/// The vault's deposit counters only grow: a native deposit adds one to
/// `deposit_count`, a token deposit one to `token_deposit_count`, and
/// neither touches the other counter.
pub proof fn lemma_counters_grow(
    d: Deposit,
    dt: DepositToken,
    amount: u64,
    commitment: [u8; 32],
    encrypted_amount: [u8; 64],
    verdict: Result<bool, SentinelError>,
)
    ensures
        deposit_failure(d, amount, verdict) is None ==> {
            let x = deposit_after(d, commitment, encrypted_amount);
            &&& x.zk_vault.deposit_count == d.zk_vault.deposit_count + 1
            &&& x.zk_vault.token_deposit_count == d.zk_vault.token_deposit_count
        },
        deposit_token_failure(dt, amount, verdict) is None ==> {
            let x = deposit_token_after(dt, commitment, encrypted_amount);
            &&& x.zk_vault.token_deposit_count == dt.zk_vault.token_deposit_count + 1
            &&& x.zk_vault.deposit_count == dt.zk_vault.deposit_count
        },
{
}

/// An asset state keeps the rail and asset it was created for: a deposit
/// either creates it for its own rail and asset or finds it already bound
/// to them, and transfers and withdrawals never change the pair.
pub proof fn lemma_asset_state_keeps_its_pair(
    s: VaultAssetState,
    rail: Address,
    asset_key: [u8; 32],
    bump: u8,
    commitment: [u8; 32],
    encrypted_balance: [u8; 64],
    now: i64,
)
    ensures
        asset_state_failure(s, rail, asset_key) is None ==> {
            let x = credited_asset_state(s, rail, asset_key, bump, commitment, encrypted_balance, now);
            &&& x.rail == rail
            &&& x.asset_key == asset_key
        },
        !is_unset(s.rail@) && asset_state_failure(s, rail, asset_key) is None ==> {
            let x = credited_asset_state(s, rail, asset_key, bump, commitment, encrypted_balance, now);
            x.rail == s.rail && x.asset_key == s.asset_key
        },
        rebalanced(s, commitment, encrypted_balance, now).rail == s.rail,
        rebalanced(s, commitment, encrypted_balance, now).asset_key == s.asset_key,
{
}

/// A withdrawal spends the nullifier of its proof: one whose nullifier is
/// already spent fails, and after a successful one the nullifier's record
/// is spent, on the withdrawal's rail, with that nullifier.
pub proof fn lemma_withdrawal_spends_nullifier(
    w: Withdraw,
    wt: WithdrawToken,
    amount: u64,
    before: [u8; 32],
    after: [u8; 32],
    nullifier_hash: [u8; 32],
    new_encrypted_balance: [u8; 64],
    verdict: Result<bool, SentinelError>,
)
    ensures
        w.nullifier_registry.is_spent ==> withdraw_failure(w, amount, before, verdict) is Some,
        wt.nullifier_registry.is_spent ==> withdraw_token_failure(wt, amount, before, verdict) is Some,
        withdraw_failure(w, amount, before, verdict) is None ==> {
            let x = withdraw_after(w, amount, after, nullifier_hash, new_encrypted_balance);
            &&& !w.nullifier_registry.is_spent
            &&& x.nullifier_registry.is_spent
            &&& x.nullifier_registry.nullifier_hash == nullifier_hash
            &&& x.nullifier_registry.rail == w.rail_key
        },
        withdraw_token_failure(wt, amount, before, verdict) is None ==> {
            let x = withdraw_token_after(wt, after, nullifier_hash, new_encrypted_balance);
            &&& !wt.nullifier_registry.is_spent
            &&& x.nullifier_registry.is_spent
            &&& x.nullifier_registry.nullifier_hash == nullifier_hash
            &&& x.nullifier_registry.rail == wt.rail_key
        },
{
}

/// After a successful withdrawal the asset state holds the new commitment
/// and ciphertext and is still the one of the withdrawal's rail and asset.
pub proof fn lemma_withdrawal_rebalances_its_asset(
    w: Withdraw,
    wt: WithdrawToken,
    amount: u64,
    before: [u8; 32],
    after: [u8; 32],
    nullifier_hash: [u8; 32],
    new_encrypted_balance: [u8; 64],
    verdict: Result<bool, SentinelError>,
)
    ensures
        withdraw_failure(w, amount, before, verdict) is None ==> {
            let s = withdraw_after(w, amount, after, nullifier_hash, new_encrypted_balance).sol_asset_state;
            &&& s.balance_commitment == after
            &&& s.encrypted_balance == new_encrypted_balance
            &&& s.rail == w.rail_key
            &&& s.asset_key == ZERO_32
        },
        withdraw_token_failure(wt, amount, before, verdict) is None ==> {
            let s = withdraw_token_after(wt, after, nullifier_hash, new_encrypted_balance).token_asset_state;
            &&& s.balance_commitment == after
            &&& s.encrypted_balance == new_encrypted_balance
            &&& s.rail == wt.rail_key
            &&& s.asset_key == wt.token_mint.key
        },
{
}

/// Sealing takes only a nonzero audit seal, so a rail sealed by
/// `seal_rail` carries one; the other rail transitions leave both the seal
/// and the sealed flag as they were.
pub proof fn lemma_seal_is_nonzero(c: RailAuthority, audit_seal: [u8; 32])
    ensures
        seal_rail_failure(c, audit_seal) is None ==> !is_unset(audit_seal@),
        is_unset(audit_seal@) ==> seal_rail_failure(c, audit_seal) is Some,
{
}

} // verus!
