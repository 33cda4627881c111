//! The rail lifecycle and handshake admission.
//!
//! Each transition takes the accounts it reads and writes, checks them in
//! order, and either reports the first failure and leaves every account as
//! it was, or applies all of its writes.

use crate::bytes::eq32;
use crate::error::SentinelError;
use crate::state::{
    address_unset, is_unset, Address, HandshakeState, NullifierRegistry, RailState, TokenAccount, ZkVault,
    PROTOCOL_VERSION, ZERO_32, ZERO_64,
};
use vstd::prelude::*;

verus! {

/// The result a transition reports for a given first failure.
pub open spec fn outcome(failure: Option<SentinelError>) -> Result<(), SentinelError> {
    match failure {
        Some(e) => Err(e),
        None => Ok(()),
    }
}

/// Accounts of `initialize_rail`. `rail` is the record being created.
#[derive(Clone, Copy, Debug)]
pub struct InitializeRail {
    pub rail: RailState,
    pub authority: Address,
    pub authority_token_account: TokenAccount,
    pub north_mint: Address,
    pub now: i64,
}

pub open spec fn initialize_rail_failure(c: InitializeRail) -> Option<SentinelError> {
    if c.authority_token_account.owner != c.authority {
        Some(SentinelError::InvalidTokenAccount)
    } else if c.authority_token_account.mint != c.north_mint {
        Some(SentinelError::InvalidMint)
    } else if c.authority_token_account.amount == 0 {
        Some(SentinelError::InsufficientNorthTokens)
    } else {
        None
    }
}

/// A new rail: active, not paused, not sealed, at the protocol version.
pub open spec fn new_rail(
    authority: Address,
    institution_type: u8,
    compliance_level: u8,
    now: i64,
) -> RailState {
    RailState {
        authority,
        institution_type,
        compliance_level,
        is_sealed: false,
        is_active: true,
        is_paused: false,
        audit_seal: ZERO_32,
        total_handshakes: 0,
        created_at: now,
        sealed_at: 0,
        deactivated_at: 0,
        deactivation_reason: 0,
        version: PROTOCOL_VERSION,
    }
}

/// Creates a rail for an authority that holds at least one governance
/// (NORTH) token.
pub fn initialize_rail(
    ctx: &mut InitializeRail,
    institution_type: u8,
    compliance_level: u8,
) -> (r: Result<(), SentinelError>)
    ensures
        r == outcome(initialize_rail_failure(*old(ctx))),
        r is Err ==> *final(ctx) == *old(ctx),
        r is Ok ==> *final(ctx) == (InitializeRail {
            rail: new_rail(old(ctx).authority, institution_type, compliance_level, old(ctx).now),
            ..*old(ctx)
        }),
{
    if !eq32(&ctx.authority_token_account.owner, &ctx.authority) {
        return Err(SentinelError::InvalidTokenAccount);
    }
    if !eq32(&ctx.authority_token_account.mint, &ctx.north_mint) {
        return Err(SentinelError::InvalidMint);
    }
    if ctx.authority_token_account.amount == 0 {
        return Err(SentinelError::InsufficientNorthTokens);
    }
    ctx.rail = RailState {
        authority: ctx.authority,
        institution_type,
        compliance_level,
        is_sealed: false,
        is_active: true,
        is_paused: false,
        audit_seal: ZERO_32,
        total_handshakes: 0,
        created_at: ctx.now,
        sealed_at: 0,
        deactivated_at: 0,
        deactivation_reason: 0,
        version: PROTOCOL_VERSION,
    };
    Ok(())
}

/// Accounts of `initialize_zk_vault`. `zk_vault` is the record being created.
#[derive(Clone, Copy, Debug)]
pub struct InitializeZkVault {
    pub zk_vault: ZkVault,
    pub zk_vault_bump: u8,
    pub rail: RailState,
    pub rail_key: Address,
    pub authority: Address,
}

/// Creates the vault of a rail, with both deposit counters at zero.
pub fn initialize_zk_vault(ctx: &mut InitializeZkVault, elgamal_pubkey: [u8; 32]) -> (r: Result<
    (),
    SentinelError,
>)
    ensures
        r == outcome(
            if old(ctx).rail.authority != old(ctx).authority {
                Some(SentinelError::Unauthorized)
            } else {
                None
            },
        ),
        r is Err ==> *final(ctx) == *old(ctx),
        r is Ok ==> *final(ctx) == (InitializeZkVault {
            zk_vault: ZkVault {
                rail: old(ctx).rail_key,
                elgamal_pubkey,
                encrypted_balance: ZERO_64,
                balance_commitment: ZERO_32,
                deposit_count: 0,
                token_deposit_count: 0,
                bump: old(ctx).zk_vault_bump,
            },
            ..*old(ctx)
        }),
{
    if !eq32(&ctx.rail.authority, &ctx.authority) {
        return Err(SentinelError::Unauthorized);
    }
    ctx.zk_vault = ZkVault {
        rail: ctx.rail_key,
        elgamal_pubkey,
        encrypted_balance: ZERO_64,
        balance_commitment: ZERO_32,
        deposit_count: 0,
        token_deposit_count: 0,
        bump: ctx.zk_vault_bump,
    };
    Ok(())
}

/// Accounts of `create_handshake`. `handshake` and `nullifier_registry` are
/// the records at `(rail, nullifier_hash)`.
#[derive(Clone, Copy, Debug)]
pub struct CreateHandshake {
    pub handshake: HandshakeState,
    pub nullifier_registry: NullifierRegistry,
    pub rail: RailState,
    pub rail_key: Address,
    pub now: i64,
}

pub open spec fn create_handshake_failure(c: CreateHandshake) -> Option<SentinelError> {
    if c.rail.is_sealed {
        Some(SentinelError::RailSealed)
    } else if !c.rail.is_active {
        Some(SentinelError::RailInactive)
    } else if c.rail.is_paused {
        Some(SentinelError::RailPaused)
    } else if c.nullifier_registry.is_spent {
        Some(SentinelError::NullifierAlreadyUsed)
    } else if c.rail.total_handshakes == u64::MAX {
        Some(SentinelError::Overflow)
    } else {
        None
    }
}

pub open spec fn create_handshake_after(
    c: CreateHandshake,
    commitment: [u8; 32],
    nullifier_hash: [u8; 32],
) -> CreateHandshake {
    CreateHandshake {
        handshake: HandshakeState {
            rail: c.rail_key,
            commitment,
            nullifier_hash,
            is_active: true,
            created_at: c.now,
            revoked_at: 0,
        },
        nullifier_registry: NullifierRegistry {
            rail: c.rail_key,
            nullifier_hash,
            is_spent: true,
            spent_at: c.now,
        },
        rail: RailState { total_handshakes: (c.rail.total_handshakes + 1) as u64, ..c.rail },
        ..c
    }
}

/// Admits a commitment to an open rail, spending its nullifier.
pub fn create_handshake(
    ctx: &mut CreateHandshake,
    commitment: [u8; 32],
    nullifier_hash: [u8; 32],
) -> (r: Result<(), SentinelError>)
    ensures
        r == outcome(create_handshake_failure(*old(ctx))),
        r is Err ==> *final(ctx) == *old(ctx),
        r is Ok ==> *final(ctx) == create_handshake_after(*old(ctx), commitment, nullifier_hash),
{
    if ctx.rail.is_sealed {
        return Err(SentinelError::RailSealed);
    }
    if !ctx.rail.is_active {
        return Err(SentinelError::RailInactive);
    }
    if ctx.rail.is_paused {
        return Err(SentinelError::RailPaused);
    }
    if ctx.nullifier_registry.is_spent {
        return Err(SentinelError::NullifierAlreadyUsed);
    }
    let total = match ctx.rail.total_handshakes.checked_add(1) {
        Some(t) => t,
        None => return Err(SentinelError::Overflow),
    };
    ctx.handshake = HandshakeState {
        rail: ctx.rail_key,
        commitment,
        nullifier_hash,
        is_active: true,
        created_at: ctx.now,
        revoked_at: 0,
    };
    ctx.nullifier_registry = NullifierRegistry {
        rail: ctx.rail_key,
        nullifier_hash,
        is_spent: true,
        spent_at: ctx.now,
    };
    ctx.rail.total_handshakes = total;
    Ok(())
}

/// Accounts of the transitions that only the rail's authority may make on
/// the rail itself.
#[derive(Clone, Copy, Debug)]
pub struct RailAuthority {
    pub rail: RailState,
    pub authority: Address,
    pub now: i64,
}

pub type SealRail = RailAuthority;

pub type DeactivateRail = RailAuthority;

pub type PauseRail = RailAuthority;

pub type UnpauseRail = RailAuthority;

pub open spec fn seal_rail_failure(c: RailAuthority, audit_seal: [u8; 32]) -> Option<SentinelError> {
    if c.rail.authority != c.authority {
        Some(SentinelError::Unauthorized)
    } else if !c.rail.is_active {
        Some(SentinelError::RailInactive)
    } else if c.rail.is_sealed {
        Some(SentinelError::RailAlreadySealed)
    } else if is_unset(audit_seal@) {
        Some(SentinelError::InvalidAuditSeal)
    } else {
        None
    }
}

/// Seals an active rail with a nonzero audit seal; it admits no handshake
/// after. A sealed rail therefore always carries a nonzero seal.
pub fn seal_rail(ctx: &mut SealRail, audit_seal: [u8; 32]) -> (r: Result<(), SentinelError>)
    ensures
        r == outcome(seal_rail_failure(*old(ctx), audit_seal)),
        r is Err ==> *final(ctx) == *old(ctx),
        r is Ok ==> !is_unset(audit_seal@),
        r is Ok ==> *final(ctx) == (RailAuthority {
            rail: RailState {
                audit_seal,
                is_sealed: true,
                sealed_at: old(ctx).now,
                ..old(ctx).rail
            },
            ..*old(ctx)
        }),
{
    if !eq32(&ctx.rail.authority, &ctx.authority) {
        return Err(SentinelError::Unauthorized);
    }
    if !ctx.rail.is_active {
        return Err(SentinelError::RailInactive);
    }
    if ctx.rail.is_sealed {
        return Err(SentinelError::RailAlreadySealed);
    }
    if address_unset(&audit_seal) {
        return Err(SentinelError::InvalidAuditSeal);
    }
    ctx.rail.audit_seal = audit_seal;
    ctx.rail.is_sealed = true;
    ctx.rail.sealed_at = ctx.now;
    Ok(())
}

pub open spec fn deactivate_rail_failure(c: RailAuthority) -> Option<SentinelError> {
    if c.rail.authority != c.authority {
        Some(SentinelError::Unauthorized)
    } else if !c.rail.is_active {
        Some(SentinelError::RailAlreadyDeactivated)
    } else {
        None
    }
}

/// Deactivates a rail for good, recording why.
pub fn deactivate_rail(ctx: &mut DeactivateRail, reason_code: u8) -> (r: Result<(), SentinelError>)
    ensures
        r == outcome(deactivate_rail_failure(*old(ctx))),
        r is Err ==> *final(ctx) == *old(ctx),
        r is Ok ==> *final(ctx) == (RailAuthority {
            rail: RailState {
                is_active: false,
                deactivated_at: old(ctx).now,
                deactivation_reason: reason_code,
                ..old(ctx).rail
            },
            ..*old(ctx)
        }),
{
    if !eq32(&ctx.rail.authority, &ctx.authority) {
        return Err(SentinelError::Unauthorized);
    }
    if !ctx.rail.is_active {
        return Err(SentinelError::RailAlreadyDeactivated);
    }
    ctx.rail.is_active = false;
    ctx.rail.deactivated_at = ctx.now;
    ctx.rail.deactivation_reason = reason_code;
    Ok(())
}

pub open spec fn pause_rail_failure(c: RailAuthority) -> Option<SentinelError> {
    if c.rail.authority != c.authority {
        Some(SentinelError::Unauthorized)
    } else if !c.rail.is_active {
        Some(SentinelError::RailInactive)
    } else if c.rail.is_paused {
        Some(SentinelError::RailAlreadyPaused)
    } else {
        None
    }
}

/// Pauses an active rail.
pub fn pause_rail(ctx: &mut PauseRail) -> (r: Result<(), SentinelError>)
    ensures
        r == outcome(pause_rail_failure(*old(ctx))),
        r is Err ==> *final(ctx) == *old(ctx),
        r is Ok ==> *final(ctx) == (RailAuthority {
            rail: RailState { is_paused: true, ..old(ctx).rail },
            ..*old(ctx)
        }),
{
    if !eq32(&ctx.rail.authority, &ctx.authority) {
        return Err(SentinelError::Unauthorized);
    }
    if !ctx.rail.is_active {
        return Err(SentinelError::RailInactive);
    }
    if ctx.rail.is_paused {
        return Err(SentinelError::RailAlreadyPaused);
    }
    ctx.rail.is_paused = true;
    Ok(())
}

pub open spec fn unpause_rail_failure(c: RailAuthority) -> Option<SentinelError> {
    if c.rail.authority != c.authority {
        Some(SentinelError::Unauthorized)
    } else if !c.rail.is_active {
        Some(SentinelError::RailInactive)
    } else if !c.rail.is_paused {
        Some(SentinelError::RailNotPaused)
    } else {
        None
    }
}

/// Resumes a paused rail.
pub fn unpause_rail(ctx: &mut UnpauseRail) -> (r: Result<(), SentinelError>)
    ensures
        r == outcome(unpause_rail_failure(*old(ctx))),
        r is Err ==> *final(ctx) == *old(ctx),
        r is Ok ==> *final(ctx) == (RailAuthority {
            rail: RailState { is_paused: false, ..old(ctx).rail },
            ..*old(ctx)
        }),
{
    if !eq32(&ctx.rail.authority, &ctx.authority) {
        return Err(SentinelError::Unauthorized);
    }
    if !ctx.rail.is_active {
        return Err(SentinelError::RailInactive);
    }
    if !ctx.rail.is_paused {
        return Err(SentinelError::RailNotPaused);
    }
    ctx.rail.is_paused = false;
    Ok(())
}

/// Accounts of `revoke_handshake`.
#[derive(Clone, Copy, Debug)]
pub struct RevokeHandshake {
    pub handshake: HandshakeState,
    pub rail: RailState,
    pub rail_key: Address,
    pub authority: Address,
    pub now: i64,
}

pub open spec fn revoke_handshake_failure(c: RevokeHandshake) -> Option<SentinelError> {
    if c.rail.authority != c.authority {
        Some(SentinelError::Unauthorized)
    } else if !c.handshake.is_active {
        Some(SentinelError::HandshakeAlreadyRevoked)
    } else if c.handshake.rail != c.rail_key {
        Some(SentinelError::InvalidRail)
    } else {
        None
    }
}

/// Revokes an active handshake of the authority's rail.
pub fn revoke_handshake(ctx: &mut RevokeHandshake, reason_code: u8) -> (r: Result<(), SentinelError>)
    ensures
        r == outcome(revoke_handshake_failure(*old(ctx))),
        r is Err ==> *final(ctx) == *old(ctx),
        r is Ok ==> *final(ctx) == (RevokeHandshake {
            handshake: HandshakeState {
                is_active: false,
                revoked_at: old(ctx).now,
                ..old(ctx).handshake
            },
            ..*old(ctx)
        }),
{
    if !eq32(&ctx.rail.authority, &ctx.authority) {
        return Err(SentinelError::Unauthorized);
    }
    if !ctx.handshake.is_active {
        return Err(SentinelError::HandshakeAlreadyRevoked);
    }
    if !eq32(&ctx.handshake.rail, &ctx.rail_key) {
        return Err(SentinelError::InvalidRail);
    }
    ctx.handshake.is_active = false;
    ctx.handshake.revoked_at = ctx.now;
    Ok(())
}

} // verus!
