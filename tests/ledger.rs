use sentinel::error::SentinelError;
use sentinel::rail::{
    create_handshake, deactivate_rail, initialize_rail, initialize_zk_vault, pause_rail,
    revoke_handshake, seal_rail, unpause_rail, CreateHandshake, InitializeRail, InitializeZkVault,
    RailAuthority, RevokeHandshake,
};
use sentinel::state::{
    mint_asset_key, sol_asset_key, Address, DepositRecord, HandshakeState, Mint,
    NullifierRegistry, RailState, TokenAccount, TokenDepositRecord, TransferRecord,
    VaultAssetState, ZkVault, PROTOCOL_VERSION, SOL_ASSET_SEED,
};
use sentinel::transitions::{
    apply_confidential_transfer, apply_confidential_transfer_token, apply_deposit,
    apply_deposit_token, apply_withdraw, apply_withdraw_token, confidential_transfer, deposit,
    get_balance, withdraw, ConfidentialTransfer, ConfidentialTransferToken, Deposit, DepositToken,
    GetBalance, Withdraw, WithdrawToken,
};

fn key(b: u8) -> Address {
    [b; 32]
}

fn active_rail(authority: Address) -> RailState {
    RailState {
        authority,
        institution_type: 1,
        compliance_level: 2,
        is_sealed: false,
        is_active: true,
        is_paused: false,
        audit_seal: [0; 32],
        total_handshakes: 0,
        created_at: 100,
        sealed_at: 0,
        deactivated_at: 0,
        deactivation_reason: 0,
        version: PROTOCOL_VERSION,
    }
}

fn fresh_rail() -> RailState {
    RailState { is_active: false, institution_type: 0, compliance_level: 0, created_at: 0, version: 0, ..active_rail([0; 32]) }
}

fn zk_vault(rail: Address) -> ZkVault {
    ZkVault {
        rail,
        elgamal_pubkey: [7; 32],
        encrypted_balance: [0; 64],
        balance_commitment: [0; 32],
        deposit_count: 0,
        token_deposit_count: 0,
        bump: 254,
    }
}

fn fresh_asset_state() -> VaultAssetState {
    VaultAssetState {
        rail: [0; 32],
        asset_key: [0; 32],
        balance_commitment: [0; 32],
        encrypted_balance: [0; 64],
        updated_at: 0,
        bump: 0,
    }
}

fn asset_state(rail: Address, asset_key: [u8; 32], commitment: [u8; 32]) -> VaultAssetState {
    VaultAssetState {
        rail,
        asset_key,
        balance_commitment: commitment,
        encrypted_balance: [3; 64],
        updated_at: 5,
        bump: 250,
    }
}

fn handshake(rail: Address) -> HandshakeState {
    HandshakeState {
        rail,
        commitment: [0xcc; 32],
        nullifier_hash: [0xdd; 32],
        is_active: true,
        created_at: 100,
        revoked_at: 0,
    }
}

fn fresh_deposit_record() -> DepositRecord {
    DepositRecord {
        rail: [0; 32],
        sender: [0; 32],
        encrypted_amount: [0; 64],
        commitment: [0; 32],
        is_withdrawn: false,
        created_at: 0,
        withdrawn_at: 0,
        bump: 0,
    }
}

fn fresh_token_deposit_record() -> TokenDepositRecord {
    TokenDepositRecord {
        rail: [0; 32],
        sender: [0; 32],
        token_mint: [0; 32],
        encrypted_amount: [0; 64],
        commitment: [0; 32],
        decimals: 0,
        is_withdrawn: false,
        created_at: 0,
        withdrawn_at: 0,
        bump: 0,
    }
}

fn fresh_transfer_record() -> TransferRecord {
    TransferRecord {
        sender_rail: [0; 32],
        receiver_rail: [0; 32],
        sender_commitment: [0; 32],
        receiver_commitment: [0; 32],
        nullifier_hash: [0; 32],
        proof_hash: [0; 32],
        is_token: false,
        token_mint: [0; 32],
        created_at: 0,
        bump: 0,
    }
}

const AUTHORITY: u8 = 0xa1;
const RAIL: u8 = 0xb1;
const SENDER: u8 = 0x51;
const MINT: u8 = 0x6d;
const ZK_VAULT: u8 = 0x7a;

fn deposit_ctx() -> Deposit {
    Deposit {
        rail: active_rail(key(AUTHORITY)),
        rail_key: key(RAIL),
        zk_vault: zk_vault(key(RAIL)),
        sol_asset_state: fresh_asset_state(),
        sol_asset_state_bump: 253,
        handshake: handshake(key(RAIL)),
        deposit_record: fresh_deposit_record(),
        deposit_record_bump: 252,
        sender: key(SENDER),
        authority: key(AUTHORITY),
        now: 1_000,
    }
}

fn init_rail_ctx(amount: u64) -> InitializeRail {
    InitializeRail {
        rail: fresh_rail(),
        authority: key(AUTHORITY),
        authority_token_account: TokenAccount { owner: key(AUTHORITY), mint: key(0x4e), amount },
        north_mint: key(0x4e),
        now: 42,
    }
}

#[test]
fn initialize_rail_opens_active_rail() {
    let mut ctx = init_rail_ctx(1);
    assert_eq!(initialize_rail(&mut ctx, 1, 2), Ok(()));
    let r = ctx.rail;
    assert!(r.is_active);
    assert!(!r.is_paused);
    assert!(!r.is_sealed);
    assert_eq!(r.version, 2);
    assert_eq!(r.institution_type, 1);
    assert_eq!(r.compliance_level, 2);
    assert_eq!(r.authority, key(AUTHORITY));
    assert_eq!(r.created_at, 42);
    assert_eq!(r.total_handshakes, 0);
}

#[test]
fn initialize_rail_needs_north_tokens() {
    let mut ctx = init_rail_ctx(0);
    assert_eq!(initialize_rail(&mut ctx, 1, 2), Err(SentinelError::InsufficientNorthTokens));
    assert!(!ctx.rail.is_active);
}

#[test]
fn initialize_rail_checks_token_account() {
    let mut ctx = init_rail_ctx(5);
    ctx.authority_token_account.owner = key(0x99);
    assert_eq!(initialize_rail(&mut ctx, 1, 2), Err(SentinelError::InvalidTokenAccount));
    let mut ctx = init_rail_ctx(5);
    ctx.authority_token_account.mint = key(0x98);
    assert_eq!(initialize_rail(&mut ctx, 1, 2), Err(SentinelError::InvalidMint));
}

#[test]
fn initialize_zk_vault_zeroes_counters() {
    let mut ctx = InitializeZkVault {
        zk_vault: zk_vault([9; 32]),
        zk_vault_bump: 200,
        rail: active_rail(key(AUTHORITY)),
        rail_key: key(RAIL),
        authority: key(AUTHORITY),
    };
    ctx.zk_vault.deposit_count = 9;
    assert_eq!(initialize_zk_vault(&mut ctx, [0xee; 32]), Ok(()));
    assert_eq!(ctx.zk_vault.rail, key(RAIL));
    assert_eq!(ctx.zk_vault.elgamal_pubkey, [0xee; 32]);
    assert_eq!(ctx.zk_vault.deposit_count, 0);
    assert_eq!(ctx.zk_vault.token_deposit_count, 0);
    assert_eq!(ctx.zk_vault.bump, 200);
}

#[test]
fn initialize_zk_vault_needs_authority() {
    let mut ctx = InitializeZkVault {
        zk_vault: zk_vault([9; 32]),
        zk_vault_bump: 200,
        rail: active_rail(key(AUTHORITY)),
        rail_key: key(RAIL),
        authority: key(0x02),
    };
    assert_eq!(initialize_zk_vault(&mut ctx, [0xee; 32]), Err(SentinelError::Unauthorized));
    assert_eq!(ctx.zk_vault.rail, [9; 32]);
}

fn handshake_ctx() -> CreateHandshake {
    CreateHandshake {
        handshake: HandshakeState { is_active: false, ..handshake([0; 32]) },
        nullifier_registry: NullifierRegistry {
            rail: [0; 32],
            nullifier_hash: [0; 32],
            is_spent: false,
            spent_at: 0,
        },
        rail: active_rail(key(AUTHORITY)),
        rail_key: key(RAIL),
        now: 77,
    }
}

#[test]
fn handshake_spends_nullifier() {
    let mut ctx = handshake_ctx();
    assert_eq!(create_handshake(&mut ctx, [1; 32], [2; 32]), Ok(()));
    assert!(ctx.handshake.is_active);
    assert_eq!(ctx.handshake.rail, key(RAIL));
    assert_eq!(ctx.handshake.commitment, [1; 32]);
    assert_eq!(ctx.handshake.nullifier_hash, [2; 32]);
    assert_eq!(ctx.handshake.created_at, 77);
    assert!(ctx.nullifier_registry.is_spent);
    assert_eq!(ctx.nullifier_registry.nullifier_hash, [2; 32]);
    assert_eq!(ctx.nullifier_registry.spent_at, 77);
    assert_eq!(ctx.rail.total_handshakes, 1);
}

#[test]
fn second_handshake_same_nullifier_fails() {
    let mut ctx = handshake_ctx();
    assert_eq!(create_handshake(&mut ctx, [1; 32], [2; 32]), Ok(()));
    let before = ctx;
    assert_eq!(create_handshake(&mut ctx, [3; 32], [2; 32]), Err(SentinelError::NullifierAlreadyUsed));
    assert_eq!(ctx.handshake.commitment, before.handshake.commitment);
    assert_eq!(ctx.rail.total_handshakes, 1);
}

#[test]
fn handshake_refused_on_closed_rails() {
    let mut ctx = handshake_ctx();
    ctx.rail.is_sealed = true;
    ctx.rail.is_active = false;
    assert_eq!(create_handshake(&mut ctx, [1; 32], [2; 32]), Err(SentinelError::RailSealed));
    let mut ctx = handshake_ctx();
    ctx.rail.is_active = false;
    assert_eq!(create_handshake(&mut ctx, [1; 32], [2; 32]), Err(SentinelError::RailInactive));
    let mut ctx = handshake_ctx();
    ctx.rail.is_paused = true;
    assert_eq!(create_handshake(&mut ctx, [1; 32], [2; 32]), Err(SentinelError::RailPaused));
    assert!(!ctx.nullifier_registry.is_spent);
}

#[test]
fn handshake_counter_overflow() {
    let mut ctx = handshake_ctx();
    ctx.rail.total_handshakes = u64::MAX;
    assert_eq!(create_handshake(&mut ctx, [1; 32], [2; 32]), Err(SentinelError::Overflow));
    assert!(!ctx.nullifier_registry.is_spent);
    assert!(!ctx.handshake.is_active);
}

fn authority_ctx() -> RailAuthority {
    RailAuthority { rail: active_rail(key(AUTHORITY)), authority: key(AUTHORITY), now: 500 }
}

#[test]
fn seal_rail_once() {
    let mut ctx = authority_ctx();
    assert_eq!(seal_rail(&mut ctx, [0x5e; 32]), Ok(()));
    assert!(ctx.rail.is_sealed);
    assert_eq!(ctx.rail.audit_seal, [0x5e; 32]);
    assert_eq!(ctx.rail.sealed_at, 500);
    assert_eq!(seal_rail(&mut ctx, [0x5f; 32]), Err(SentinelError::RailAlreadySealed));
    assert_eq!(ctx.rail.audit_seal, [0x5e; 32]);
}

#[test]
fn seal_rail_needs_authority_and_active_rail() {
    let mut ctx = authority_ctx();
    ctx.authority = key(0x03);
    assert_eq!(seal_rail(&mut ctx, [1; 32]), Err(SentinelError::Unauthorized));
    let mut ctx = authority_ctx();
    ctx.rail.is_active = false;
    assert_eq!(seal_rail(&mut ctx, [1; 32]), Err(SentinelError::RailInactive));
}

#[test]
fn deactivate_rail_is_final() {
    let mut ctx = authority_ctx();
    assert_eq!(deactivate_rail(&mut ctx, 9), Ok(()));
    assert!(!ctx.rail.is_active);
    assert_eq!(ctx.rail.deactivation_reason, 9);
    assert_eq!(ctx.rail.deactivated_at, 500);
    assert_eq!(deactivate_rail(&mut ctx, 4), Err(SentinelError::RailAlreadyDeactivated));
    assert_eq!(ctx.rail.deactivation_reason, 9);
    assert_eq!(pause_rail(&mut ctx), Err(SentinelError::RailInactive));
    assert_eq!(unpause_rail(&mut ctx), Err(SentinelError::RailInactive));
}

#[test]
fn pause_and_unpause() {
    let mut ctx = authority_ctx();
    assert_eq!(unpause_rail(&mut ctx), Err(SentinelError::RailNotPaused));
    assert_eq!(pause_rail(&mut ctx), Ok(()));
    assert!(ctx.rail.is_paused);
    assert_eq!(pause_rail(&mut ctx), Err(SentinelError::RailAlreadyPaused));
    assert_eq!(unpause_rail(&mut ctx), Ok(()));
    assert!(!ctx.rail.is_paused);
    ctx.authority = key(0x04);
    assert_eq!(pause_rail(&mut ctx), Err(SentinelError::Unauthorized));
}

fn revoke_ctx() -> RevokeHandshake {
    RevokeHandshake {
        handshake: handshake(key(RAIL)),
        rail: active_rail(key(AUTHORITY)),
        rail_key: key(RAIL),
        authority: key(AUTHORITY),
        now: 600,
    }
}

#[test]
fn revoke_handshake_once() {
    let mut ctx = revoke_ctx();
    assert_eq!(revoke_handshake(&mut ctx, 1), Ok(()));
    assert!(!ctx.handshake.is_active);
    assert_eq!(ctx.handshake.revoked_at, 600);
    assert_eq!(revoke_handshake(&mut ctx, 1), Err(SentinelError::HandshakeAlreadyRevoked));
}

#[test]
fn revoke_handshake_of_other_rail() {
    let mut ctx = revoke_ctx();
    ctx.handshake.rail = key(0x0f);
    assert_eq!(revoke_handshake(&mut ctx, 1), Err(SentinelError::InvalidRail));
    assert!(ctx.handshake.is_active);
    let mut ctx = revoke_ctx();
    ctx.authority = key(0x0e);
    assert_eq!(revoke_handshake(&mut ctx, 1), Err(SentinelError::Unauthorized));
}

#[test]
fn deposit_with_valid_proof() {
    let mut ctx = deposit_ctx();
    let c = [0xc1; 32];
    let enc = [0xe1; 64];
    assert_eq!(apply_deposit(&mut ctx, 1000, c, enc, Ok(true)), Ok(()));
    assert!(!ctx.deposit_record.is_withdrawn);
    assert_eq!(ctx.deposit_record.rail, key(RAIL));
    assert_eq!(ctx.deposit_record.sender, key(SENDER));
    assert_eq!(ctx.deposit_record.commitment, c);
    assert_eq!(ctx.deposit_record.encrypted_amount, enc);
    assert_eq!(ctx.deposit_record.created_at, 1_000);
    assert_eq!(ctx.deposit_record.bump, 252);
    assert_eq!(ctx.zk_vault.deposit_count, 1);
    assert_eq!(ctx.sol_asset_state.rail, key(RAIL));
    assert_eq!(ctx.sol_asset_state.asset_key, sol_asset_key());
    assert_eq!(ctx.sol_asset_state.balance_commitment, c);
    assert_eq!(ctx.sol_asset_state.encrypted_balance, enc);
    assert_eq!(ctx.sol_asset_state.bump, 253);
    assert_eq!(ctx.sol_asset_state.updated_at, 1_000);
}

#[test]
fn deposit_reconciles_existing_asset_state() {
    let mut ctx = deposit_ctx();
    ctx.sol_asset_state = asset_state(key(RAIL), [0; 32], [0x11; 32]);
    ctx.zk_vault.deposit_count = 41;
    assert_eq!(apply_deposit(&mut ctx, 5, [0x22; 32], [0x33; 64], Ok(true)), Ok(()));
    assert_eq!(ctx.sol_asset_state.balance_commitment, [0x22; 32]);
    assert_eq!(ctx.sol_asset_state.bump, 250);
    assert_eq!(ctx.zk_vault.deposit_count, 42);
}

#[test]
fn deposit_into_foreign_asset_state() {
    let mut ctx = deposit_ctx();
    ctx.sol_asset_state = asset_state(key(0x0c), [0; 32], [0x11; 32]);
    assert_eq!(apply_deposit(&mut ctx, 5, [0x22; 32], [0x33; 64], Ok(true)), Err(SentinelError::InvalidAssetState));
    assert_eq!(ctx.zk_vault.deposit_count, 0);
    assert_eq!(ctx.sol_asset_state.balance_commitment, [0x11; 32]);
}

#[test]
fn deposit_counter_overflow() {
    let mut ctx = deposit_ctx();
    ctx.zk_vault.deposit_count = u64::MAX;
    assert_eq!(apply_deposit(&mut ctx, 5, [0x22; 32], [0x33; 64], Ok(true)), Err(SentinelError::Overflow));
    assert!(sentinel::state::address_unset(&ctx.sol_asset_state.rail));
}

#[test]
fn deposit_checks_in_order() {
    let mut ctx = deposit_ctx();
    assert_eq!(apply_deposit(&mut ctx, 0, [1; 32], [1; 64], Ok(true)), Err(SentinelError::InvalidAmount));
    assert_eq!(apply_deposit(&mut ctx, 5, [1; 32], [1; 64], Ok(false)), Err(SentinelError::InvalidZkProof));
    assert_eq!(
        apply_deposit(&mut ctx, 5, [1; 32], [1; 64], Err(SentinelError::ProofVerificationFailed)),
        Err(SentinelError::ProofVerificationFailed)
    );
    let mut c = deposit_ctx();
    c.rail.is_paused = true;
    assert_eq!(apply_deposit(&mut c, 5, [1; 32], [1; 64], Ok(true)), Err(SentinelError::RailPaused));
    let mut c = deposit_ctx();
    c.rail.is_active = false;
    assert_eq!(apply_deposit(&mut c, 0, [1; 32], [1; 64], Ok(true)), Err(SentinelError::RailInactive));
    let mut c = deposit_ctx();
    c.authority = key(0x01);
    assert_eq!(apply_deposit(&mut c, 5, [1; 32], [1; 64], Ok(true)), Err(SentinelError::Unauthorized));
    let mut c = deposit_ctx();
    c.handshake.rail = key(0x01);
    assert_eq!(apply_deposit(&mut c, 5, [1; 32], [1; 64], Ok(true)), Err(SentinelError::InvalidRail));
    let mut c = deposit_ctx();
    c.handshake.is_active = false;
    assert_eq!(apply_deposit(&mut c, 5, [1; 32], [1; 64], Ok(true)), Err(SentinelError::HandshakeAlreadyRevoked));
    assert_eq!(c.zk_vault.deposit_count, 0);
}

#[test]
fn deposit_with_zero_proof_is_refused() {
    let mut ctx = deposit_ctx();
    let r = deposit(&mut ctx, 1000, [0u8; 256], [0xc1; 32], [0xd1; 32], [0xe1; 64]);
    assert_eq!(r, Err(SentinelError::InvalidZkProof));
    assert_eq!(ctx.zk_vault.deposit_count, 0);
    let r = deposit(&mut ctx, 0, [0u8; 256], [0xc1; 32], [0xd1; 32], [0xe1; 64]);
    assert_eq!(r, Err(SentinelError::InvalidAmount));
}

fn unspent_nullifier() -> NullifierRegistry {
    NullifierRegistry { rail: [0; 32], nullifier_hash: [0; 32], is_spent: false, spent_at: 0 }
}

fn withdraw_ctx(record: DepositRecord, commitment: [u8; 32]) -> Withdraw {
    Withdraw {
        rail: active_rail(key(AUTHORITY)),
        rail_key: key(RAIL),
        sol_asset_state: asset_state(key(RAIL), [0; 32], commitment),
        deposit_record: record,
        vault_pool_lamports: 5_000,
        nullifier_registry: unspent_nullifier(),
        vault_pool_owned: true,
        receiver_lamports: 10,
        authority: key(AUTHORITY),
        now: 2_000,
    }
}

#[test]
fn deposit_then_withdraw_same_amount() {
    let mut d = deposit_ctx();
    let c = [0xc1; 32];
    assert_eq!(apply_deposit(&mut d, 1000, c, [0xe1; 64], Ok(true)), Ok(()));
    let mut w = withdraw_ctx(d.deposit_record, d.sol_asset_state.balance_commitment);
    let c2 = [0xc2; 32];
    assert_eq!(apply_withdraw(&mut w, 1000, c, c2, [0xd2; 32], [0xe2; 64], Ok(true)), Ok(()));
    assert_eq!(w.receiver_lamports, 1010);
    assert_eq!(w.vault_pool_lamports, 4_000);
    assert_eq!(w.sol_asset_state.balance_commitment, c2);
    assert_eq!(w.sol_asset_state.encrypted_balance, [0xe2; 64]);
    assert!(w.deposit_record.is_withdrawn);
    assert_eq!(w.deposit_record.withdrawn_at, 2_000);
}

#[test]
fn withdraw_twice_fails() {
    let mut d = deposit_ctx();
    let c = [0xc1; 32];
    assert_eq!(apply_deposit(&mut d, 1000, c, [0xe1; 64], Ok(true)), Ok(()));
    let mut w = withdraw_ctx(d.deposit_record, c);
    assert_eq!(apply_withdraw(&mut w, 1000, c, [0xc2; 32], [0xd2; 32], [0xe2; 64], Ok(true)), Ok(()));
    let before = w;
    assert_eq!(
        apply_withdraw(&mut w, 1000, c, [0xc2; 32], [0xd2; 32], [0xe2; 64], Ok(true)),
        Err(SentinelError::AlreadyWithdrawn)
    );
    assert_eq!(w.receiver_lamports, before.receiver_lamports);
    assert_eq!(
        withdraw(&mut w, 1000, [0u8; 256], [0xc2; 32], [0xc3; 32], [0xd1; 32], [0xe3; 64]),
        Err(SentinelError::AlreadyWithdrawn)
    );
}

#[test]
fn withdraw_error_cases() {
    let rec = DepositRecord { rail: key(RAIL), ..fresh_deposit_record() };
    let c = [0xc1; 32];
    let mut w = withdraw_ctx(rec, c);
    w.vault_pool_lamports = 999;
    assert_eq!(apply_withdraw(&mut w, 1000, c, c, [0xd2; 32], [0; 64], Ok(true)), Err(SentinelError::InsufficientVaultBalance));
    let mut w = withdraw_ctx(rec, c);
    w.receiver_lamports = u64::MAX;
    assert_eq!(apply_withdraw(&mut w, 1000, c, c, [0xd2; 32], [0; 64], Ok(true)), Err(SentinelError::Overflow));
    let mut w = withdraw_ctx(rec, c);
    assert_eq!(apply_withdraw(&mut w, 1000, [0xbb; 32], c, [0xd2; 32], [0; 64], Ok(true)), Err(SentinelError::CommitmentMismatch));
    let mut w = withdraw_ctx(rec, c);
    w.vault_pool_owned = false;
    assert_eq!(apply_withdraw(&mut w, 1000, c, c, [0xd2; 32], [0; 64], Ok(true)), Err(SentinelError::InvalidVaultPoolOwner));
    let mut w = withdraw_ctx(DepositRecord { rail: key(0x0d), ..rec }, c);
    assert_eq!(apply_withdraw(&mut w, 1000, c, c, [0xd2; 32], [0; 64], Ok(true)), Err(SentinelError::InvalidRail));
    let mut w = withdraw_ctx(rec, c);
    w.sol_asset_state.asset_key = [1; 32];
    assert_eq!(apply_withdraw(&mut w, 1000, c, c, [0xd2; 32], [0; 64], Ok(true)), Err(SentinelError::InvalidAssetState));
    let mut w = withdraw_ctx(rec, c);
    assert_eq!(apply_withdraw(&mut w, 1000, c, c, [0xd2; 32], [0; 64], Ok(false)), Err(SentinelError::InvalidZkProof));
    assert_eq!(w.vault_pool_lamports, 5_000);
}

fn transfer_ctx() -> ConfidentialTransfer {
    ConfidentialTransfer {
        sender_rail: active_rail(key(AUTHORITY)),
        sender_rail_key: key(RAIL),
        receiver_rail: active_rail(key(0xa2)),
        receiver_rail_key: key(0xb2),
        sender_sol_asset_state: asset_state(key(RAIL), [0; 32], [0x10; 32]),
        receiver_sol_asset_state: asset_state(key(0xb2), [0; 32], [0x20; 32]),
        transfer_record: fresh_transfer_record(),
        transfer_record_bump: 249,
        authority: key(AUTHORITY),
        receiver_authority: key(0xa2),
        now: 3_000,
    }
}

#[test]
fn transfer_with_stale_commitment() {
    let mut ctx = transfer_ctx();
    let r = confidential_transfer(
        &mut ctx, 7, [0u8; 256], [0x99; 32], [0x11; 32], [0x20; 32], [0x21; 32], [0xdd; 32],
        [1; 64], [2; 64],
    );
    assert_eq!(r, Err(SentinelError::CommitmentMismatch));
    assert_eq!(ctx.sender_sol_asset_state.balance_commitment, [0x10; 32]);
    assert_eq!(ctx.receiver_sol_asset_state.balance_commitment, [0x20; 32]);
    assert_eq!(ctx.transfer_record.created_at, 0);
}

#[test]
fn transfer_with_valid_proof() {
    let mut ctx = transfer_ctx();
    let mut proof = [0u8; 256];
    for (i, b) in proof.iter_mut().enumerate() {
        *b = (i * 3) as u8;
    }
    let r = apply_confidential_transfer(
        &mut ctx, 7, proof, [0x10; 32], [0x11; 32], [0x20; 32], [0x21; 32], [0xdd; 32],
        [1; 64], [2; 64], Ok(true),
    );
    assert_eq!(r, Ok(()));
    assert_eq!(ctx.sender_sol_asset_state.balance_commitment, [0x11; 32]);
    assert_eq!(ctx.sender_sol_asset_state.encrypted_balance, [1; 64]);
    assert_eq!(ctx.receiver_sol_asset_state.balance_commitment, [0x21; 32]);
    assert_eq!(ctx.receiver_sol_asset_state.encrypted_balance, [2; 64]);
    let t = ctx.transfer_record;
    assert_eq!(t.sender_rail, key(RAIL));
    assert_eq!(t.receiver_rail, key(0xb2));
    assert_eq!(t.sender_commitment, [0x11; 32]);
    assert_eq!(t.receiver_commitment, [0x21; 32]);
    assert_eq!(t.nullifier_hash, [0xdd; 32]);
    assert_eq!(&t.proof_hash[..], &proof[..32]);
    assert!(!t.is_token);
    assert_eq!(t.token_mint, [0; 32]);
    assert_eq!(t.created_at, 3_000);
    assert_eq!(t.bump, 249);
}

#[test]
fn transfer_nonce_must_be_positive() {
    for nonce in [0i64, -1, i64::MIN] {
        let mut ctx = transfer_ctx();
        let r = apply_confidential_transfer(
            &mut ctx, nonce, [0u8; 256], [0x10; 32], [0x11; 32], [0x20; 32], [0x21; 32],
            [0xdd; 32], [1; 64], [2; 64], Ok(true),
        );
        assert_eq!(r, Err(SentinelError::InvalidTransferNonce));
    }
}

#[test]
fn transfer_needs_both_rails_open() {
    let mut ctx = transfer_ctx();
    ctx.receiver_rail.is_paused = true;
    let r = apply_confidential_transfer(
        &mut ctx, 7, [0u8; 256], [0x10; 32], [0x11; 32], [0x20; 32], [0x21; 32], [0xdd; 32],
        [1; 64], [2; 64], Ok(true),
    );
    assert_eq!(r, Err(SentinelError::RailPaused));
    let mut ctx = transfer_ctx();
    ctx.receiver_rail.is_active = false;
    let r = apply_confidential_transfer(
        &mut ctx, 7, [0u8; 256], [0x10; 32], [0x11; 32], [0x20; 32], [0x21; 32], [0xdd; 32],
        [1; 64], [2; 64], Ok(true),
    );
    assert_eq!(r, Err(SentinelError::RailInactive));
    let mut ctx = transfer_ctx();
    ctx.receiver_authority = key(0x01);
    let r = apply_confidential_transfer(
        &mut ctx, 7, [0u8; 256], [0x10; 32], [0x11; 32], [0x20; 32], [0x21; 32], [0xdd; 32],
        [1; 64], [2; 64], Ok(true),
    );
    assert_eq!(r, Err(SentinelError::Unauthorized));
}

#[test]
fn deactivated_rail_refuses_transitions() {
    let mut d = deposit_ctx();
    d.rail.is_active = false;
    assert_eq!(apply_deposit(&mut d, 5, [1; 32], [1; 64], Ok(true)), Err(SentinelError::RailInactive));
    let rec = DepositRecord { rail: key(RAIL), ..fresh_deposit_record() };
    let mut w = withdraw_ctx(rec, [0xc1; 32]);
    w.rail.is_active = false;
    assert_eq!(apply_withdraw(&mut w, 5, [0xc1; 32], [0xc2; 32], [0xd2; 32], [0; 64], Ok(true)), Err(SentinelError::RailInactive));
    let mut t = transfer_ctx();
    t.sender_rail.is_active = false;
    let r = apply_confidential_transfer(
        &mut t, 7, [0u8; 256], [0x10; 32], [0x11; 32], [0x20; 32], [0x21; 32], [0xdd; 32],
        [1; 64], [2; 64], Ok(true),
    );
    assert_eq!(r, Err(SentinelError::RailInactive));
}

fn deposit_token_ctx() -> DepositToken {
    DepositToken {
        rail: active_rail(key(AUTHORITY)),
        rail_key: key(RAIL),
        zk_vault: zk_vault(key(RAIL)),
        zk_vault_key: key(ZK_VAULT),
        handshake: handshake(key(RAIL)),
        token_mint: Mint { key: key(MINT), decimals: 6 },
        token_asset_state: fresh_asset_state(),
        token_asset_state_bump: 248,
        sender_token_account: TokenAccount { owner: key(SENDER), mint: key(MINT), amount: 10_000 },
        vault_token_account: TokenAccount { owner: key(ZK_VAULT), mint: key(MINT), amount: 0 },
        token_deposit_record: fresh_token_deposit_record(),
        token_deposit_record_bump: 247,
        sender: key(SENDER),
        authority: key(AUTHORITY),
        now: 4_000,
    }
}

#[test]
fn deposit_token_with_valid_proof() {
    let mut ctx = deposit_token_ctx();
    assert_eq!(apply_deposit_token(&mut ctx, 700, [0xc7; 32], [0xe7; 64], Ok(true)), Ok(()));
    let r = ctx.token_deposit_record;
    assert_eq!(r.token_mint, key(MINT));
    assert_eq!(r.decimals, 6);
    assert_eq!(r.commitment, [0xc7; 32]);
    assert!(!r.is_withdrawn);
    assert_eq!(ctx.zk_vault.token_deposit_count, 1);
    assert_eq!(ctx.zk_vault.deposit_count, 0);
    assert_eq!(ctx.token_asset_state.asset_key, mint_asset_key(&key(MINT)));
    assert_eq!(ctx.token_asset_state.balance_commitment, [0xc7; 32]);
}

#[test]
fn deposit_token_checks_accounts() {
    let mut ctx = deposit_token_ctx();
    ctx.sender_token_account.owner = key(0x01);
    assert_eq!(apply_deposit_token(&mut ctx, 7, [1; 32], [1; 64], Ok(true)), Err(SentinelError::InvalidTokenAccount));
    let mut ctx = deposit_token_ctx();
    ctx.vault_token_account.mint = key(0x01);
    assert_eq!(apply_deposit_token(&mut ctx, 7, [1; 32], [1; 64], Ok(true)), Err(SentinelError::InvalidMint));
    let mut ctx = deposit_token_ctx();
    ctx.token_asset_state = asset_state(key(RAIL), key(0x02), [0; 32]);
    assert_eq!(apply_deposit_token(&mut ctx, 7, [1; 32], [1; 64], Ok(true)), Err(SentinelError::InvalidAssetState));
    assert_eq!(ctx.zk_vault.token_deposit_count, 0);
}

fn withdraw_token_ctx() -> WithdrawToken {
    WithdrawToken {
        rail: active_rail(key(AUTHORITY)),
        rail_key: key(RAIL),
        zk_vault_key: key(ZK_VAULT),
        token_deposit_record: TokenDepositRecord { rail: key(RAIL), ..fresh_token_deposit_record() },
        nullifier_registry: unspent_nullifier(),
        token_mint: Mint { key: key(MINT), decimals: 6 },
        token_asset_state: asset_state(key(RAIL), key(MINT), [0xc7; 32]),
        vault_token_account: TokenAccount { owner: key(ZK_VAULT), mint: key(MINT), amount: 700 },
        receiver_token_account: TokenAccount { owner: key(0x77), mint: key(MINT), amount: 0 },
        authority: key(AUTHORITY),
        now: 5_000,
    }
}

#[test]
fn withdraw_token_closes_record() {
    let mut ctx = withdraw_token_ctx();
    assert_eq!(apply_withdraw_token(&mut ctx, 700, [0xc7; 32], [0xc8; 32], [0xd2; 32], [8; 64], Ok(true)), Ok(()));
    assert!(ctx.token_deposit_record.is_withdrawn);
    assert_eq!(ctx.token_deposit_record.withdrawn_at, 5_000);
    assert_eq!(ctx.token_asset_state.balance_commitment, [0xc8; 32]);
    assert_eq!(
        apply_withdraw_token(&mut ctx, 700, [0xc8; 32], [0xc9; 32], [0xd2; 32], [9; 64], Ok(true)),
        Err(SentinelError::AlreadyWithdrawn)
    );
}

#[test]
fn withdraw_token_error_cases() {
    let mut ctx = withdraw_token_ctx();
    assert_eq!(
        apply_withdraw_token(&mut ctx, 701, [0xc7; 32], [0xc8; 32], [0xd2; 32], [8; 64], Ok(true)),
        Err(SentinelError::InsufficientVaultBalance)
    );
    let mut ctx = withdraw_token_ctx();
    ctx.receiver_token_account.mint = key(0x01);
    assert_eq!(
        apply_withdraw_token(&mut ctx, 7, [0xc7; 32], [0xc8; 32], [0xd2; 32], [8; 64], Ok(true)),
        Err(SentinelError::InvalidMint)
    );
    let mut ctx = withdraw_token_ctx();
    ctx.vault_token_account.owner = key(0x01);
    assert_eq!(
        apply_withdraw_token(&mut ctx, 7, [0xc7; 32], [0xc8; 32], [0xd2; 32], [8; 64], Ok(true)),
        Err(SentinelError::InvalidTokenAccount)
    );
    let mut ctx = withdraw_token_ctx();
    assert_eq!(
        apply_withdraw_token(&mut ctx, 0, [0xc7; 32], [0xc8; 32], [0xd2; 32], [8; 64], Ok(true)),
        Err(SentinelError::InvalidAmount)
    );
    assert!(!ctx.token_deposit_record.is_withdrawn);
}

#[test]
fn token_transfer_records_mint() {
    let mut ctx = ConfidentialTransferToken {
        sender_rail: active_rail(key(AUTHORITY)),
        sender_rail_key: key(RAIL),
        receiver_rail: active_rail(key(0xa2)),
        receiver_rail_key: key(0xb2),
        token_mint: Mint { key: key(MINT), decimals: 9 },
        sender_token_asset_state: asset_state(key(RAIL), key(MINT), [0x10; 32]),
        receiver_token_asset_state: asset_state(key(0xb2), key(MINT), [0x20; 32]),
        transfer_record: fresh_transfer_record(),
        transfer_record_bump: 246,
        authority: key(AUTHORITY),
        receiver_authority: key(0xa2),
        now: 6_000,
    };
    let r = apply_confidential_transfer_token(
        &mut ctx, 3, [0x42; 256], [0x10; 32], [0x11; 32], [0x20; 32], [0x21; 32], [0xdd; 32],
        [1; 64], [2; 64], Ok(true),
    );
    assert_eq!(r, Ok(()));
    assert!(ctx.transfer_record.is_token);
    assert_eq!(ctx.transfer_record.token_mint, key(MINT));
    assert_eq!(ctx.transfer_record.proof_hash, [0x42; 32]);
    assert_eq!(ctx.receiver_token_asset_state.balance_commitment, [0x21; 32]);
    ctx.sender_token_asset_state.asset_key = [0; 32];
    let r = apply_confidential_transfer_token(
        &mut ctx, 4, [0x42; 256], [0x11; 32], [0x12; 32], [0x21; 32], [0x22; 32], [0xde; 32],
        [1; 64], [2; 64], Ok(true),
    );
    assert_eq!(r, Err(SentinelError::InvalidAssetState));
}

#[test]
fn get_balance_changes_nothing() {
    let ctx = GetBalance { zk_vault: zk_vault(key(RAIL)), rail: active_rail(key(AUTHORITY)) };
    assert_eq!(get_balance(&ctx), Ok(()));
}

#[test]
fn asset_keys() {
    assert_eq!(sol_asset_key(), [0u8; 32]);
    assert_eq!(mint_asset_key(&key(MINT)), key(MINT));
    assert_eq!(&SOL_ASSET_SEED, b"sol");
}

#[test]
fn error_messages() {
    assert_eq!(SentinelError::AlreadyWithdrawn.message(), "This deposit has already been withdrawn");
    assert_eq!(SentinelError::InvalidTransferNonce.message(), "Invalid transfer nonce");
}

#[test]
fn seal_rail_refuses_zero_seal() {
    let mut ctx = authority_ctx();
    assert_eq!(seal_rail(&mut ctx, [0; 32]), Err(SentinelError::InvalidAuditSeal));
    assert!(!ctx.rail.is_sealed);
    let mut one = [0u8; 32];
    one[31] = 1;
    assert_eq!(seal_rail(&mut ctx, one), Ok(()));
    assert!(ctx.rail.is_sealed);
}

#[test]
fn withdraw_spends_nullifier() {
    let rec = DepositRecord { rail: key(RAIL), ..fresh_deposit_record() };
    let c = [0xc1; 32];
    let mut w = withdraw_ctx(rec, c);
    assert_eq!(apply_withdraw(&mut w, 100, c, [0xc2; 32], [0x4e; 32], [0; 64], Ok(true)), Ok(()));
    assert!(w.nullifier_registry.is_spent);
    assert_eq!(w.nullifier_registry.nullifier_hash, [0x4e; 32]);
    assert_eq!(w.nullifier_registry.rail, key(RAIL));
    assert_eq!(w.nullifier_registry.spent_at, 2_000);
}

#[test]
fn withdraw_with_spent_nullifier_fails() {
    let rec = DepositRecord { rail: key(RAIL), ..fresh_deposit_record() };
    let c = [0xc1; 32];
    let mut w = withdraw_ctx(rec, c);
    w.nullifier_registry.is_spent = true;
    assert_eq!(
        apply_withdraw(&mut w, 100, c, [0xc2; 32], [0x4e; 32], [0; 64], Ok(true)),
        Err(SentinelError::NullifierAlreadyUsed)
    );
    assert_eq!(w.vault_pool_lamports, 5_000);
    assert!(!w.deposit_record.is_withdrawn);
    let mut wt = withdraw_token_ctx();
    wt.nullifier_registry.is_spent = true;
    assert_eq!(
        apply_withdraw_token(&mut wt, 7, [0xc7; 32], [0xc8; 32], [0x4e; 32], [8; 64], Ok(true)),
        Err(SentinelError::NullifierAlreadyUsed)
    );
}

#[test]
fn withdraw_token_spends_nullifier() {
    let mut wt = withdraw_token_ctx();
    assert_eq!(apply_withdraw_token(&mut wt, 7, [0xc7; 32], [0xc8; 32], [0x4f; 32], [8; 64], Ok(true)), Ok(()));
    assert!(wt.nullifier_registry.is_spent);
    assert_eq!(wt.nullifier_registry.nullifier_hash, [0x4f; 32]);
}

#[test]
fn transfer_to_inactive_receiver_rail() {
    let mut ctx = transfer_ctx();
    ctx.receiver_rail.is_active = false;
    ctx.authority = key(0x01);
    let r = apply_confidential_transfer(
        &mut ctx, 7, [0u8; 256], [0x10; 32], [0x11; 32], [0x20; 32], [0x21; 32], [0xdd; 32],
        [1; 64], [2; 64], Ok(true),
    );
    assert_eq!(r, Err(SentinelError::RailInactive));
}
