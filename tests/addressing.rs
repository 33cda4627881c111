use sentinel::address::{
    deposit_seeds, handshake_seeds, nullifier_seeds, rail_seeds, sol_asset_vault_seeds,
    token_asset_vault_seeds, token_deposit_seeds, transfer_seeds, vault_pool_seeds,
    zk_vault_seeds,
};

#[test]
fn rail_and_vault_seeds() {
    let a = [1u8; 32];
    assert_eq!(rail_seeds(&a), vec![b"rail".to_vec(), a.to_vec()]);
    assert_eq!(zk_vault_seeds(&a), vec![b"zk_vault".to_vec(), a.to_vec()]);
    assert_eq!(vault_pool_seeds(&a), vec![b"vault_pool".to_vec(), a.to_vec()]);
}

#[test]
fn asset_vault_seeds() {
    let r = [2u8; 32];
    let m = [3u8; 32];
    assert_eq!(sol_asset_vault_seeds(&r), vec![b"asset_vault".to_vec(), r.to_vec(), b"sol".to_vec()]);
    assert_eq!(token_asset_vault_seeds(&r, &m), vec![b"asset_vault".to_vec(), r.to_vec(), m.to_vec()]);
}

#[test]
fn nullifier_scoped_seeds() {
    let r = [4u8; 32];
    let n = [5u8; 32];
    assert_eq!(handshake_seeds(&r, &n), vec![b"handshake".to_vec(), r.to_vec(), n.to_vec()]);
    assert_eq!(nullifier_seeds(&r, &n), vec![b"nullifier".to_vec(), r.to_vec(), n.to_vec()]);
}

#[test]
fn counter_seeds_are_little_endian() {
    let r = [6u8; 32];
    let s = [7u8; 32];
    let m = [8u8; 32];
    assert_eq!(
        deposit_seeds(&r, &s, 0x0102),
        vec![b"deposit".to_vec(), r.to_vec(), s.to_vec(), 0x0102u64.to_le_bytes().to_vec()]
    );
    assert_eq!(
        token_deposit_seeds(&r, &s, &m, u64::MAX),
        vec![b"token_deposit".to_vec(), r.to_vec(), s.to_vec(), m.to_vec(), vec![0xff; 8]]
    );
}

#[test]
fn transfer_seeds_by_nonce() {
    let a = [9u8; 32];
    let b = [10u8; 32];
    assert_eq!(
        transfer_seeds(&a, &b, 7),
        vec![b"transfer".to_vec(), a.to_vec(), b.to_vec(), 7i64.to_le_bytes().to_vec()]
    );
    assert_eq!(transfer_seeds(&a, &b, -1)[3], vec![0xff; 8]);
    assert_ne!(transfer_seeds(&a, &b, 7), transfer_seeds(&b, &a, 7));
    assert_ne!(transfer_seeds(&a, &b, 7), transfer_seeds(&a, &b, 8));
}
