//! The seeds from which every program-owned record's address is derived.
//! Two records with the same seeds share an address, so a second creation
//! of the same record fails at the host.

use crate::bytes::{lemma_pow256_positive, pow256, push_all, take_bytes};
use crate::groth16::{amount_field, amount_to_field};
use crate::state::{Address, SOL_ASSET_SEED};
use vstd::prelude::*;

verus! {

/// `"rail"`
pub const RAIL_SEED: [u8; 4] = [0x72, 0x61, 0x69, 0x6c];

/// `"zk_vault"`
pub const ZK_VAULT_SEED: [u8; 8] = [0x7a, 0x6b, 0x5f, 0x76, 0x61, 0x75, 0x6c, 0x74];

/// `"vault_pool"`
pub const VAULT_POOL_SEED: [u8; 10] = [0x76, 0x61, 0x75, 0x6c, 0x74, 0x5f, 0x70, 0x6f, 0x6f, 0x6c];

/// `"asset_vault"`
pub const ASSET_VAULT_SEED: [u8; 11] = [
    0x61, 0x73, 0x73, 0x65, 0x74, 0x5f, 0x76, 0x61, 0x75, 0x6c, 0x74,
];

/// `"handshake"`
pub const HANDSHAKE_SEED: [u8; 9] = [0x68, 0x61, 0x6e, 0x64, 0x73, 0x68, 0x61, 0x6b, 0x65];

/// `"nullifier"`
pub const NULLIFIER_SEED: [u8; 9] = [0x6e, 0x75, 0x6c, 0x6c, 0x69, 0x66, 0x69, 0x65, 0x72];

/// `"deposit"`
pub const DEPOSIT_SEED: [u8; 7] = [0x64, 0x65, 0x70, 0x6f, 0x73, 0x69, 0x74];

/// `"token_deposit"`
pub const TOKEN_DEPOSIT_SEED: [u8; 13] = [
    0x74, 0x6f, 0x6b, 0x65, 0x6e, 0x5f, 0x64, 0x65, 0x70, 0x6f, 0x73, 0x69, 0x74,
];

/// `"transfer"`
pub const TRANSFER_SEED: [u8; 8] = [0x74, 0x72, 0x61, 0x6e, 0x73, 0x66, 0x65, 0x72];

/// The 8 little-endian bytes of `v`.
pub open spec fn le_u64(v: u64) -> Seq<u8> {
    amount_field(v).subrange(0, 8)
}

pub open spec fn seed_views(seeds: Seq<Vec<u8>>) -> Seq<Seq<u8>> {
    seeds.map_values(|s: Vec<u8>| s@)
}

/// The seeds of a native deposit record.
pub open spec fn deposit_address(rail: Address, sender: Address, deposit_count: u64) -> Seq<
    Seq<u8>,
> {
    seq![DEPOSIT_SEED@, rail@, sender@, le_u64(deposit_count)]
}

/// The seeds of a transfer record.
pub open spec fn transfer_address(
    sender_rail: Address,
    receiver_rail: Address,
    transfer_nonce: i64,
) -> Seq<Seq<u8>> {
    seq![TRANSFER_SEED@, sender_rail@, receiver_rail@, le_u64(transfer_nonce as u64)]
}

proof fn lemma_le_u64_digits(v: u64, k: nat)
    requires
        k < 8,
    ensures
        v as nat / pow256(k) == (v as nat / pow256(k + 1)) * 256 + le_u64(v)[k as int] as nat,
{
    lemma_pow256_positive(k);
    let p = pow256(k);
    assert(pow256(k + 1) == 256 * p);
    vstd::arithmetic::div_mod::lemma_div_denominator(v as int, p as int, 256);
    vstd::arithmetic::div_mod::lemma_fundamental_div_mod((v as nat / p) as int, 256);
}

proof fn lemma_le_u64_agree_from(v: u64, w: u64, k: nat)
    requires
        k <= 8,
        le_u64(v) == le_u64(w),
    ensures
        v as nat / pow256(k) == w as nat / pow256(k),
    decreases 8 - k,
{
    if k == 8 {
        reveal_with_fuel(pow256, 9);
        assert(pow256(8) == 0x1_0000_0000_0000_0000);
    } else {
        lemma_le_u64_agree_from(v, w, k + 1);
        lemma_le_u64_digits(v, k);
        lemma_le_u64_digits(w, k);
    }
}

/// The little-endian encoding of a `u64` determines it.
pub proof fn lemma_le_u64_injective(v: u64, w: u64)
    requires
        le_u64(v) == le_u64(w),
    ensures
        v == w,
{
    lemma_le_u64_agree_from(v, w, 0);
    assert(pow256(0) == 1);
}

proof fn lemma_address_view_injective(a: Address, b: Address)
    requires
        a@ == b@,
    ensures
        a == b,
{
    assert(a =~= b);
}

/// A transfer record is identified by its two rails, in order, and its
/// nonce: the same three always give the same seeds, so a replayed transfer
/// collides with its own record, and any two different ones never share
/// seeds.
pub proof fn lemma_transfer_address_identifies(
    sender_rail: Address,
    receiver_rail: Address,
    transfer_nonce: i64,
    other_sender_rail: Address,
    other_receiver_rail: Address,
    other_nonce: i64,
)
    ensures
        (transfer_address(sender_rail, receiver_rail, transfer_nonce) == transfer_address(
            other_sender_rail,
            other_receiver_rail,
            other_nonce,
        )) <==> (sender_rail == other_sender_rail && receiver_rail == other_receiver_rail
            && transfer_nonce == other_nonce),
{
    let s = transfer_address(sender_rail, receiver_rail, transfer_nonce);
    let t = transfer_address(other_sender_rail, other_receiver_rail, other_nonce);
    if s == t {
        assert(s[1] == t[1] && s[2] == t[2] && s[3] == t[3]);
        lemma_address_view_injective(sender_rail, other_sender_rail);
        lemma_address_view_injective(receiver_rail, other_receiver_rail);
        lemma_le_u64_injective(transfer_nonce as u64, other_nonce as u64);
        let (m, n) = (transfer_nonce, other_nonce);
        assert(m as u64 == n as u64 ==> m == n) by (bit_vector);
    }
}

/// A native deposit record is identified by its rail, its sender and the
/// vault's deposit counter when it was made: the same three always give the
/// same seeds, and any two different ones never share seeds.
pub proof fn lemma_deposit_address_identifies(
    rail: Address,
    sender: Address,
    deposit_count: u64,
    other_rail: Address,
    other_sender: Address,
    other_count: u64,
)
    ensures
        (deposit_address(rail, sender, deposit_count) == deposit_address(
            other_rail,
            other_sender,
            other_count,
        )) <==> (rail == other_rail && sender == other_sender && deposit_count == other_count),
{
    let s = deposit_address(rail, sender, deposit_count);
    let t = deposit_address(other_rail, other_sender, other_count);
    if s == t {
        assert(s[1] == t[1] && s[2] == t[2] && s[3] == t[3]);
        lemma_address_view_injective(rail, other_rail);
        lemma_address_view_injective(sender, other_sender);
        lemma_le_u64_injective(deposit_count, other_count);
    }
}

fn seed(s: &[u8]) -> (r: Vec<u8>)
    ensures
        r@ == s@,
{
    let mut r: Vec<u8> = Vec::new();
    push_all(&mut r, s);
    r
}

fn le_u64_bytes(v: u64) -> (r: [u8; 8])
    ensures
        r@ == le_u64(v),
{
    let field = amount_to_field(v);
    take_bytes(field.as_slice(), 0)
}

/// `("rail", authority)`.
pub fn rail_seeds(authority: &Address) -> (r: Vec<Vec<u8>>)
    ensures
        seed_views(r@) == seq![RAIL_SEED@, authority@],
{
    let r = vec![seed(RAIL_SEED.as_slice()), seed(authority.as_slice())];
    assert(seed_views(r@) =~= seq![RAIL_SEED@, authority@]);
    r
}

/// `("zk_vault", rail)`; with the bump it is also the vault's signer seeds.
pub fn zk_vault_seeds(rail: &Address) -> (r: Vec<Vec<u8>>)
    ensures
        seed_views(r@) == seq![ZK_VAULT_SEED@, rail@],
{
    let r = vec![seed(ZK_VAULT_SEED.as_slice()), seed(rail.as_slice())];
    assert(seed_views(r@) =~= seq![ZK_VAULT_SEED@, rail@]);
    r
}

/// `("vault_pool", rail)`.
pub fn vault_pool_seeds(rail: &Address) -> (r: Vec<Vec<u8>>)
    ensures
        seed_views(r@) == seq![VAULT_POOL_SEED@, rail@],
{
    let r = vec![seed(VAULT_POOL_SEED.as_slice()), seed(rail.as_slice())];
    assert(seed_views(r@) =~= seq![VAULT_POOL_SEED@, rail@]);
    r
}

/// `("asset_vault", rail, "sol")`: the native asset state.
pub fn sol_asset_vault_seeds(rail: &Address) -> (r: Vec<Vec<u8>>)
    ensures
        seed_views(r@) == seq![ASSET_VAULT_SEED@, rail@, SOL_ASSET_SEED@],
{
    let r = vec![
        seed(ASSET_VAULT_SEED.as_slice()),
        seed(rail.as_slice()),
        seed(SOL_ASSET_SEED.as_slice()),
    ];
    assert(seed_views(r@) =~= seq![ASSET_VAULT_SEED@, rail@, SOL_ASSET_SEED@]);
    r
}

/// `("asset_vault", rail, mint)`: the asset state of a token.
pub fn token_asset_vault_seeds(rail: &Address, mint: &Address) -> (r: Vec<Vec<u8>>)
    ensures
        seed_views(r@) == seq![ASSET_VAULT_SEED@, rail@, mint@],
{
    let r = vec![seed(ASSET_VAULT_SEED.as_slice()), seed(rail.as_slice()), seed(mint.as_slice())];
    assert(seed_views(r@) =~= seq![ASSET_VAULT_SEED@, rail@, mint@]);
    r
}

/// `("handshake", rail, nullifier_hash)`: one handshake per nullifier.
pub fn handshake_seeds(rail: &Address, nullifier_hash: &[u8; 32]) -> (r: Vec<Vec<u8>>)
    ensures
        seed_views(r@) == seq![HANDSHAKE_SEED@, rail@, nullifier_hash@],
{
    let r = vec![
        seed(HANDSHAKE_SEED.as_slice()),
        seed(rail.as_slice()),
        seed(nullifier_hash.as_slice()),
    ];
    assert(seed_views(r@) =~= seq![HANDSHAKE_SEED@, rail@, nullifier_hash@]);
    r
}

/// `("nullifier", rail, nullifier_hash)`: one registry record per nullifier.
pub fn nullifier_seeds(rail: &Address, nullifier_hash: &[u8; 32]) -> (r: Vec<Vec<u8>>)
    ensures
        seed_views(r@) == seq![NULLIFIER_SEED@, rail@, nullifier_hash@],
{
    let r = vec![
        seed(NULLIFIER_SEED.as_slice()),
        seed(rail.as_slice()),
        seed(nullifier_hash.as_slice()),
    ];
    assert(seed_views(r@) =~= seq![NULLIFIER_SEED@, rail@, nullifier_hash@]);
    r
}

/// `("deposit", rail, sender, deposit_count as little-endian u64)`.
pub fn deposit_seeds(rail: &Address, sender: &Address, deposit_count: u64) -> (r: Vec<Vec<u8>>)
    ensures
        seed_views(r@) == deposit_address(*rail, *sender, deposit_count),
{
    let count = le_u64_bytes(deposit_count);
    let r = vec![
        seed(DEPOSIT_SEED.as_slice()),
        seed(rail.as_slice()),
        seed(sender.as_slice()),
        seed(count.as_slice()),
    ];
    assert(seed_views(r@) =~= seq![DEPOSIT_SEED@, rail@, sender@, le_u64(deposit_count)]);
    r
}

/// `("token_deposit", rail, sender, mint, token_deposit_count as
/// little-endian u64)`.
pub fn token_deposit_seeds(
    rail: &Address,
    sender: &Address,
    mint: &Address,
    token_deposit_count: u64,
) -> (r: Vec<Vec<u8>>)
    ensures
        seed_views(r@) == seq![
            TOKEN_DEPOSIT_SEED@,
            rail@,
            sender@,
            mint@,
            le_u64(token_deposit_count),
        ],
{
    let count = le_u64_bytes(token_deposit_count);
    let r = vec![
        seed(TOKEN_DEPOSIT_SEED.as_slice()),
        seed(rail.as_slice()),
        seed(sender.as_slice()),
        seed(mint.as_slice()),
        seed(count.as_slice()),
    ];
    assert(seed_views(r@) =~= seq![
        TOKEN_DEPOSIT_SEED@,
        rail@,
        sender@,
        mint@,
        le_u64(token_deposit_count),
    ]);
    r
}

/// `("transfer", sender_rail, receiver_rail, transfer_nonce as
/// little-endian i64)`: one transfer record per nonce and ordered pair of
/// rails.
pub fn transfer_seeds(sender_rail: &Address, receiver_rail: &Address, transfer_nonce: i64) -> (r: Vec<
    Vec<u8>,
>)
    ensures
        seed_views(r@) == transfer_address(*sender_rail, *receiver_rail, transfer_nonce),
{
    let nonce = le_u64_bytes(transfer_nonce as u64);
    let r = vec![
        seed(TRANSFER_SEED.as_slice()),
        seed(sender_rail.as_slice()),
        seed(receiver_rail.as_slice()),
        seed(nonce.as_slice()),
    ];
    assert(seed_views(r@) =~= seq![
        TRANSFER_SEED@,
        sender_rail@,
        receiver_rail@,
        le_u64(transfer_nonce as u64),
    ]);
    r
}

} // verus!
