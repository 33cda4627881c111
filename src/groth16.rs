//! Groth16 proof verification over BN254.

use crate::bn254::{g1_add, g1_mul, g1_scaled_of, g1_sum_of, pairing, pairing_of};
use crate::bytes::{
    be_bytes, be_value, lemma_be_value_bound, lemma_be_value_of_bytes,
    lemma_be_value_zeros, lemma_bytes_of_be_value, lemma_pow256_positive, pow256, push_all,
    put_bytes, sub_be32, take_bytes,
};
use crate::error::SentinelError;
use vstd::arithmetic::div_mod::{lemma_mod_sub_multiples_vanish, lemma_small_mod};
use vstd::prelude::*;

verus! {

/// Size of an encoded proof `A || B || C`.
pub const GROTH16_PROOF_SIZE: usize = 256;

/// Size of the four (G1, G2) pairs handed to the pairing check.
pub const PAIRING_INPUT_SIZE: usize = 768;

/// An uncompressed G1 point: big-endian `x || y`.
pub type G1 = [u8; 64];

/// A G2 point, in the coordinate order the pairing primitive expects.
pub type G2 = [u8; 128];

pub struct Proof {
    pub a: G1,
    pub b: G2,
    pub c: G1,
}

/// A verifying key: the setup constants and one `ic` point per public input,
/// after a base point.
pub struct VK {
    pub alpha_g1: G1,
    pub beta_g2: G2,
    pub gamma_g2: G2,
    pub delta_g2: G2,
    pub ic: Vec<G1>,
}

impl View for Proof {
    type V = Seq<u8>;

    /// The 256-byte encoding `A || B || C`.
    open spec fn view(&self) -> Seq<u8> {
        self.a@ + self.b@ + self.c@
    }
}

/// What a verifying key holds, as byte strings.
pub struct KeyView {
    pub alpha_g1: Seq<u8>,
    pub beta_g2: Seq<u8>,
    pub gamma_g2: Seq<u8>,
    pub delta_g2: Seq<u8>,
    pub ic: Seq<Seq<u8>>,
}

impl View for VK {
    type V = KeyView;

    open spec fn view(&self) -> KeyView {
        KeyView {
            alpha_g1: self.alpha_g1@,
            beta_g2: self.beta_g2@,
            gamma_g2: self.gamma_g2@,
            delta_g2: self.delta_g2@,
            ic: self.ic@.map_values(|g: G1| g@),
        }
    }
}

/// The base-field modulus `p` of BN254, big-endian.
pub open spec fn field_modulus_bytes() -> Seq<u8> {
    seq![
        0x30u8, 0x64u8, 0x4eu8, 0x72u8, 0xe1u8, 0x31u8, 0xa0u8, 0x29u8,
        0xb8u8, 0x50u8, 0x45u8, 0xb6u8, 0x81u8, 0x81u8, 0x58u8, 0x5du8,
        0x97u8, 0x81u8, 0x6au8, 0x91u8, 0x68u8, 0x71u8, 0xcau8, 0x8du8,
        0x3cu8, 0x20u8, 0x8cu8, 0x16u8, 0xd8u8, 0x7cu8, 0xfdu8, 0x47u8,
    ]
}

pub open spec fn field_modulus() -> nat {
    be_value(field_modulus_bytes())
}

/// `(p - v) mod p`.
pub open spec fn neg_mod_p(v: nat) -> nat {
    ((field_modulus() - v % field_modulus()) % (field_modulus() as int)) as nat
}

/// The negation of the G1 point `a`: `x` kept, `y` replaced by `(p - y) mod p`.
pub open spec fn g1_negation(a: Seq<u8>) -> Seq<u8> {
    a.subrange(0, 32) + be_bytes(neg_mod_p(be_value(a.subrange(32, 64))), 32)
}

/// The public-input commitment after the first `n` inputs:
/// `ic[0] + ic[1]·x[0] + ... + ic[n]·x[n-1]`, or `None` once a primitive
/// refuses its input.
pub open spec fn input_commitment(ic: Seq<Seq<u8>>, xs: Seq<Seq<u8>>, n: nat) -> Option<Seq<u8>>
    decreases n,
{
    if n == 0 {
        Some(ic[0])
    } else {
        match input_commitment(ic, xs, (n - 1) as nat) {
            Some(acc) => match g1_scaled_of(ic[n as int] + xs[n - 1]) {
                Some(t) => g1_sum_of(acc + t),
                None => None,
            },
            None => None,
        }
    }
}

pub open spec fn field_inputs(xs: Seq<[u8; 32]>) -> Seq<Seq<u8>> {
    xs.map_values(|x: [u8; 32]| x@)
}

/// `(-A, B), (alpha, beta), (vk_x, gamma), (C, delta)`, concatenated.
pub open spec fn pairing_input(proof: Seq<u8>, vk: KeyView, vk_x: Seq<u8>) -> Seq<u8> {
    g1_negation(proof.subrange(0, 64)) + proof.subrange(64, 192) + vk.alpha_g1 + vk.beta_g2 + vk_x
        + vk.gamma_g2 + proof.subrange(192, 256) + vk.delta_g2
}

/// The 32-byte big-endian encoding of one.
pub open spec fn pairing_one() -> Seq<u8> {
    Seq::new(32, |i: int| if i == 31 { 1u8 } else { 0u8 })
}

/// What verifying the encoded `proof` on the public inputs `xs` against `vk`
/// yields.
pub open spec fn groth16_outcome(proof: Seq<u8>, xs: Seq<Seq<u8>>, vk: KeyView) -> Result<
    bool,
    SentinelError,
> {
    if xs.len() + 1 != vk.ic.len() {
        Err(SentinelError::InvalidProofInputs)
    } else {
        match input_commitment(vk.ic, xs, xs.len()) {
            None => Err(SentinelError::ProofVerificationFailed),
            Some(vk_x) => match pairing_of(pairing_input(proof, vk, vk_x)) {
                None => Err(SentinelError::ProofVerificationFailed),
                Some(out) => Ok(out == pairing_one()),
            },
        }
    }
}

/// Splits a proof into its points `A`, `B` and `C`.
pub fn parse_proof(data: &[u8; GROTH16_PROOF_SIZE]) -> (r: Proof)
    ensures
        r.a@ == data@.subrange(0, 64),
        r.b@ == data@.subrange(64, 192),
        r.c@ == data@.subrange(192, 256),
        r@ == data@,
{
    let a: G1 = take_bytes(data.as_slice(), 0);
    let b: G2 = take_bytes(data.as_slice(), 64);
    let c: G1 = take_bytes(data.as_slice(), 192);
    let r = Proof { a, b, c };
    assert(r@ =~= data@);
    r
}

fn field_modulus_array() -> (r: [u8; 32])
    ensures
        r@ == field_modulus_bytes(),
{
    let r: [u8; 32] = [
        0x30, 0x64, 0x4e, 0x72, 0xe1, 0x31, 0xa0, 0x29,
        0xb8, 0x50, 0x45, 0xb6, 0x81, 0x81, 0x58, 0x5d,
        0x97, 0x81, 0x6a, 0x91, 0x68, 0x71, 0xca, 0x8d,
        0x3c, 0x20, 0x8c, 0x16, 0xd8, 0x7c, 0xfd, 0x47,
    ];
    assert(r@ =~= field_modulus_bytes());
    r
}

pub proof fn lemma_field_modulus_bounds()
    ensures
        0 < field_modulus() < pow256(32),
{
    let s = field_modulus_bytes();
    lemma_be_value_bound(s);
    lemma_pow256_positive(31);
    assert(s[0] as nat * pow256(31) > 0) by (nonlinear_arith)
        requires
            s[0] as nat == 0x30,
            pow256(31) > 0,
    ;
}

/// Negates a G1 point: `(x, y)` becomes `(x, (p - y) mod p)`.
pub fn negate_g1(point: &G1) -> (r: G1)
    ensures
        r@ == g1_negation(point@),
{
    let ghost v = be_value(point@.subrange(32, 64));
    let ghost m = field_modulus();
    proof {
        lemma_field_modulus_bounds();
    }
    let p = field_modulus_array();
    // Reduce y modulo p by subtracting p while it does not borrow; since
    // 2^256 < 6p this takes at most five rounds.
    let mut y: [u8; 32] = take_bytes(point.as_slice(), 32);
    let (mut d, mut borrow) = sub_be32(&y, &p);
    proof {
        lemma_small_mod(0, m);
    }
    while !borrow
        invariant
            m == field_modulus(),
            0 < m < pow256(32),
            p@ == field_modulus_bytes(),
            be_value(y@) % m == v % m,
            be_value(d@) + m == be_value(y@) + (if borrow {
                pow256(32)
            } else {
                0
            }),
            borrow == (be_value(y@) < m),
        decreases be_value(y@),
    {
        proof {
            lemma_mod_sub_multiples_vanish(be_value(y@) as int, m as int);
        }
        y = d;
        let (d2, b2) = sub_be32(&y, &p);
        d = d2;
        borrow = b2;
    }
    proof {
        lemma_small_mod(be_value(y@), m);
    }
    // y is nonzero exactly when 0 - y borrows.
    let zero = [0u8; 32];
    let (_, positive) = sub_be32(&zero, &y);
    proof {
        lemma_be_value_zeros(zero@);
    }
    let ny: [u8; 32];
    if !positive {
        ny = y;
        proof {
            vstd::arithmetic::div_mod::lemma_mod_self_0(m as int);
        }
    } else {
        let (t, _) = sub_be32(&p, &y);
        ny = t;
        proof {
            lemma_small_mod((m - be_value(y@)) as nat, m);
        }
    }
    proof {
        lemma_bytes_of_be_value(ny@);
    }
    let mut r = *point;
    put_bytes(&mut r, 32, ny.as_slice());
    assert(r@ =~= g1_negation(point@));
    r
}

proof fn lemma_input_commitment_stays_none(ic: Seq<Seq<u8>>, xs: Seq<Seq<u8>>, k: nat, n: nat)
    requires
        k <= n,
        input_commitment(ic, xs, k) is None,
    ensures
        input_commitment(ic, xs, n) is None,
    decreases n - k,
{
    if k < n {
        lemma_input_commitment_stays_none(ic, xs, k, (n - 1) as nat);
    }
}

/// Checks a Groth16 proof against `vk` on the given public inputs, each a
/// 32-byte big-endian field element. `Ok(true)` exactly when the pairing
/// product is one.
pub fn verify(proof: &Proof, public_inputs: &[[u8; 32]], vk: &VK) -> (r: Result<bool, SentinelError>)
    ensures
        r == groth16_outcome(proof@, field_inputs(public_inputs@), vk@),
{
    let ghost xs = field_inputs(public_inputs@);
    let ghost ic = vk@.ic;
    if vk.ic.len() == 0 || public_inputs.len() != vk.ic.len() - 1 {
        return Err(SentinelError::InvalidProofInputs);
    }
    let mut vk_x: G1 = vk.ic[0];
    let mut i: usize = 0;
    while i < public_inputs.len()
        invariant
            0 <= i <= public_inputs@.len(),
            public_inputs@.len() + 1 == vk.ic@.len(),
            xs == field_inputs(public_inputs@),
            ic == vk@.ic,
            input_commitment(ic, xs, i as nat) == Some(vk_x@),
        decreases public_inputs@.len() - i,
    {
        let mut mul_input: Vec<u8> = Vec::new();
        push_all(&mut mul_input, vk.ic[i + 1].as_slice());
        push_all(&mut mul_input, public_inputs[i].as_slice());
        assert(mul_input@ == ic[i + 1] + xs[i as int]);
        let t = match g1_mul(mul_input.as_slice()) {
            Ok(t) => t,
            Err(_) => {
                proof {
                    lemma_input_commitment_stays_none(ic, xs, (i + 1) as nat, xs.len());
                }
                return Err(SentinelError::ProofVerificationFailed);
            },
        };
        let mut add_input: Vec<u8> = Vec::new();
        push_all(&mut add_input, vk_x.as_slice());
        push_all(&mut add_input, t.as_slice());
        let s = match g1_add(add_input.as_slice()) {
            Ok(s) => s,
            Err(_) => {
                proof {
                    lemma_input_commitment_stays_none(ic, xs, (i + 1) as nat, xs.len());
                }
                return Err(SentinelError::ProofVerificationFailed);
            },
        };
        vk_x = take_bytes(s.as_slice(), 0);
        assert(vk_x@ =~= s@);
        i = i + 1;
    }
    let neg_a = negate_g1(&proof.a);
    let mut input: Vec<u8> = Vec::new();
    push_all(&mut input, neg_a.as_slice());
    push_all(&mut input, proof.b.as_slice());
    push_all(&mut input, vk.alpha_g1.as_slice());
    push_all(&mut input, vk.beta_g2.as_slice());
    push_all(&mut input, vk_x.as_slice());
    push_all(&mut input, vk.gamma_g2.as_slice());
    push_all(&mut input, proof.c.as_slice());
    push_all(&mut input, vk.delta_g2.as_slice());
    assert(proof.a@ == proof@.subrange(0, 64));
    assert(proof.b@ == proof@.subrange(64, 192));
    assert(proof.c@ == proof@.subrange(192, 256));
    assert(input@ == pairing_input(proof@, vk@, vk_x@));
    let out = match pairing(input.as_slice()) {
        Ok(out) => out,
        Err(_) => return Err(SentinelError::ProofVerificationFailed),
    };
    let mut valid = out[31] == 1;
    let mut j: usize = 0;
    while j < 31
        invariant
            0 <= j <= 31,
            out@.len() == 32,
            valid == (out@[31] == 1 && forall|k: int| 0 <= k < j ==> out@[k] == 0),
        decreases 31 - j,
    {
        valid = valid && out[j] == 0;
        j = j + 1;
    }
    assert(valid ==> out@ =~= pairing_one());
    assert(out@ == pairing_one() ==> out@[31] == 1 && forall|k: int| 0 <= k < 31 ==> out@[k] == 0);
    Ok(valid)
}

/// The field element of a plaintext amount: its little-endian bytes, then
/// 24 zero bytes.
pub open spec fn amount_field(amount: u64) -> Seq<u8> {
    Seq::new(32, |i: int| if i < 8 { ((amount as nat / pow256(i as nat)) % 256) as u8 } else { 0u8 })
}

/// Encodes `amount` as the 32-byte public input of a withdrawal.
pub fn amount_to_field(amount: u64) -> (r: [u8; 32])
    ensures
        r@ == amount_field(amount),
{
    let mut field = [0u8; 32];
    let mut rest: u64 = amount;
    let mut i: usize = 0;
    assert(pow256(0) == 1);
    assert(amount as nat / pow256(0) == amount as nat);
    while i < 8
        invariant
            0 <= i <= 8,
            field@.len() == 32,
            rest as nat == amount as nat / pow256(i as nat),
            forall|k: int| 0 <= k < i ==> field@[k] == amount_field(amount)[k],
            forall|k: int| i <= k < 32 ==> field@[k] == 0,
        decreases 8 - i,
    {
        field[i] = (rest % 256) as u8;
        proof {
            lemma_pow256_positive(i as nat);
            vstd::arithmetic::div_mod::lemma_div_denominator(
                amount as int,
                pow256(i as nat) as int,
                256,
            );
            assert(pow256((i + 1) as nat) == pow256(i as nat) * 256);
        }
        rest = rest / 256;
        i = i + 1;
    }
    assert(field@ =~= amount_field(amount));
    field
}

} // verus!
