//! The BN254 group operations and pairing, as provided by `solana_bn254`.
//!
//! Their results are fixed by the curve arithmetic alone, so each gets a name
//! here; the verifier is proved over those names.

use solana_bn254::prelude::AltBn128Error;
use vstd::prelude::*;

verus! {

#[verifier::external_type_specification]
#[verifier::external_body]
pub struct ExAltBn128Error(AltBn128Error);

/// The sum of the two G1 points encoded in `input`, if the primitive accepts it.
pub uninterp spec fn g1_sum_of(input: Seq<u8>) -> Option<Seq<u8>>;

/// The G1 point of `input` times its scalar, if the primitive accepts it.
pub uninterp spec fn g1_scaled_of(input: Seq<u8>) -> Option<Seq<u8>>;

/// The pairing-product check of the (G1, G2) pairs in `input`, if the
/// primitive accepts it.
pub uninterp spec fn pairing_of(input: Seq<u8>) -> Option<Seq<u8>>;

/// Relies on `solana_bn254::alt_bn128_addition`: the sum of two G1 points,
/// 64 bytes on success.
#[verifier::external_body]
pub(crate) fn g1_add(input: &[u8]) -> (r: Result<Vec<u8>, AltBn128Error>)
    ensures
        r is Ok <==> g1_sum_of(input@) is Some,
        r is Ok ==> r->Ok_0@ == g1_sum_of(input@)->Some_0,
        r is Ok ==> r->Ok_0@.len() == 64,
{
    solana_bn254::prelude::alt_bn128_addition(input)
}

/// Relies on `solana_bn254::alt_bn128_multiplication`: a G1 point times a
/// scalar, 64 bytes on success.
#[verifier::external_body]
pub(crate) fn g1_mul(input: &[u8]) -> (r: Result<Vec<u8>, AltBn128Error>)
    ensures
        r is Ok <==> g1_scaled_of(input@) is Some,
        r is Ok ==> r->Ok_0@ == g1_scaled_of(input@)->Some_0,
        r is Ok ==> r->Ok_0@.len() == 64,
{
    solana_bn254::prelude::alt_bn128_multiplication(input)
}

/// Relies on `solana_bn254::alt_bn128_pairing`: whether the product of the
/// pairings is one, as a 32-byte big-endian integer on success.
#[verifier::external_body]
pub(crate) fn pairing(input: &[u8]) -> (r: Result<Vec<u8>, AltBn128Error>)
    ensures
        r is Ok <==> pairing_of(input@) is Some,
        r is Ok ==> r->Ok_0@ == pairing_of(input@)->Some_0,
        r is Ok ==> r->Ok_0@.len() == 32,
{
    solana_bn254::prelude::alt_bn128_pairing(input)
}

} // verus!
