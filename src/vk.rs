//! The three verifying keys a transition is checked against. Provers target
//! these exact bytes.

use crate::groth16::{KeyView, G1, G2, VK};
use vstd::prelude::*;

verus! {

/// `alpha` of the trusted setup that every key shares.
pub const SETUP_ALPHA_G1: G1 = [
    0x18, 0x01, 0x34, 0x26, 0x24, 0x8f, 0xb8, 0x92, 0x8a, 0x7b, 0x01, 0x05, 0x6d, 0x67, 0xed, 0xa4,
    0x16, 0x41, 0xf2, 0x8c, 0xb0, 0x87, 0xb9, 0x63, 0x97, 0x7b, 0x5b, 0x3e, 0x89, 0x9c, 0xce, 0x93,
    0x28, 0x57, 0x13, 0xa1, 0xd0, 0x30, 0x18, 0xae, 0x7a, 0xb4, 0x2f, 0xce, 0xcd, 0x34, 0x8b, 0xf3,
    0x59, 0x59, 0x36, 0x99, 0x64, 0x3b, 0x27, 0x8e, 0x17, 0xda, 0x88, 0x0b, 0xa7, 0x34, 0x0d, 0x34,
];

/// `beta` of the trusted setup that every key shares.
pub const SETUP_BETA_G2: G2 = [
    0x21, 0xe4, 0xd3, 0xd1, 0x21, 0xb8, 0xb3, 0xd4, 0xee, 0x59, 0x90, 0xe1, 0xb7, 0xf9, 0xb5, 0xed,
    0xf1, 0x29, 0xf7, 0x7a, 0x02, 0x9a, 0xd4, 0x2c, 0xfe, 0xde, 0x02, 0x4a, 0x8f, 0xf2, 0x34, 0x07,
    0x2e, 0x69, 0xd5, 0x03, 0x5f, 0xfb, 0x53, 0x7d, 0x39, 0x9a, 0xe2, 0x52, 0x19, 0x1d, 0xe4, 0xb0,
    0x8d, 0xee, 0xc2, 0x34, 0x11, 0x0b, 0x0b, 0xc8, 0x77, 0x7a, 0xd9, 0xd6, 0xda, 0x06, 0x99, 0xfe,
    0x2f, 0x0b, 0x0b, 0x95, 0xd2, 0x5e, 0x79, 0xb6, 0x02, 0xc3, 0x6e, 0xee, 0x0b, 0x35, 0x24, 0x87,
    0x72, 0xaa, 0xc9, 0x3a, 0x41, 0x7a, 0x5e, 0xb8, 0xe0, 0xec, 0x45, 0x64, 0xad, 0x5b, 0x60, 0x53,
    0x2f, 0x77, 0x6c, 0xed, 0xcb, 0x46, 0x7e, 0xce, 0x45, 0x15, 0x17, 0x2a, 0x5d, 0x7b, 0xc9, 0x6f,
    0x0b, 0x93, 0x0c, 0x5a, 0xd8, 0x86, 0x01, 0x38, 0xf8, 0x0f, 0x74, 0xde, 0xa8, 0xce, 0x73, 0x8b,
];

/// `gamma` of the trusted setup that every key shares.
pub const SETUP_GAMMA_G2: G2 = [
    0x19, 0x8e, 0x93, 0x93, 0x92, 0x0d, 0x48, 0x3a, 0x72, 0x60, 0xbf, 0xb7, 0x31, 0xfb, 0x5d, 0x25,
    0xf1, 0xaa, 0x49, 0x33, 0x35, 0xa9, 0xe7, 0x12, 0x97, 0xe4, 0x85, 0xb7, 0xae, 0xf3, 0x12, 0xc2,
    0x18, 0x00, 0xde, 0xef, 0x12, 0x1f, 0x1e, 0x76, 0x42, 0x6a, 0x00, 0x66, 0x5e, 0x5c, 0x44, 0x79,
    0x67, 0x43, 0x22, 0xd4, 0xf7, 0x5e, 0xda, 0xdd, 0x46, 0xde, 0xbd, 0x5c, 0xd9, 0x92, 0xf6, 0xed,
    0x09, 0x06, 0x89, 0xd0, 0x58, 0x5f, 0xf0, 0x75, 0xec, 0x9e, 0x99, 0xad, 0x69, 0x0c, 0x33, 0x95,
    0xbc, 0x4b, 0x31, 0x33, 0x70, 0xb3, 0x8e, 0xf3, 0x55, 0xac, 0xda, 0xdc, 0xd1, 0x22, 0x97, 0x5b,
    0x12, 0xc8, 0x5e, 0xa5, 0xdb, 0x8c, 0x6d, 0xeb, 0x4a, 0xab, 0x71, 0x80, 0x8d, 0xcb, 0x40, 0x8f,
    0xe3, 0xd1, 0xe7, 0x69, 0x0c, 0x43, 0xd3, 0x7b, 0x4c, 0xe6, 0xcc, 0x01, 0x66, 0xfa, 0x7d, 0xaa,
];

/// `delta` of the key of deposits.
pub const COMMITMENT_DELTA_G2: G2 = [
    0x2d, 0x27, 0xc4, 0x6c, 0xbd, 0xb5, 0xa1, 0xc4, 0x0a, 0x94, 0xec, 0x80, 0x70, 0xd8, 0x71, 0x2c,
    0x27, 0x80, 0xcf, 0x3d, 0xce, 0xf4, 0xbf, 0x12, 0x90, 0x72, 0x9e, 0x70, 0x6f, 0xb9, 0xbf, 0x7b,
    0x2e, 0xc7, 0x86, 0xd3, 0xc6, 0x39, 0xf9, 0xd5, 0x7b, 0x5b, 0xcc, 0x3b, 0xc0, 0xf1, 0x4d, 0x7f,
    0x51, 0xa2, 0x62, 0x65, 0x43, 0xd1, 0x3f, 0x48, 0x26, 0x30, 0x1e, 0xab, 0xba, 0xae, 0xee, 0x73,
    0x10, 0xcf, 0x8d, 0x3a, 0xea, 0xd9, 0xfb, 0xfb, 0x56, 0xaa, 0x2f, 0xe8, 0x64, 0x3a, 0xf1, 0x72,
    0x41, 0xbb, 0xfc, 0x4b, 0x78, 0x07, 0x44, 0x1c, 0xbb, 0x5d, 0x70, 0xa9, 0x68, 0x06, 0xd5, 0x72,
    0x0d, 0xde, 0x27, 0x37, 0x6e, 0xf8, 0x0e, 0x7f, 0x38, 0xf7, 0xe2, 0x06, 0x1e, 0x7b, 0xd0, 0x51,
    0x0b, 0x68, 0x28, 0xdd, 0x91, 0x48, 0x71, 0xc4, 0xb2, 0x16, 0xd1, 0x39, 0x2d, 0xcd, 0x0e, 0x54,
];

/// The input points of the key of deposits.
pub const COMMITMENT_IC: [G1; 3] = [
    [
        0x22, 0xbb, 0x4a, 0xae, 0xfb, 0x33, 0x24, 0x55, 0xca, 0xe8, 0x7b, 0xc5, 0x5b, 0xe8, 0x22, 0x51,
        0x36, 0x86, 0x7d, 0x99, 0x66, 0xdc, 0x25, 0x8e, 0xd0, 0xf8, 0x50, 0x8c, 0x98, 0x3c, 0xa3, 0x1d,
        0x12, 0x91, 0xdd, 0x55, 0x17, 0x0d, 0xfd, 0xa7, 0x6f, 0x73, 0x82, 0x2c, 0xed, 0x03, 0x13, 0x9f,
        0x29, 0xf0, 0xd2, 0xc3, 0xe3, 0x7c, 0x97, 0x17, 0x1c, 0xae, 0x91, 0xff, 0x86, 0x83, 0xfd, 0xf0,
    ],
    [
        0x30, 0x59, 0x30, 0x7c, 0x59, 0x30, 0xaa, 0xeb, 0x2f, 0xb8, 0x4b, 0x89, 0xdf, 0x36, 0x3f, 0x13,
        0x00, 0x9d, 0x63, 0x90, 0x96, 0xa7, 0xcc, 0xb6, 0x3c, 0x54, 0x16, 0x38, 0x0a, 0x47, 0x40, 0x31,
        0x1f, 0xb0, 0x42, 0x45, 0xbf, 0xa4, 0xe0, 0x30, 0xc3, 0xe9, 0xca, 0xaa, 0xbe, 0x79, 0xf2, 0xca,
        0x72, 0x23, 0x8f, 0x3c, 0xc3, 0x41, 0x7d, 0x39, 0x34, 0x7f, 0x3e, 0x32, 0x7e, 0xd4, 0x53, 0x46,
    ],
    [
        0x17, 0x83, 0x7a, 0xe7, 0x84, 0xa9, 0xcd, 0x7a, 0x88, 0x86, 0x22, 0xfd, 0x1c, 0xb1, 0x6d, 0x18,
        0x85, 0x2d, 0x27, 0xd3, 0xe2, 0xc8, 0x53, 0xe5, 0x84, 0x38, 0x39, 0x50, 0xee, 0xe4, 0x05, 0x7d,
        0x1c, 0x4c, 0x43, 0x7e, 0x1e, 0xad, 0x2a, 0x03, 0x69, 0x6d, 0xc6, 0xda, 0xc2, 0xee, 0x28, 0x29,
        0x06, 0xe2, 0xc6, 0xbe, 0xd2, 0xd6, 0x9e, 0x7a, 0x1a, 0x66, 0x62, 0x21, 0xf4, 0x4d, 0x6f, 0xb3,
    ],
];

/// The key of deposits: public inputs `commitment`, `nullifier_hash`.
pub open spec fn commitment_key() -> KeyView {
    KeyView {
        alpha_g1: SETUP_ALPHA_G1@,
        beta_g2: SETUP_BETA_G2@,
        gamma_g2: SETUP_GAMMA_G2@,
        delta_g2: COMMITMENT_DELTA_G2@,
        ic: COMMITMENT_IC@.map_values(|g: G1| g@),
    }
}

pub fn commitment_vk() -> (r: VK)
    ensures
        r@ == commitment_key(),
{
    let ic: Vec<G1> = vec![COMMITMENT_IC[0], COMMITMENT_IC[1], COMMITMENT_IC[2]];
    let r = VK {
        alpha_g1: SETUP_ALPHA_G1,
        beta_g2: SETUP_BETA_G2,
        gamma_g2: SETUP_GAMMA_G2,
        delta_g2: COMMITMENT_DELTA_G2,
        ic,
    };
    assert(r@.ic =~= commitment_key().ic);
    r
}

/// `delta` of the key of transfers.
pub const TRANSFER_DELTA_G2: G2 = [
    0x22, 0x39, 0xfe, 0x17, 0x28, 0x0c, 0x88, 0x1e, 0x65, 0x91, 0xd5, 0x70, 0xa6, 0x91, 0x44, 0x79,
    0x10, 0x27, 0xc2, 0x3b, 0x0e, 0x68, 0x2a, 0x34, 0x1b, 0x9e, 0x18, 0xd8, 0xf6, 0x99, 0x65, 0xa5,
    0x06, 0x15, 0x3d, 0x50, 0xe8, 0xb4, 0x05, 0xb2, 0x14, 0xf0, 0x6a, 0x47, 0x47, 0x6f, 0xc4, 0xce,
    0xa2, 0x8e, 0x79, 0x74, 0x16, 0x59, 0x10, 0x4c, 0xe0, 0xed, 0x26, 0x27, 0x09, 0xc9, 0x40, 0x67,
    0x1a, 0x76, 0x58, 0xf0, 0x82, 0xef, 0xd1, 0x2d, 0x0e, 0xdb, 0x8a, 0x8d, 0x42, 0x68, 0xf9, 0x95,
    0x67, 0x8e, 0x3b, 0x8c, 0xbb, 0x8f, 0xd9, 0x82, 0xc2, 0x4e, 0xd1, 0x37, 0x2b, 0xcf, 0xf8, 0xe9,
    0x1c, 0x10, 0xac, 0x56, 0x2e, 0x7c, 0x83, 0xc6, 0xe6, 0x9b, 0xfa, 0xbc, 0x28, 0xf8, 0x78, 0xe1,
    0x4a, 0xf1, 0x1a, 0x61, 0x14, 0x61, 0x42, 0xb5, 0xe1, 0xa5, 0xae, 0x39, 0x63, 0x1b, 0xcc, 0x8b,
];

/// The input points of the key of transfers.
pub const TRANSFER_IC: [G1; 6] = [
    [
        0x03, 0x3b, 0x45, 0x11, 0x4c, 0x23, 0x5e, 0x5d, 0xe6, 0xb2, 0xb1, 0x27, 0xf3, 0xd7, 0xcc, 0x1f,
        0x11, 0x31, 0x45, 0xe8, 0x06, 0xb5, 0x6c, 0xc6, 0x6c, 0xc2, 0x72, 0xb8, 0x40, 0xb0, 0x84, 0xed,
        0x2a, 0xb1, 0x8f, 0x97, 0x93, 0xf2, 0x73, 0x03, 0x05, 0x66, 0x8f, 0x8d, 0x99, 0x41, 0x7b, 0x99,
        0xf2, 0x3d, 0x30, 0x85, 0x40, 0xc5, 0x5f, 0x78, 0x75, 0xd9, 0x70, 0x78, 0xfd, 0xe5, 0xe6, 0x65,
    ],
    [
        0x0a, 0x40, 0x72, 0x2e, 0xca, 0x7f, 0x62, 0x3e, 0x97, 0x4d, 0x96, 0x1f, 0xe3, 0xf6, 0xf5, 0xd9,
        0x24, 0x0e, 0x38, 0xc1, 0x8d, 0x89, 0xcf, 0xc7, 0xf7, 0xf4, 0x46, 0xc0, 0x93, 0xd8, 0x1c, 0x6e,
        0x18, 0x6b, 0x59, 0x31, 0x69, 0xe7, 0x56, 0x3f, 0xca, 0x5a, 0x08, 0xdf, 0xb9, 0x39, 0x70, 0xce,
        0x9c, 0xd9, 0xfb, 0x8d, 0xcb, 0xbf, 0x9b, 0x96, 0x34, 0x5c, 0x9f, 0xd4, 0xe9, 0x59, 0x53, 0x84,
    ],
    [
        0x2a, 0x6a, 0x1e, 0x6c, 0x71, 0x3e, 0x9e, 0x9d, 0x10, 0x62, 0x8c, 0xc0, 0x1a, 0x8e, 0x7a, 0x83,
        0xdb, 0x91, 0x01, 0x58, 0xdc, 0xaf, 0x73, 0xe7, 0x26, 0x64, 0xfe, 0x70, 0x1c, 0xc4, 0x5b, 0x5f,
        0x22, 0xb0, 0xbe, 0x82, 0x78, 0x10, 0x51, 0xd4, 0x67, 0x77, 0x79, 0x26, 0x78, 0x79, 0x8c, 0xec,
        0x83, 0xb6, 0x01, 0x94, 0xa7, 0x69, 0xa1, 0xbb, 0xe8, 0x99, 0x6d, 0x24, 0x8c, 0xdb, 0x0a, 0x93,
    ],
    [
        0x0d, 0x7b, 0xee, 0xf5, 0xb4, 0x30, 0x79, 0xf6, 0xaa, 0x44, 0x7b, 0xa5, 0x7c, 0x52, 0x6a, 0x2a,
        0x1e, 0x58, 0x56, 0xff, 0xe6, 0x60, 0x6f, 0x02, 0x3f, 0xe8, 0x87, 0x18, 0xa8, 0x3b, 0x37, 0x06,
        0x2c, 0x63, 0x3d, 0xb1, 0xd9, 0xf4, 0xf7, 0x44, 0x66, 0x2d, 0xca, 0xe0, 0xd1, 0x69, 0x81, 0xbb,
        0x20, 0x68, 0x62, 0xcf, 0x3d, 0xf7, 0xaa, 0x63, 0x72, 0xc0, 0x05, 0x37, 0x4a, 0x67, 0x88, 0x5c,
    ],
    [
        0x20, 0x6a, 0x05, 0x5c, 0x39, 0x1f, 0xd8, 0x9f, 0xfc, 0x07, 0x6d, 0xc3, 0x31, 0xe7, 0x28, 0x9c,
        0x32, 0x9c, 0xf6, 0x3f, 0xab, 0x74, 0x9d, 0x54, 0xc2, 0x0d, 0x1e, 0xe9, 0xa8, 0x32, 0xb7, 0xb0,
        0x03, 0xbe, 0x52, 0x82, 0x4f, 0x15, 0xc9, 0x26, 0xd2, 0x83, 0x49, 0x60, 0xd6, 0x93, 0x6b, 0x79,
        0x82, 0x79, 0x37, 0xa7, 0x58, 0x89, 0xa5, 0xc4, 0x09, 0xbf, 0x77, 0x38, 0xfa, 0xb2, 0x4e, 0x3d,
    ],
    [
        0x0c, 0x88, 0x8a, 0x5f, 0xed, 0x5e, 0x2d, 0x2e, 0x3a, 0xdf, 0x5c, 0x1e, 0x60, 0x32, 0x6e, 0xba,
        0x14, 0x39, 0x0d, 0xdc, 0xcb, 0x17, 0x49, 0xf6, 0x5b, 0x55, 0xea, 0xbf, 0x9e, 0x8a, 0x6b, 0x47,
        0x1b, 0x72, 0xe5, 0xc8, 0x03, 0xed, 0xf6, 0xf6, 0x18, 0x7a, 0xe5, 0xd4, 0xc0, 0x56, 0x24, 0xa4,
        0x82, 0xdc, 0x61, 0xd2, 0x45, 0xec, 0x26, 0x3b, 0xc9, 0x12, 0xcc, 0x7e, 0x20, 0x0f, 0xdc, 0x98,
    ],
];

/// The key of transfers: public inputs sender before and after, receiver
/// before and after, `nullifier_hash`.
pub open spec fn transfer_key() -> KeyView {
    KeyView {
        alpha_g1: SETUP_ALPHA_G1@,
        beta_g2: SETUP_BETA_G2@,
        gamma_g2: SETUP_GAMMA_G2@,
        delta_g2: TRANSFER_DELTA_G2@,
        ic: TRANSFER_IC@.map_values(|g: G1| g@),
    }
}

pub fn transfer_vk() -> (r: VK)
    ensures
        r@ == transfer_key(),
{
    let ic: Vec<G1> = vec![TRANSFER_IC[0], TRANSFER_IC[1], TRANSFER_IC[2], TRANSFER_IC[3], TRANSFER_IC[4], TRANSFER_IC[5]];
    let r = VK {
        alpha_g1: SETUP_ALPHA_G1,
        beta_g2: SETUP_BETA_G2,
        gamma_g2: SETUP_GAMMA_G2,
        delta_g2: TRANSFER_DELTA_G2,
        ic,
    };
    assert(r@.ic =~= transfer_key().ic);
    r
}

/// `delta` of the key of withdrawals.
pub const WITHDRAW_DELTA_G2: G2 = [
    0x18, 0xab, 0xb4, 0x17, 0xde, 0x0a, 0x41, 0x2a, 0x2e, 0x3b, 0x9b, 0x71, 0xfe, 0x44, 0x45, 0x75,
    0x91, 0x41, 0x04, 0x0e, 0x70, 0xc8, 0x9c, 0xed, 0x34, 0x73, 0x87, 0x19, 0x04, 0xf1, 0xf5, 0xb7,
    0x24, 0xd6, 0x14, 0x1d, 0xe9, 0x9a, 0x01, 0x08, 0x3c, 0x28, 0x3c, 0x40, 0xcd, 0x2d, 0xae, 0x37,
    0x0e, 0xd3, 0x82, 0x38, 0x2b, 0x28, 0x4d, 0xc0, 0x4a, 0xeb, 0xec, 0x4d, 0x8c, 0xa7, 0x30, 0x6e,
    0x02, 0xdf, 0xad, 0xdc, 0x9e, 0x4b, 0x6e, 0xff, 0x46, 0x40, 0x0e, 0xb2, 0x82, 0xec, 0x17, 0xb0,
    0x90, 0x8c, 0xd4, 0xf6, 0xcb, 0xa0, 0xbd, 0x55, 0x27, 0xe8, 0x40, 0x12, 0x9d, 0xb6, 0x56, 0x86,
    0x13, 0x6b, 0x5f, 0xdb, 0x06, 0xe2, 0x57, 0x58, 0x6c, 0x89, 0x51, 0x85, 0x45, 0xe1, 0xb9, 0xa4,
    0x5f, 0xfd, 0x8e, 0xab, 0xe8, 0xe6, 0x41, 0xb2, 0x2c, 0xc7, 0x65, 0x28, 0xeb, 0x5d, 0x9f, 0xb7,
];

/// The input points of the key of withdrawals.
pub const WITHDRAW_IC: [G1; 5] = [
    [
        0x28, 0x20, 0xad, 0x6e, 0x00, 0xc8, 0x51, 0xc7, 0x2a, 0xc8, 0xde, 0x10, 0xc1, 0xba, 0xf0, 0x84,
        0x44, 0xf3, 0xd2, 0x37, 0x79, 0xdf, 0xe2, 0xc2, 0x24, 0x37, 0xfc, 0x9c, 0x38, 0xc4, 0x9e, 0x7f,
        0x07, 0x86, 0xff, 0xf2, 0x22, 0x6e, 0x35, 0x9d, 0xc0, 0xd4, 0x4c, 0xbd, 0x7f, 0xf1, 0xc3, 0xb3,
        0xbd, 0x2e, 0x4f, 0x41, 0x75, 0x80, 0xa8, 0x3d, 0x5c, 0x41, 0x69, 0x81, 0xfd, 0xb3, 0x25, 0x59,
    ],
    [
        0x15, 0x9e, 0x42, 0xab, 0x34, 0xb5, 0x46, 0xbb, 0xb4, 0xa5, 0x81, 0xb1, 0xaa, 0x69, 0xd6, 0x3f,
        0x29, 0x58, 0x17, 0x4b, 0x19, 0x87, 0x56, 0x68, 0x7d, 0x3f, 0x69, 0x63, 0x51, 0x82, 0xf0, 0x88,
        0x19, 0xd3, 0x22, 0x63, 0x51, 0x0c, 0xcd, 0xb2, 0xe7, 0xde, 0x90, 0x5e, 0xd0, 0x96, 0x4b, 0xa8,
        0xaf, 0xb5, 0xa6, 0x2a, 0x79, 0x20, 0x42, 0xa1, 0xf8, 0xca, 0xbf, 0x7f, 0x69, 0xed, 0xf2, 0x13,
    ],
    [
        0x00, 0x08, 0x81, 0x34, 0x0b, 0xae, 0x5e, 0x4c, 0x68, 0x6a, 0xfc, 0x82, 0x58, 0x1e, 0x04, 0xdb,
        0xfb, 0xf6, 0x62, 0x38, 0xcc, 0x97, 0x82, 0x72, 0xb2, 0xea, 0x11, 0x3c, 0x4c, 0x1e, 0x0f, 0x44,
        0x27, 0x61, 0x26, 0x9e, 0xde, 0xac, 0x21, 0x0e, 0x2b, 0x31, 0x24, 0x9e, 0xf2, 0xc7, 0x8d, 0xcd,
        0xc6, 0x1e, 0xd0, 0xe0, 0x1f, 0x87, 0xe2, 0x75, 0xf4, 0xc4, 0xf5, 0x21, 0x84, 0xe6, 0x3c, 0x6b,
    ],
    [
        0x12, 0x85, 0x70, 0xa8, 0xc4, 0x0f, 0xab, 0x84, 0x79, 0x76, 0xed, 0x6f, 0xde, 0xc9, 0xc2, 0x51,
        0xad, 0x0f, 0x91, 0x2c, 0xfa, 0x6e, 0x2f, 0x84, 0x57, 0x07, 0x01, 0xc7, 0x04, 0xf2, 0x11, 0x07,
        0x22, 0x20, 0xf8, 0xf4, 0xb0, 0xad, 0x83, 0x7a, 0x97, 0x67, 0xdb, 0xb3, 0xee, 0xaa, 0xaf, 0x8f,
        0x13, 0xc0, 0xfa, 0xd3, 0xb6, 0x40, 0xe8, 0xdd, 0x60, 0x6d, 0x6b, 0xcd, 0xb0, 0x8a, 0x41, 0x90,
    ],
    [
        0x1f, 0xf4, 0x6b, 0x4e, 0xde, 0xe3, 0x51, 0xdc, 0xda, 0x7d, 0xbe, 0xbc, 0x79, 0x02, 0x1f, 0x47,
        0x31, 0xb8, 0x1e, 0x94, 0x72, 0xa2, 0xa2, 0x57, 0xdb, 0x39, 0x63, 0xb8, 0xa9, 0x3f, 0xcf, 0xf3,
        0x2c, 0x38, 0x47, 0xaf, 0x21, 0xb7, 0xb7, 0xae, 0x84, 0x22, 0x05, 0x74, 0x0e, 0x84, 0xd8, 0x44,
        0xb6, 0x3c, 0xbf, 0x76, 0x50, 0xa8, 0x75, 0xf8, 0x72, 0x19, 0x1a, 0x35, 0x5f, 0xb0, 0xd8, 0x9a,
    ],
];

/// The key of withdrawals: public inputs balance before and after, the
/// amount field, `nullifier_hash`.
pub open spec fn withdraw_key() -> KeyView {
    KeyView {
        alpha_g1: SETUP_ALPHA_G1@,
        beta_g2: SETUP_BETA_G2@,
        gamma_g2: SETUP_GAMMA_G2@,
        delta_g2: WITHDRAW_DELTA_G2@,
        ic: WITHDRAW_IC@.map_values(|g: G1| g@),
    }
}

pub fn withdraw_vk() -> (r: VK)
    ensures
        r@ == withdraw_key(),
{
    let ic: Vec<G1> = vec![WITHDRAW_IC[0], WITHDRAW_IC[1], WITHDRAW_IC[2], WITHDRAW_IC[3], WITHDRAW_IC[4]];
    let r = VK {
        alpha_g1: SETUP_ALPHA_G1,
        beta_g2: SETUP_BETA_G2,
        gamma_g2: SETUP_GAMMA_G2,
        delta_g2: WITHDRAW_DELTA_G2,
        ic,
    };
    assert(r@.ic =~= withdraw_key().ic);
    r
}

} // verus!
