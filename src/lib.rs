//! A confidential-asset ledger: a Groth16 verifier over BN254 and the rail
//! state machine whose transitions it admits.

pub mod bytes;
pub mod bn254;
pub mod groth16;
pub mod vk;
pub mod error;
pub mod state;
pub mod address;
pub mod rail;
pub mod transitions;
pub mod laws;
