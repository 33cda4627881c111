//! The ways a transition can fail.

use vstd::prelude::*;

verus! {

/// Every failure aborts the whole transition; each kind is reported as is.
#[derive(Clone, Copy, Debug, PartialEq, Eq, Structural)]
pub enum SentinelError {
    RailInactive,
    Unauthorized,
    NullifierAlreadyUsed,
    RailSealed,
    RailAlreadySealed,
    RailAlreadyDeactivated,
    RailPaused,
    RailAlreadyPaused,
    RailNotPaused,
    HandshakeAlreadyRevoked,
    InvalidRail,
    Overflow,
    InsufficientNorthTokens,
    InvalidTokenAccount,
    InvalidMint,
    InvalidAmount,
    InsufficientVaultBalance,
    AlreadyWithdrawn,
    InvalidZkProof,
    InvalidProofInputs,
    ProofVerificationFailed,
    CommitmentMismatch,
    InvalidVaultPoolOwner,
    InvalidAssetState,
    InvalidTransferNonce,
    InvalidAuditSeal,
}

impl SentinelError {
    /// The message a client shows for this failure.
    pub fn message(&self) -> (r: String) {
        let s = match self {
            SentinelError::RailInactive => "This privacy rail has been deactivated",
            SentinelError::Unauthorized => "Unauthorized: You are not the authority",
            SentinelError::NullifierAlreadyUsed => "This nullifier has already been used",
            SentinelError::RailSealed => "This rail has been sealed",
            SentinelError::RailAlreadySealed => "This rail is already sealed",
            SentinelError::RailAlreadyDeactivated => "This rail has already been deactivated",
            SentinelError::RailPaused => "This rail is paused",
            SentinelError::RailAlreadyPaused => "This rail is already paused",
            SentinelError::RailNotPaused => "This rail is not paused",
            SentinelError::HandshakeAlreadyRevoked => "This handshake has already been revoked",
            SentinelError::InvalidRail => "Invalid rail for this handshake",
            SentinelError::Overflow => "Arithmetic overflow",
            SentinelError::InsufficientNorthTokens => "Authority must hold NORTH tokens",
            SentinelError::InvalidTokenAccount => "Invalid token account",
            SentinelError::InvalidMint => "Invalid mint",
            SentinelError::InvalidAmount => "Amount must be greater than zero",
            SentinelError::InsufficientVaultBalance => "Insufficient balance in vault",
            SentinelError::AlreadyWithdrawn => "This deposit has already been withdrawn",
            SentinelError::InvalidZkProof => "Invalid ZK proof  verification failed",
            SentinelError::InvalidProofInputs => "Wrong number of public inputs for this proof",
            SentinelError::ProofVerificationFailed => "Groth16 pairing check failed",
            SentinelError::CommitmentMismatch => "On-chain commitment does not match provided commitment",
            SentinelError::InvalidVaultPoolOwner => "Invalid vault pool owner",
            SentinelError::InvalidAssetState => "Invalid vault asset state",
            SentinelError::InvalidTransferNonce => "Invalid transfer nonce",
            SentinelError::InvalidAuditSeal => "A rail cannot be sealed with an all-zero audit seal",
        };
        s.to_string()
    }
}

} // verus!
