//! Error type for the reward-manager library.

use vstd::prelude::*;

verus! {

/// Errors that may be returned by the reward-manager logic.
///
/// Every failure is a typed, terminal decision: the first violated check
/// aborts the whole attempt and no partial state is committed.
#[derive(Clone, Copy, Debug, PartialEq, Eq, Structural)]
pub enum AudiusProgramError {
    /// Signature with an already met principal.
    SignCollission,
    /// Unexpected signer met.
    WrongSigner,
    /// Wrong sender account.
    IncorectSenderAccount,
    /// Wrong manager account.
    IncorectManagerAccount,
    /// Wrong reward manager key.
    WrongRewardManagerKey,
    /// Wrong recipient Solana key.
    WrongRecipientKey,
    /// Isn't enough signers keys.
    NotEnoughSigners,
    /// Secp256 instruction missing.
    Secp256InstructionMissing,
    /// Instruction load error.
    InstructionLoadError,
    /// Repeated senders.
    RepeatedSenders,
    /// Signature verification failed.
    SignatureVerificationFailed,
    /// Some signers have same operators.
    OperatorCollision,
    /// Sender account does not reference this reward manager.
    IncorectRewardManager,
    /// Account is already initialized.
    AccountAlreadyInitialized,
    /// Account is not initialized.
    UninitializedAccount,
    /// Address derivation did not yield a valid account address.
    InvalidSeeds,
    /// Account data could not be decoded.
    InvalidAccountData,
    /// Account is not owned by this program.
    IncorrectProgramId,
}

impl AudiusProgramError {
    /// Human-readable description of the error.
    pub fn message(&self) -> &'static str {
        match self {
            AudiusProgramError::SignCollission => "Signature with an already met principal",
            AudiusProgramError::WrongSigner => "Unexpected signer met",
            AudiusProgramError::IncorectSenderAccount => "Incorect sender account",
            AudiusProgramError::IncorectManagerAccount => "Incorect account manager",
            AudiusProgramError::WrongRewardManagerKey => "Wrong reward manager key",
            AudiusProgramError::WrongRecipientKey => "Wrong recipient Solana key",
            AudiusProgramError::NotEnoughSigners => "Isn't enough signers keys",
            AudiusProgramError::Secp256InstructionMissing => "Secp256 instruction missing",
            AudiusProgramError::InstructionLoadError => "Instruction load error",
            AudiusProgramError::RepeatedSenders => "Repeated sender",
            AudiusProgramError::SignatureVerificationFailed => "Signature verification failed",
            AudiusProgramError::OperatorCollision => "Some signers have same operators",
            AudiusProgramError::IncorectRewardManager => "Sender references another reward manager",
            AudiusProgramError::AccountAlreadyInitialized => "Account is already initialized",
            AudiusProgramError::UninitializedAccount => "Account is not initialized",
            AudiusProgramError::InvalidSeeds => "Invalid seeds for address derivation",
            AudiusProgramError::InvalidAccountData => "Account data could not be decoded",
            AudiusProgramError::IncorrectProgramId => "Account is not owned by this program",
        }
    }
}

} // verus!
