//! The error taxonomy of the minting pipeline.
//!
//! Every step propagates its failure verbatim and aborts the pipeline at
//! once; there is no local recovery or retry. Each concrete error belongs
//! to one of four classes: allocation failures, authorization failures,
//! state failures, and external-protocol failures.

use vstd::prelude::*;

verus! {

/// A concrete reason for which a pipeline step refuses to run.
#[derive(Clone, Copy, Debug, PartialEq, Eq, Structural)]
pub enum PipelineError {
    /// The supplied account list is shorter than the seven required roles.
    NotEnoughAccounts,
    /// An account that a step must mutate was not marked writable.
    AccountNotWritable,
    /// A required signer did not sign the enclosing transaction.
    MissingSignature,
    /// The payer's balance is below the required storage deposit.
    InsufficientFunds,
    /// An account already exists at an address that must be fresh.
    AccountAlreadyExists,
    /// No account exists at an address that a step must read or credit.
    AccountNotFound,
    /// The mint record was already stamped as a token class.
    AlreadyInitialized,
    /// An account that a step must use holds no initialized record of the
    /// expected kind.
    UninitializedAccount,
    /// An account is not owned by the program that must write into it.
    InvalidAccountOwner,
    /// The mint record's storage does not have the standard size.
    InvalidAccountSize,
    /// The destination holding account references a different mint.
    MintMismatch,
    /// The supplied authority is not the mint's minting authority.
    InvalidAuthority,
    /// Minting would overflow the supply or the destination balance.
    Overflow,
    /// An external program rejected the instruction data as malformed.
    MalformedInstruction,
}

/// The four failure classes of the pipeline's error taxonomy.
#[derive(Clone, Copy, Debug, PartialEq, Eq, Structural)]
pub enum ErrorClass {
    /// Insufficient payer balance or an address collision.
    Allocation,
    /// A missing required signature or a wrong authority.
    Authorization,
    /// An account already initialized, missing, mis-sized, or mismatched.
    State,
    /// Malformed instruction data rejected by an external program.
    ExternalProtocol,
}

impl PipelineError {
    /// The class that this concrete error belongs to.
    pub open spec fn spec_class(self) -> ErrorClass {
        match self {
            PipelineError::InsufficientFunds => ErrorClass::Allocation,
            PipelineError::AccountAlreadyExists => ErrorClass::Allocation,
            PipelineError::MissingSignature => ErrorClass::Authorization,
            PipelineError::InvalidAuthority => ErrorClass::Authorization,
            PipelineError::AccountNotWritable => ErrorClass::State,
            PipelineError::AccountNotFound => ErrorClass::State,
            PipelineError::AlreadyInitialized => ErrorClass::State,
            PipelineError::UninitializedAccount => ErrorClass::State,
            PipelineError::InvalidAccountOwner => ErrorClass::State,
            PipelineError::InvalidAccountSize => ErrorClass::State,
            PipelineError::MintMismatch => ErrorClass::State,
            PipelineError::Overflow => ErrorClass::State,
            PipelineError::NotEnoughAccounts => ErrorClass::ExternalProtocol,
            PipelineError::MalformedInstruction => ErrorClass::ExternalProtocol,
        }
    }

    /// Returns the failure class of this error.
    pub fn class(&self) -> (c: ErrorClass)
        ensures
            c == self.spec_class(),
    {
        match self {
            PipelineError::InsufficientFunds => ErrorClass::Allocation,
            PipelineError::AccountAlreadyExists => ErrorClass::Allocation,
            PipelineError::MissingSignature => ErrorClass::Authorization,
            PipelineError::InvalidAuthority => ErrorClass::Authorization,
            PipelineError::AccountNotWritable => ErrorClass::State,
            PipelineError::AccountNotFound => ErrorClass::State,
            PipelineError::AlreadyInitialized => ErrorClass::State,
            PipelineError::UninitializedAccount => ErrorClass::State,
            PipelineError::InvalidAccountOwner => ErrorClass::State,
            PipelineError::InvalidAccountSize => ErrorClass::State,
            PipelineError::MintMismatch => ErrorClass::State,
            PipelineError::Overflow => ErrorClass::State,
            PipelineError::NotEnoughAccounts => ErrorClass::ExternalProtocol,
            PipelineError::MalformedInstruction => ErrorClass::ExternalProtocol,
        }
    }
}

} // verus!
