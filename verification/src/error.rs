//! The errors an operation can fail with. Every failure aborts the whole
//! request; the host discards all buffered writes, so an error implies zero
//! observable state change.

use vstd::prelude::*;

verus! {

/// Why a request was rejected.
#[derive(Debug, Clone, Copy, PartialEq, Eq, Structural)]
pub enum EscrowError {
    /// The request payload is malformed: empty, unknown tag, or a numeric
    /// argument region shorter than required.
    InvalidInstructionData,
    /// An account's contents or identity are wrong: a supplied custody
    /// address does not match the re-derived one, a record's initialization
    /// byte is invalid, or a seller/treasury account does not match the
    /// stored record.
    InvalidAccountData,
    /// An account is not owned by this program where it must be.
    IncorrectProgramId,
    /// A required signer did not authorize the request.
    MissingRequiredSignature,
    /// An attempt to overwrite an active listing record.
    AccountAlreadyInitialized,
    /// A record that must be initialized is not.
    UninitializedAccount,
    /// The ordered account list is shorter than the operation needs.
    NotEnoughAccountKeys,
}

/// The name each error is described by.
pub open spec fn spec_describe(e: EscrowError) -> Seq<char> {
    match e {
        EscrowError::InvalidInstructionData => "invalid instruction data"@,
        EscrowError::InvalidAccountData => "invalid account data"@,
        EscrowError::IncorrectProgramId => "incorrect program id"@,
        EscrowError::MissingRequiredSignature => "missing required signature"@,
        EscrowError::AccountAlreadyInitialized => "account already initialized"@,
        EscrowError::UninitializedAccount => "uninitialized account"@,
        EscrowError::NotEnoughAccountKeys => "not enough account keys"@,
    }
}

impl EscrowError {
    /// A short human-readable name for the error.
    pub fn describe(&self) -> (r: &'static str)
        ensures
            r@ == spec_describe(*self),
            r@.len() > 0,
    {
        let s = match self {
            EscrowError::InvalidInstructionData => "invalid instruction data",
            EscrowError::InvalidAccountData => "invalid account data",
            EscrowError::IncorrectProgramId => "incorrect program id",
            EscrowError::MissingRequiredSignature => "missing required signature",
            EscrowError::AccountAlreadyInitialized => "account already initialized",
            EscrowError::UninitializedAccount => "uninitialized account",
            EscrowError::NotEnoughAccountKeys => "not enough account keys",
        };
        proof {
            reveal_strlit("invalid instruction data");
            reveal_strlit("invalid account data");
            reveal_strlit("incorrect program id");
            reveal_strlit("missing required signature");
            reveal_strlit("account already initialized");
            reveal_strlit("uninitialized account");
            reveal_strlit("not enough account keys");
        }
        s
    }
}

} // verus!
