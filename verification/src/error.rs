//! The terminal errors of the two escrow operations. Every failure aborts the
//! whole operation; none is retried.
use vstd::prelude::*;

verus! {

/// One stable error per way a request can be rejected.
#[derive(Clone, Copy, PartialEq, Eq, Structural, Debug)]
pub enum EscrowError {
    /// The taker's claimed amount differs from the recorded terms.
    ExpectedAmountMismatch,
    /// The request tag names no operation.
    InvalidInstructionType,
    /// The request payload is shorter than the operation requires.
    InvalidInstructionData,
    /// A record buffer whose initialized flag is neither 0 nor 1.
    InvalidEscrowState,
    /// Reserved code kept for wire-format stability.
    InvalidEscrowVault,
    /// The required authorization signature is missing.
    InvalidSigner,
    /// The account list has the wrong cardinality.
    NotEnoughAccountKeys,
    /// Reserved code kept for wire-format stability.
    TooMuchAccountKeys,
    /// A token-balance account failed to decode.
    DeserializeTokenAccountError,
    /// An asset descriptor failed to decode.
    DeserializeMintAccountError,
    /// The deal record failed to decode.
    DeserializeEscrowAccountError,
    /// The supplied asset-A descriptor differs from the recorded one.
    MintAMismatch,
    /// The supplied asset-B descriptor differs from the recorded one.
    MintBMismatch,
    /// The supplied holding account is not the derived one.
    VaultKeyMismatch,
}

/// The stable numeric code of each error, in declaration order.
pub open spec fn code_spec(e: EscrowError) -> u32 {
    match e {
        EscrowError::ExpectedAmountMismatch => 0,
        EscrowError::InvalidInstructionType => 1,
        EscrowError::InvalidInstructionData => 2,
        EscrowError::InvalidEscrowState => 3,
        EscrowError::InvalidEscrowVault => 4,
        EscrowError::InvalidSigner => 5,
        EscrowError::NotEnoughAccountKeys => 6,
        EscrowError::TooMuchAccountKeys => 7,
        EscrowError::DeserializeTokenAccountError => 8,
        EscrowError::DeserializeMintAccountError => 9,
        EscrowError::DeserializeEscrowAccountError => 10,
        EscrowError::MintAMismatch => 11,
        EscrowError::MintBMismatch => 12,
        EscrowError::VaultKeyMismatch => 13,
    }
}

impl EscrowError {
    /// The stable code a caller receives for this error.
    pub fn code(&self) -> (r: u32)
        ensures
            r == code_spec(*self),
    {
        match self {
            EscrowError::ExpectedAmountMismatch => 0,
            EscrowError::InvalidInstructionType => 1,
            EscrowError::InvalidInstructionData => 2,
            EscrowError::InvalidEscrowState => 3,
            EscrowError::InvalidEscrowVault => 4,
            EscrowError::InvalidSigner => 5,
            EscrowError::NotEnoughAccountKeys => 6,
            EscrowError::TooMuchAccountKeys => 7,
            EscrowError::DeserializeTokenAccountError => 8,
            EscrowError::DeserializeMintAccountError => 9,
            EscrowError::DeserializeEscrowAccountError => 10,
            EscrowError::MintAMismatch => 11,
            EscrowError::MintBMismatch => 12,
            EscrowError::VaultKeyMismatch => 13,
        }
    }
}

} // verus!
