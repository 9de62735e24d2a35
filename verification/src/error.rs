//! Why an operation was refused.

use vstd::prelude::*;

verus! {

/// The reasons for which a lifecycle operation is refused.
///
/// A refused operation changes nothing.
#[derive(Clone, Copy, Debug, PartialEq, Eq, Structural)]
pub enum ErrorCode {
    /// The proof does not bind the request to the registered signer, or the
    /// verification record is missing, foreign or malformed.
    InvalidProof,
    /// The ticket id is not below [`crate::state::MAX_SUPPLY`].
    NftIdOutOfRange,
    /// The caller is not the collection's authority.
    Unauthorized,
    /// The collection is locked.
    ContractLocked,
    /// The declared current owner is not the ticket's owner.
    InvalidOwner,
    /// The supply counter would leave its range.
    SupplyInvariant,
}

impl ErrorCode {
    /// The text that goes with each refusal.
    pub open spec fn message_spec(self) -> Seq<char> {
        match self {
            ErrorCode::InvalidProof => "Invalid proof signature"@,
            ErrorCode::NftIdOutOfRange => "NFT ID out of range (must be 0-9999)"@,
            ErrorCode::Unauthorized => "Unauthorized: only operator can perform this action"@,
            ErrorCode::ContractLocked => "Contract is locked"@,
            ErrorCode::InvalidOwner => "Invalid owner"@,
            ErrorCode::SupplyInvariant => "Supply counter out of range"@,
        }
    }

    /// A short description of the refusal, for logs and user interfaces.
    pub fn message(&self) -> (text: &'static str)
        ensures
            text@ == self.message_spec(),
    {
        match self {
            ErrorCode::InvalidProof => "Invalid proof signature",
            ErrorCode::NftIdOutOfRange => "NFT ID out of range (must be 0-9999)",
            ErrorCode::Unauthorized => "Unauthorized: only operator can perform this action",
            ErrorCode::ContractLocked => "Contract is locked",
            ErrorCode::InvalidOwner => "Invalid owner",
            ErrorCode::SupplyInvariant => "Supply counter out of range",
        }
    }
}

/// Why a proof was not accepted, in the order in which the checks are made.
#[derive(Clone, Copy, Debug, PartialEq, Eq, Structural)]
pub enum ProofError {
    /// The verification record was not produced by the native Ed25519 verifier.
    WrongVerifier,
    /// The verification record does not have the expected layout.
    Malformed,
    /// The record attests to another signature, signer or message than the
    /// request calls for.
    Mismatch,
}

/// The verification record is too short, does not hold exactly one
/// signature, or points outside itself.
#[derive(Clone, Copy, Debug, PartialEq, Eq, Structural)]
pub struct MalformedRecord {}

} // verus!
