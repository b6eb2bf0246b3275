//! The ways in which an instruction is rejected.

use vstd::prelude::*;

verus! {

/// Why an instruction was rejected. Every rejection is decided before any
/// record is touched, so a rejected instruction changes nothing.
#[derive(Clone, Copy, Debug, PartialEq, Eq, Structural)]
pub enum ErrorCode {
    /// An argument is malformed or longer than its field allows.
    InvalidInput,
    /// The approving identity has not signed, or is not the required authority.
    UnauthorizedAuthority,
    /// The asset already has its issuance records.
    AlreadyInitialized,
    /// The asset's single unit has already been minted.
    SupplyExceeded,
    /// The source custody record holds nothing to transfer.
    InsufficientBalance,
}

impl ErrorCode {
    /// A sentence for the caller's log.
    pub fn message(&self) -> (text: &'static str)
        ensures
            text@ == match *self {
                ErrorCode::InvalidInput => "Argument is malformed or exceeds its fixed bound"@,
                ErrorCode::UnauthorizedAuthority => "Authority is not authorized to update this NFT"@,
                ErrorCode::AlreadyInitialized => "Asset already has its issuance records"@,
                ErrorCode::SupplyExceeded => "Supply of a unique asset cannot exceed one"@,
                ErrorCode::InsufficientBalance => "Source holds no unit of the asset"@,
            },
    {
        match self {
            ErrorCode::InvalidInput => "Argument is malformed or exceeds its fixed bound",
            ErrorCode::UnauthorizedAuthority => "Authority is not authorized to update this NFT",
            ErrorCode::AlreadyInitialized => "Asset already has its issuance records",
            ErrorCode::SupplyExceeded => "Supply of a unique asset cannot exceed one",
            ErrorCode::InsufficientBalance => "Source holds no unit of the asset",
        }
    }
}

} // verus!
