//! Lifecycle rules for unique, non-fungible assets on a shared ledger.
//!
//! Each instruction is one atomic transition over the records it names: it
//! either validates and applies in full, or reports an error and leaves every
//! record as it was.

pub mod address;
pub mod error;
pub mod issuance;
pub mod ledger;
pub mod metadata;
pub mod pubkey;

pub use error::ErrorCode;
pub use issuance::{initialize_nft, InitializeNft};
pub use ledger::{mint_nft, transfer_nft, Mint, MintNft, TokenAccount, TransferNft};
pub use metadata::{update_nft, NFTMetadata, UpdateNft};
pub use pubkey::{Pubkey, Signer};
