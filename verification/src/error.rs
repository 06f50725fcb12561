//! The error taxonomy of the contract.
//!
//! Every failure is terminal for the current invocation: the host rolls
//! back all ledger writes of a rejected operation, and the error
//! propagates verbatim to the caller.

use vstd::prelude::*;

verus! {

#[derive(Clone, Debug, PartialEq, Eq)]
pub enum ContractError {
    /// A required ledger record is missing.  This stands for the
    /// storage layer's own "not found" rejection, which the contract
    /// passes through (for example when a sender without a whitelist
    /// entry tries a whitelist-track mint).
    NotFound {},
    /// Identity mismatch, an operation on a disabled contract, or
    /// insufficient payment.
    Unauthorized {},
    /// Malformed initialization data or a bad migration target.
    InvalidInput {},
    /// One-time setup was attempted a second time.
    Initialized {},
    /// Minting after the reveal phase began.
    MintExpired {},
    /// The normal-whitelist phase has already been reached.
    PublicWhitelistMintEnabled {},
    /// The public-mint phase has already been reached.
    PublicMintEnabled {},
    /// The reveal phase has already been reached.
    RevealEnabled {},
    /// A reveal-only operation before the reveal phase.
    RevealDisabled {},
    /// Conflicting supply parameters or unparsable source metadata.
    SourceMetadata {},
    /// The per-address mint cap was exhausted; carries the sender's
    /// current count for diagnostics.
    WhitelistAllowance { minted: u64 },
    /// The sender's whitelist entry exists but is switched off.
    NotWhitelisted {},
    /// All tokens up to the supply cap have been distributed.
    SoldOut {},
    /// The token's metadata was already revealed.
    MetadataRevealed { token_id: String },
    /// The operation is disabled in this deployment variant.
    EntrypointDisabled {},
}

} // verus!
