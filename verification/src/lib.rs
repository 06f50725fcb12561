//! Core logic of a whitelist-gated NFT minting contract.
//!
//! The contract gatekeeps token creation in an external token registry
//! through a forward-only phase lifecycle, two whitelist tracks with
//! per-address mint allowances, payment validation, and sequential
//! token-id allocation.  Every operation here is a pure transition over
//! an explicit [`state::Ledger`] value; the surrounding host runtime
//! (storage, cross-contract queries, fund transfers) supplies inputs and
//! carries out the returned instructions.

pub mod contract;
pub mod decimal;
pub mod error;
pub mod execute;
pub mod laws;
pub mod msg;
pub mod query;
pub mod response;
pub mod state;
pub mod table;
