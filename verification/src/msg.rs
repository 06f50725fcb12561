//! Inbound commands and queries, and the native-currency values that
//! accompany them.

use vstd::prelude::*;
use crate::state::State;

verus! {

/// An amount of one native currency, as attached to a command or moved
/// by a fund-transfer instruction.
#[derive(Clone, Debug, PartialEq, Eq)]
pub struct Coin {
    pub denom: String,
    pub amount: u128,
}

/// Mathematical view of [`Coin`].
pub struct CoinView {
    pub denom: Seq<char>,
    pub amount: u128,
}

impl View for Coin {
    type V = CoinView;

    open spec fn view(&self) -> CoinView {
        CoinView { denom: self.denom@, amount: self.amount }
    }
}

/// The views of a sequence of attached coins.
pub open spec fn funds_view(funds: Seq<Coin>) -> Seq<CoinView> {
    funds.map_values(|c: Coin| c@)
}

/// The view of an optionally required coin.
pub open spec fn coin_view_opt(c: Option<Coin>) -> Option<CoinView> {
    match c {
        Some(x) => Some(x@),
        None => None,
    }
}

/// The character sequences of a list of addresses.
pub open spec fn member_views(members: Seq<String>) -> Seq<Seq<char>> {
    members.map_values(|m: String| m@)
}

/// Initialization parameters of the contract.
#[derive(Clone, Debug, PartialEq)]
pub struct InstantiateMsg {
    pub cw721: String,
    pub supply: u64,
    pub public_whitelist_allowance: u64,
    pub public_whitelist_members: Vec<String>,
    pub private_whitelist_allowance: u64,
    pub private_whitelist_members: Vec<String>,
    pub reserved_recipient: String,
    pub price: u128,
    pub naming_prefix: String,
}

/// The inbound commands, one handler each.
#[derive(Clone, Debug, PartialEq)]
pub enum ExecuteMsg {
    Mint(MintMsg),
    Reveal(RevealMsg),
    // Artist only
    Withdraw(WithdrawMsg),
    // Admin only
    Initialize(InitMsg),
    EnableNormalWhitelist(EnableWhitelistMintMsg),
    EnablePublicMint(EnablePublicMintMsg),
    EnableReveal(EnableRevealMsg),
    PrivateWhitelistApprove(WhitelistApproveMsg),
    PrivateWhitelistRemove(WhitelistRemoveMsg),
    PublicWhitelistApprove(WhitelistApproveMsg),
    PublicWhitelistRemove(WhitelistRemoveMsg),
    UpdateConfig { config: State },
}

/// The inbound read-only queries.
#[derive(Clone, Debug, PartialEq)]
pub enum QueryMsg {
    Config {},
    TokenStatuses { token_ids: Vec<String> },
    Whitelist { address: String },
}

#[derive(Clone, Debug, PartialEq, Eq)]
pub struct MigrateMsg {}

#[derive(Clone, Debug, PartialEq, Eq)]
pub struct MintMsg {}

#[derive(Clone, Debug, PartialEq, Eq)]
pub struct EnableRevealMsg {}

#[derive(Clone, Debug, PartialEq, Eq)]
pub struct EnableWhitelistMintMsg {}

#[derive(Clone, Debug, PartialEq, Eq)]
pub struct EnablePublicMintMsg {}

#[derive(Clone, Debug, PartialEq)]
pub struct RevealMsg {
    pub token_id: String,
}

#[derive(Clone, Debug, PartialEq, Eq)]
pub struct WithdrawMsg {
    pub amount: u128,
}

#[derive(Clone, Debug, PartialEq, Eq)]
pub struct InitMsg {}

#[derive(Clone, Debug, PartialEq)]
pub struct WhitelistApproveMsg {
    pub whitelist_members: Vec<String>,
}

#[derive(Clone, Debug, PartialEq)]
pub struct WhitelistRemoveMsg {
    pub whitelist_members: Vec<String>,
}

} // verus!
