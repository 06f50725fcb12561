//! Contract configuration, the mint-phase lifecycle, and their views.

use vstd::prelude::*;
use crate::table::Table;

verus! {

/// The mint lifecycle stage.  It only ever advances forward, in the
/// order the variants are declared; no operation regresses or skips it
/// backward.
#[derive(Clone, Copy, Debug, PartialEq, Eq, Structural)]
pub enum Phase {
    Disabled,
    PrivateWhitelist,
    NormalWhitelist,
    Public,
    Reveal,
}

/// Position of a phase in the forward-only lifecycle: later phases rank
/// strictly higher.
pub open spec fn phase_rank(p: Phase) -> int {
    match p {
        Phase::Disabled => 0,
        Phase::PrivateWhitelist => 1,
        Phase::NormalWhitelist => 2,
        Phase::Public => 3,
        Phase::Reveal => 4,
    }
}

impl Phase {
    /// Rank of this phase, for exec-side lifecycle comparisons.
    pub fn rank(&self) -> (r: u8)
        ensures
            r as int == phase_rank(*self),
    {
        match self {
            Phase::Disabled => 0,
            Phase::PrivateWhitelist => 1,
            Phase::NormalWhitelist => 2,
            Phase::Public => 3,
            Phase::Reveal => 4,
        }
    }

    pub fn is_enabled(&self) -> (r: bool)
        ensures
            r == (*self !is Disabled),
    {
        !self.is_disabled()
    }

    pub fn is_disabled(&self) -> (r: bool)
        ensures
            r == (*self is Disabled),
    {
        *self == Phase::Disabled
    }

    pub fn is_private_whitelist(&self) -> (r: bool)
        ensures
            r == (*self is PrivateWhitelist),
    {
        *self == Phase::PrivateWhitelist
    }

    pub fn is_public_whitelist(&self) -> (r: bool)
        ensures
            r == (*self is NormalWhitelist),
    {
        *self == Phase::NormalWhitelist
    }

    pub fn is_public_mint(&self) -> (r: bool)
        ensures
            r == (*self is Public),
    {
        *self == Phase::Public
    }

    pub fn is_reveal(&self) -> (r: bool)
        ensures
            r == (*self is Reveal),
    {
        *self == Phase::Reveal
    }
}

impl Default for Phase {
    /// A freshly instantiated contract starts out disabled.
    fn default() -> (r: Self)
        ensures
            r == Phase::Disabled,
    {
        Phase::Disabled
    }
}

/// One entry of a whitelist membership table.  Absence of an entry is
/// semantically "not whitelisted", and so is an entry whose flag is
/// false.
#[derive(Clone, Copy, Debug, PartialEq, Eq, Structural)]
pub struct WhitelistMember {
    pub whitelisted: bool,
}

impl Default for WhitelistMember {
    /// The default used when an address has no whitelist entry.
    fn default() -> (r: Self)
        ensures
            !r.whitelisted,
    {
        WhitelistMember { whitelisted: false }
    }
}

/// The contract's singleton configuration record.
#[derive(Debug, PartialEq)]
pub struct State {
    /// Admin identity: may advance phases, edit whitelists, replace the
    /// configuration.
    pub owner: String,
    /// Identity of the external token-registry contract.
    pub cw721: String,
    /// Payment recipient: the only identity allowed to withdraw funds.
    pub artist: String,
    /// Total supply cap, enforced at mint time.
    pub supply: u64,
    /// Current lifecycle stage.
    pub phase: Phase,
    /// Per-address mint cap on the private whitelist track.
    pub private_whitelist_allowance: u64,
    /// Per-address mint cap on the public whitelist track.
    pub public_whitelist_allowance: u64,
    /// Native-currency amount required per mint; zero disables the
    /// payment check.
    pub price: u128,
    /// Naming prefix used for display.
    pub name_prefix: String,
}

/// Mathematical view of [`State`]: identities as character sequences,
/// everything else as plain values.
pub struct StateView {
    pub owner: Seq<char>,
    pub cw721: Seq<char>,
    pub artist: Seq<char>,
    pub supply: u64,
    pub phase: Phase,
    pub private_whitelist_allowance: u64,
    pub public_whitelist_allowance: u64,
    pub price: u128,
    pub name_prefix: Seq<char>,
}

impl View for State {
    type V = StateView;

    open spec fn view(&self) -> StateView {
        StateView {
            owner: self.owner@,
            cw721: self.cw721@,
            artist: self.artist@,
            supply: self.supply,
            phase: self.phase,
            private_whitelist_allowance: self.private_whitelist_allowance,
            public_whitelist_allowance: self.public_whitelist_allowance,
            price: self.price,
            name_prefix: self.name_prefix@,
        }
    }
}

impl Clone for State {
    fn clone(&self) -> (r: Self)
        ensures
            r == *self,
    {
        State {
            owner: self.owner.clone(),
            cw721: self.cw721.clone(),
            artist: self.artist.clone(),
            supply: self.supply,
            phase: self.phase,
            private_whitelist_allowance: self.private_whitelist_allowance,
            public_whitelist_allowance: self.public_whitelist_allowance,
            price: self.price,
            name_prefix: self.name_prefix.clone(),
        }
    }
}

/// The whole persistent ledger: the configuration record, the two
/// whitelist membership tables, and the two per-address mint counters.
///
/// Every operation of the contract is a transition over one `Ledger`
/// value.  The host runtime persists it between invocations and rolls
/// it back atomically when an operation fails; accordingly, every
/// failing operation here leaves the ledger it was given unchanged.
#[derive(Debug)]
pub struct Ledger {
    pub state: State,
    pub public_whitelist: Table<WhitelistMember>,
    pub public_whitelist_counter: Table<u64>,
    pub private_whitelist: Table<WhitelistMember>,
    pub private_whitelist_counter: Table<u64>,
}

/// Mathematical view of [`Ledger`]: the configuration view plus one map
/// per table.
pub struct LedgerView {
    pub state: StateView,
    pub public_whitelist: Map<Seq<char>, WhitelistMember>,
    pub public_whitelist_counter: Map<Seq<char>, u64>,
    pub private_whitelist: Map<Seq<char>, WhitelistMember>,
    pub private_whitelist_counter: Map<Seq<char>, u64>,
}

impl View for Ledger {
    type V = LedgerView;

    open spec fn view(&self) -> LedgerView {
        LedgerView {
            state: self.state@,
            public_whitelist: self.public_whitelist@,
            public_whitelist_counter: self.public_whitelist_counter@,
            private_whitelist: self.private_whitelist@,
            private_whitelist_counter: self.private_whitelist_counter@,
        }
    }
}

/// Read-only projection of the configuration, hiding the internal phase
/// behind boolean flags.
#[derive(Clone, Debug, PartialEq)]
pub struct QueriedState {
    pub owner: String,
    pub cw721: String,
    pub artist: String,
    pub supply: u64,
    pub whitelist_allowance: u64,
    pub private_whitelist_allowance: u64,
    pub total_reserved: u64,
    pub total_reserved_founders: u64,
    pub price: u128,
    pub name_prefix: String,
    pub public_whitelist: bool,
    pub public_mint: bool,
    pub reveal: bool,
    pub initialized: bool,
}

impl From<State> for QueriedState {
    fn from(s: State) -> (r: QueriedState) {
        let public_whitelist = s.phase.is_public_whitelist();
        let public_mint = s.phase.is_public_mint();
        let reveal = s.phase.is_reveal();
        let initialized = s.phase.is_enabled();
        QueriedState {
            owner: s.owner,
            cw721: s.cw721,
            artist: s.artist,
            supply: s.supply,
            whitelist_allowance: s.public_whitelist_allowance,
            private_whitelist_allowance: s.private_whitelist_allowance,
            total_reserved: 0,
            total_reserved_founders: 0,
            price: s.price,
            name_prefix: s.name_prefix,
            public_whitelist,
            public_mint,
            reveal,
            initialized,
        }
    }
}

impl vstd::std_specs::convert::FromSpecImpl<State> for QueriedState {
    open spec fn obeys_from_spec() -> bool {
        true
    }

    open spec fn from_spec(s: State) -> QueriedState {
        QueriedState {
            owner: s.owner,
            cw721: s.cw721,
            artist: s.artist,
            supply: s.supply,
            whitelist_allowance: s.public_whitelist_allowance,
            private_whitelist_allowance: s.private_whitelist_allowance,
            total_reserved: 0,
            total_reserved_founders: 0,
            price: s.price,
            name_prefix: s.name_prefix,
            public_whitelist: s.phase is NormalWhitelist,
            public_mint: s.phase is Public,
            reveal: s.phase is Reveal,
            initialized: s.phase !is Disabled,
        }
    }
}

} // verus!
