//! Read-only projections of ledger state.
//!
//! Queries never mutate and carry no identity check.  The token-status
//! query partitions per-token answers that the host has already
//! fetched from the external registry; the registry round-trips
//! themselves are the host's work.

use vstd::prelude::*;
use crate::msg::QueryMsg;
use crate::state::{Ledger, QueriedState, StateView, WhitelistMember};

verus! {

/// On-chain metadata of a revealed token, as the registry reports it.
/// This contract only ever inspects whether such a payload is present.
#[derive(Debug, PartialEq, Eq)]
pub struct Metadata {
    pub name: Option<String>,
    pub description: Option<String>,
    pub image: Option<String>,
}

/// The registry's answer about one token: an optional URI and an
/// optional metadata extension.
#[derive(Debug, PartialEq, Eq)]
pub struct NftInfo {
    pub token_uri: Option<String>,
    pub extension: Option<Metadata>,
}

/// One token's info, tagged with its id.
#[derive(Debug, PartialEq, Eq)]
pub struct TokenStatus {
    pub token_id: String,
    pub token_uri: Option<String>,
    pub extension: Option<Metadata>,
}

/// Token infos partitioned by whether metadata is present.
#[derive(Debug, PartialEq, Eq)]
pub struct TokenStatuses {
    pub revealed: Vec<TokenStatus>,
    pub unrevealed: Vec<TokenStatus>,
}

/// An answer of the query surface.
#[derive(Debug, PartialEq)]
pub enum QueryAnswer {
    Config(QueriedState),
    Whitelist(WhitelistMember),
    TokenStatuses(TokenStatuses),
}

fn clone_opt_string(o: &Option<String>) -> (r: Option<String>)
    ensures
        r == *o,
{
    match o {
        Some(s) => Some(s.clone()),
        None => None,
    }
}

impl Clone for Metadata {
    fn clone(&self) -> (r: Self)
        ensures
            r == *self,
    {
        Metadata {
            name: clone_opt_string(&self.name),
            description: clone_opt_string(&self.description),
            image: clone_opt_string(&self.image),
        }
    }
}

fn clone_opt_metadata(o: &Option<Metadata>) -> (r: Option<Metadata>)
    ensures
        r == *o,
{
    match o {
        Some(m) => Some(m.clone()),
        None => None,
    }
}

/// Whether `q` is the query projection of the configuration `s`: the
/// identities, caps and price verbatim, the reserved counts zero, and
/// the phase flattened into four boolean flags.
pub open spec fn queried_state_ok(s: StateView, q: QueriedState) -> bool {
    &&& q.owner@ == s.owner
    &&& q.cw721@ == s.cw721
    &&& q.artist@ == s.artist
    &&& q.supply == s.supply
    &&& q.whitelist_allowance == s.public_whitelist_allowance
    &&& q.private_whitelist_allowance == s.private_whitelist_allowance
    &&& q.total_reserved == 0
    &&& q.total_reserved_founders == 0
    &&& q.price == s.price
    &&& q.name_prefix@ == s.name_prefix
    &&& q.public_whitelist == (s.phase is NormalWhitelist)
    &&& q.public_mint == (s.phase is Public)
    &&& q.reveal == (s.phase is Reveal)
    &&& q.initialized == (s.phase !is Disabled)
}

/// The membership record a whitelist reports for an address: a missing
/// record reads as "not whitelisted".
pub open spec fn member_record(
    wl: Map<Seq<char>, WhitelistMember>,
    address: Seq<char>,
) -> WhitelistMember {
    if wl.contains_key(address) {
        wl[address]
    } else {
        WhitelistMember { whitelisted: false }
    }
}

/// The token statuses the ids and registry answers stand for, aligned
/// by index.
pub open spec fn statuses_of(token_ids: Seq<String>, infos: Seq<NftInfo>) -> Seq<TokenStatus> {
    Seq::new(
        token_ids.len(),
        |i: int|
            TokenStatus {
                token_id: token_ids[i],
                token_uri: infos[i].token_uri,
                extension: infos[i].extension,
            },
    )
}

/// The statuses whose metadata presence equals `revealed`, in order.
pub open spec fn filtered_statuses(statuses: Seq<TokenStatus>, revealed: bool) -> Seq<TokenStatus>
    decreases statuses.len(),
{
    if statuses.len() == 0 {
        Seq::empty()
    } else {
        filtered_statuses(statuses.drop_last(), revealed) + (
        if (statuses.last().extension is Some) == revealed {
            seq![statuses.last()]
        } else {
            Seq::empty()
        })
    }
}

/// Whether `ts` partitions the tokens' statuses into revealed (metadata
/// present) and unrevealed (metadata absent), keeping the query order.
pub open spec fn token_statuses_ok(
    token_ids: Seq<String>,
    infos: Seq<NftInfo>,
    ts: TokenStatuses,
) -> bool {
    &&& ts.revealed@ == filtered_statuses(statuses_of(token_ids, infos), true)
    &&& ts.unrevealed@ == filtered_statuses(statuses_of(token_ids, infos), false)
}

/// The configuration projection.
pub fn query_config(ledger: &Ledger) -> (r: QueriedState)
    ensures
        queried_state_ok(ledger@.state, r),
{
    let s = &ledger.state;
    QueriedState {
        owner: s.owner.clone(),
        cw721: s.cw721.clone(),
        artist: s.artist.clone(),
        supply: s.supply,
        whitelist_allowance: s.public_whitelist_allowance,
        private_whitelist_allowance: s.private_whitelist_allowance,
        total_reserved: 0,
        total_reserved_founders: 0,
        price: s.price,
        name_prefix: s.name_prefix.clone(),
        public_whitelist: s.phase.is_public_whitelist(),
        public_mint: s.phase.is_public_mint(),
        reveal: s.phase.is_reveal(),
        initialized: s.phase.is_enabled(),
    }
}

/// The public-track membership record of one address, defaulting to
/// "not whitelisted" where no record exists.
pub fn query_whitelist_member(ledger: &Ledger, address: &String) -> (r: WhitelistMember)
    ensures
        r == member_record(ledger@.public_whitelist, address@),
{
    match ledger.public_whitelist.get(address) {
        Some(m) => m,
        None => WhitelistMember::default(),
    }
}

/// Partitions the given tokens into revealed and unrevealed by the
/// presence of metadata in the registry's answers, which the host
/// fetched one per id.
pub fn query_token_statuses(token_ids: Vec<String>, infos: Vec<NftInfo>) -> (r: TokenStatuses)
    requires
        token_ids@.len() == infos@.len(),
    ensures
        token_statuses_ok(token_ids@, infos@, r),
{
    let mut revealed: Vec<TokenStatus> = Vec::new();
    let mut unrevealed: Vec<TokenStatus> = Vec::new();
    let n = token_ids.len();
    let mut i: usize = 0;
    proof {
        let ss = statuses_of(token_ids@, infos@);
        assert(ss.take(0) =~= Seq::<TokenStatus>::empty());
    }
    while i < n
        invariant
            i <= n,
            n == token_ids@.len(),
            n == infos@.len(),
            revealed@ == filtered_statuses(statuses_of(token_ids@, infos@).take(i as int), true),
            unrevealed@ == filtered_statuses(statuses_of(token_ids@, infos@).take(i as int), false),
        decreases n - i,
    {
        let status = TokenStatus {
            token_id: token_ids[i].clone(),
            token_uri: clone_opt_string(&infos[i].token_uri),
            extension: clone_opt_metadata(&infos[i].extension),
        };
        proof {
            let ss = statuses_of(token_ids@, infos@);
            assert(status == ss[i as int]);
            assert(ss.take(i as int + 1).drop_last() =~= ss.take(i as int));
            assert(ss.take(i as int + 1).last() == ss[i as int]);
        }
        if status.extension.is_some() {
            revealed.push(status);
        } else {
            unrevealed.push(status);
        }
        i = i + 1;
    }
    proof {
        let ss = statuses_of(token_ids@, infos@);
        assert(ss.take(n as int) =~= ss);
    }
    TokenStatuses { revealed, unrevealed }
}

/// Dispatches one read-only query.
///
/// For the token-status query the host supplies, in `infos`, the
/// registry's answer for each requested id, in the same order.
pub fn query(ledger: &Ledger, msg: QueryMsg, infos: Vec<NftInfo>) -> (r: QueryAnswer)
    requires
        msg matches QueryMsg::TokenStatuses { token_ids } ==> token_ids@.len() == infos@.len(),
    ensures
        msg is Config ==> (r matches QueryAnswer::Config(q) && queried_state_ok(
            ledger@.state,
            q,
        )),
        msg matches QueryMsg::Whitelist { address } ==> (r matches QueryAnswer::Whitelist(m) && m
            == member_record(ledger@.public_whitelist, address@)),
        msg matches QueryMsg::TokenStatuses { token_ids } ==> (r matches QueryAnswer::TokenStatuses(
            ts,
        ) && token_statuses_ok(token_ids@, infos@, ts)),
{
    match msg {
        QueryMsg::Config {  } => QueryAnswer::Config(query_config(ledger)),
        QueryMsg::Whitelist { address } => QueryAnswer::Whitelist(
            query_whitelist_member(ledger, &address),
        ),
        QueryMsg::TokenStatuses { token_ids } => QueryAnswer::TokenStatuses(
            query_token_statuses(token_ids, infos),
        ),
    }
}

} // verus!
