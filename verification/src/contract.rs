//! Contract lifecycle: instantiation, command dispatch, and migration.

use vstd::prelude::*;
use vstd::string::StrSliceExecFns;
use crate::decimal::{dec_str, u64_to_dec};
use crate::error::ContractError;
use crate::execute::{
    enable_normal_whitelist_spec, enable_public_mint_spec, enable_reveal_spec, execute_init,
    execute_enable_normal_whitelist, execute_enable_public_mint, execute_enable_reveal,
    execute_mint, execute_private_whitelist_approve, execute_private_whitelist_remove,
    execute_public_whitelist_approve, execute_public_whitelist_remove, execute_reveal,
    execute_update_config, execute_withdraw_funds, init_spec, mint_spec,
    private_whitelist_approve_spec, private_whitelist_remove_spec, public_whitelist_approve_spec,
    public_whitelist_remove_spec, update_config_spec,
};
use crate::msg::{Coin, CoinView, ExecuteMsg, InstantiateMsg, funds_view, member_views};
use crate::response::{Instruction, Response};
use crate::state::{Ledger, LedgerView, Phase, State, StateView, WhitelistMember};
use crate::table::Table;

verus! {

/// The native currency in which the mint price is denominated and in
/// which funds are withdrawn.
pub open spec fn spec_denom() -> Seq<char> {
    "aarch"@
}

/// The native currency's denomination.
pub fn denom() -> (r: &'static str)
    ensures
        r@ == spec_denom(),
{
    "aarch"
}

/// The membership map an initial member list produces: every listed
/// address gets a record with the flag set.
pub open spec fn initial_whitelist(members: Seq<Seq<char>>) -> Map<Seq<char>, WhitelistMember> {
    Map::new(
        |k: Seq<char>| members.contains(k),
        |k: Seq<char>| WhitelistMember { whitelisted: true },
    )
}

/// Pairwise distinctness of an initial member list.
pub open spec fn distinct_members(members: Seq<Seq<char>>) -> bool {
    forall|i: int, j: int| 0 <= i < j < members.len() ==> members[i] != members[j]
}

/// The instantiation transition: the caller becomes the owner, the
/// phase starts disabled, and both whitelists are seeded from the
/// initial member lists.  A duplicate address in either list is
/// rejected as `InvalidInput`.
pub open spec fn instantiate_spec(sender: Seq<char>, msg: InstantiateMsg) -> Result<
    LedgerView,
    ContractError,
> {
    if !distinct_members(member_views(msg.public_whitelist_members@)) || !distinct_members(
        member_views(msg.private_whitelist_members@),
    ) {
        Err(ContractError::InvalidInput {})
    } else {
        Ok(
            LedgerView {
                state: StateView {
                    owner: sender,
                    cw721: msg.cw721@,
                    artist: msg.reserved_recipient@,
                    supply: msg.supply,
                    phase: Phase::Disabled,
                    private_whitelist_allowance: msg.private_whitelist_allowance,
                    public_whitelist_allowance: msg.public_whitelist_allowance,
                    price: msg.price,
                    name_prefix: msg.naming_prefix@,
                },
                public_whitelist: initial_whitelist(member_views(msg.public_whitelist_members@)),
                public_whitelist_counter: Map::empty(),
                private_whitelist: initial_whitelist(member_views(msg.private_whitelist_members@)),
                private_whitelist_counter: Map::empty(),
            },
        )
    }
}

/// One more taken member extends `initial_whitelist` by one insert.
proof fn lemma_initial_whitelist_step(views: Seq<Seq<char>>, i: int)
    requires
        0 <= i < views.len(),
    ensures
        initial_whitelist(views.take(i + 1)) == initial_whitelist(views.take(i)).insert(
            views[i],
            (WhitelistMember { whitelisted: true }),
        ),
{
    let a = initial_whitelist(views.take(i + 1));
    let b = initial_whitelist(views.take(i)).insert(views[i], (WhitelistMember { whitelisted: true }));
    assert forall|k: Seq<char>| #[trigger] a.contains_key(k) <==> b.contains_key(k) by {
        crate::execute::lemma_take_contains(views, i, k);
    }
    assert forall|k: Seq<char>| a.contains_key(k) implies #[trigger] a[k] == b[k] by {
        crate::execute::lemma_take_contains(views, i, k);
    }
    assert(a =~= b);
}

/// Builds one whitelist table from an initial member list, rejecting a
/// duplicate address.
fn build_whitelist(members: &Vec<String>) -> (r: Result<Table<WhitelistMember>, ContractError>)
    ensures
        match r {
            Ok(t) => distinct_members(member_views(members@)) && t@ == initial_whitelist(
                member_views(members@),
            ),
            Err(e) => !distinct_members(member_views(members@)) && e == (
            ContractError::InvalidInput {}),
        },
{
    let mut t: Table<WhitelistMember> = Table::new();
    let n = members.len();
    let mut i: usize = 0;
    proof {
        assert(t@ =~= initial_whitelist(member_views(members@).take(0)));
    }
    while i < n
        invariant
            i <= n,
            n == members@.len(),
            distinct_members(member_views(members@).take(i as int)),
            t@ == initial_whitelist(member_views(members@).take(i as int)),
        decreases n - i,
    {
        let ghost views = member_views(members@);
        match t.get(&members[i]) {
            Some(_) => {
                proof {
                    assert(views.take(i as int).contains(views[i as int]));
                    let j = choose|j: int|
                        0 <= j < i && (#[trigger] views.take(i as int)[j]) == views[i as int];
                    assert(views[j] == views[i as int]);
                    assert(!distinct_members(views));
                }
                return Err(ContractError::InvalidInput {});
            },
            None => {
                t.set(&members[i], WhitelistMember { whitelisted: true });
                proof {
                    assert(!views.take(i as int).contains(views[i as int]));
                    assert forall|p: int, q: int| 0 <= p < q < i + 1 implies (#[trigger] views.take(
                        i as int + 1,
                    )[p]) != (#[trigger] views.take(i as int + 1)[q]) by {
                        if q < i {
                            assert(views.take(i as int)[p] != views.take(i as int)[q]);
                        } else {
                            if views[p] == views[i as int] {
                                assert(views.take(i as int)[p] == views[i as int]);
                                assert(views.take(i as int).contains(views[i as int]));
                            }
                        }
                    }
                    lemma_initial_whitelist_step(views, i as int);
                }
            },
        }
        i = i + 1;
    }
    proof {
        assert(member_views(members@).take(n as int) =~= member_views(members@));
    }
    Ok(t)
}

/// Creates the contract: builds the configuration record around the
/// caller as owner, seeds both whitelist tables from the initial
/// member lists, and starts in the disabled phase.
pub fn instantiate(sender: &String, msg: InstantiateMsg) -> (r: Result<
    (Ledger, Response),
    ContractError,
>)
    ensures
        match instantiate_spec(sender@, msg) {
            Ok(lv) => {
                &&& r matches Ok(p)
                &&& p.0@ == lv
                &&& p.1.messages@.len() == 0
                &&& p.1.attributes@.len() == 4
                &&& p.1.attributes@[0].key@ == "action"@
                &&& p.1.attributes@[0].value@ == "instantiate"@
                &&& p.1.attributes@[1].key@ == "owner"@
                &&& p.1.attributes@[1].value@ == sender@
                &&& p.1.attributes@[2].key@ == "cw721"@
                &&& p.1.attributes@[2].value@ == msg.cw721@
                &&& p.1.attributes@[3].key@ == "supply"@
                &&& p.1.attributes@[3].value@ == dec_str(msg.supply as nat)
            },
            Err(e) => r matches Err(e2) && e2 == e,
        },
{
    let public_whitelist = match build_whitelist(&msg.public_whitelist_members) {
        Ok(t) => t,
        Err(e) => {
            return Err(e);
        },
    };
    let private_whitelist = match build_whitelist(&msg.private_whitelist_members) {
        Ok(t) => t,
        Err(e) => {
            return Err(e);
        },
    };
    let supply = msg.supply;
    let cw721_attr = msg.cw721.clone();
    let state = State {
        owner: sender.clone(),
        cw721: msg.cw721,
        artist: msg.reserved_recipient,
        supply,
        phase: Phase::default(),
        private_whitelist_allowance: msg.private_whitelist_allowance,
        public_whitelist_allowance: msg.public_whitelist_allowance,
        price: msg.price,
        name_prefix: msg.naming_prefix,
    };
    let ledger = Ledger {
        state,
        public_whitelist,
        public_whitelist_counter: Table::new(),
        private_whitelist,
        private_whitelist_counter: Table::new(),
    };
    let resp = Response::new().add_attribute("action".to_owned(), "instantiate".to_owned())
        .add_attribute("owner".to_owned(), sender.clone()).add_attribute(
        "cw721".to_owned(),
        cw721_attr,
    ).add_attribute("supply".to_owned(), u64_to_dec(supply));
    Ok((ledger, resp))
}

/// The ledger transition of one inbound command.
pub open spec fn execute_spec(
    l: LedgerView,
    sender: Seq<char>,
    funds: Seq<CoinView>,
    num_tokens: u64,
    msg: ExecuteMsg,
) -> Result<LedgerView, ContractError> {
    match msg {
        ExecuteMsg::Mint(_) => match mint_spec(l, sender, funds, num_tokens) {
            Ok((l2, _)) => Ok(l2),
            Err(e) => Err(e),
        },
        ExecuteMsg::Reveal(_) => Err(ContractError::EntrypointDisabled {}),
        ExecuteMsg::Withdraw(_) => if sender != l.state.artist {
            Err(ContractError::Unauthorized {})
        } else {
            Ok(l)
        },
        ExecuteMsg::Initialize(_) => init_spec(l, sender),
        ExecuteMsg::EnableNormalWhitelist(_) => enable_normal_whitelist_spec(l, sender),
        ExecuteMsg::EnablePublicMint(_) => enable_public_mint_spec(l, sender),
        ExecuteMsg::EnableReveal(_) => enable_reveal_spec(l, sender),
        ExecuteMsg::PrivateWhitelistApprove(m) => private_whitelist_approve_spec(
            l,
            sender,
            member_views(m.whitelist_members@),
        ),
        ExecuteMsg::PrivateWhitelistRemove(m) => private_whitelist_remove_spec(
            l,
            sender,
            member_views(m.whitelist_members@),
        ),
        ExecuteMsg::PublicWhitelistApprove(m) => public_whitelist_approve_spec(
            l,
            sender,
            member_views(m.whitelist_members@),
        ),
        ExecuteMsg::PublicWhitelistRemove(m) => public_whitelist_remove_spec(
            l,
            sender,
            member_views(m.whitelist_members@),
        ),
        ExecuteMsg::UpdateConfig { config } => update_config_spec(l, sender, config@),
    }
}

/// Dispatches one inbound command to its handler.
///
/// `num_tokens` is the registry's current total token count, read by
/// the host before dispatch; only the mint path consults it.
pub fn execute(
    ledger: &mut Ledger,
    sender: &String,
    funds: &Vec<Coin>,
    num_tokens: u64,
    msg: ExecuteMsg,
) -> (r: Result<Response, ContractError>)
    ensures
        match execute_spec(old(ledger)@, sender@, funds_view(funds@), num_tokens, msg) {
            Ok(l2) => final(ledger)@ == l2 && r is Ok,
            Err(e) => final(ledger)@ == old(ledger)@ && (r matches Err(e2) && e2 == e),
        },
        msg matches ExecuteMsg::Mint(_) ==> (r matches Ok(resp) ==> {
            &&& resp.messages@.len() == 1
            &&& (resp.messages@[0] matches Instruction::MintToken { contract, recipient, token_id }
                && contract@ == old(ledger)@.state.cw721 && recipient@ == sender@ && token_id
                == num_tokens + 1)
        }),
{
    match msg {
        ExecuteMsg::Mint(m) => execute_mint(ledger, sender, funds, num_tokens, m),
        ExecuteMsg::Reveal(m) => execute_reveal(ledger, sender, m),
        ExecuteMsg::Withdraw(m) => execute_withdraw_funds(&*ledger, sender, m),
        ExecuteMsg::Initialize(m) => execute_init(ledger, sender, m),
        ExecuteMsg::EnableNormalWhitelist(m) => execute_enable_normal_whitelist(ledger, sender, m),
        ExecuteMsg::EnablePublicMint(m) => execute_enable_public_mint(ledger, sender, m),
        ExecuteMsg::EnableReveal(m) => execute_enable_reveal(ledger, sender, m),
        ExecuteMsg::PrivateWhitelistApprove(m) => execute_private_whitelist_approve(
            ledger,
            sender,
            m,
        ),
        ExecuteMsg::PrivateWhitelistRemove(m) => execute_private_whitelist_remove(
            ledger,
            sender,
            m,
        ),
        ExecuteMsg::PublicWhitelistApprove(m) => execute_public_whitelist_approve(
            ledger,
            sender,
            m,
        ),
        ExecuteMsg::PublicWhitelistRemove(m) => execute_public_whitelist_remove(ledger, sender, m),
        ExecuteMsg::UpdateConfig { config } => execute_update_config(ledger, sender, config),
    }
}

/// Lexicographic order on character sequences by code point.  For the
/// version strings compared here this is the order Rust's `str`
/// comparison gives.
pub open spec fn lex_lt(a: Seq<char>, b: Seq<char>) -> bool
    decreases a.len(),
{
    if b.len() == 0 {
        false
    } else if a.len() == 0 {
        true
    } else if a[0] != b[0] {
        (a[0] as u32) < (b[0] as u32)
    } else {
        lex_lt(a.subrange(1, a.len() as int), b.subrange(1, b.len() as int))
    }
}

/// Whether a migration may proceed: the stored contract name must
/// match and the stored version must be strictly lower than the
/// running version.
pub open spec fn migrate_allowed(
    stored_name: Seq<char>,
    stored_version: Seq<char>,
    current_name: Seq<char>,
    current_version: Seq<char>,
) -> bool {
    stored_name == current_name && lex_lt(stored_version, current_version)
}

/// Compares `a` and `b` lexicographically from position `i` on.
fn lex_lt_from(a: &str, b: &str, i: usize) -> (r: bool)
    requires
        i <= a@.len(),
        i <= b@.len(),
    ensures
        r == lex_lt(a@.skip(i as int), b@.skip(i as int)),
    decreases a@.len() - i,
{
    let bn = b.unicode_len();
    if i >= bn {
        false
    } else {
        let an = a.unicode_len();
        if i >= an {
            true
        } else {
            let ca = a.get_char(i);
            let cb = b.get_char(i);
            proof {
                assert(a@.skip(i as int)[0] == a@[i as int]);
                assert(b@.skip(i as int)[0] == b@[i as int]);
            }
            if ca == cb {
                let r = lex_lt_from(a, b, i + 1);
                proof {
                    assert(a@.skip(i as int).subrange(1, a@.skip(i as int).len() as int) =~= a@.skip(
                        i as int + 1,
                    ));
                    assert(b@.skip(i as int).subrange(1, b@.skip(i as int).len() as int) =~= b@.skip(
                        i as int + 1,
                    ));
                }
                r
            } else {
                (ca as u32) < (cb as u32)
            }
        }
    }
}

/// Whether `a` is strictly lexicographically below `b`.
fn str_lt(a: &str, b: &str) -> (r: bool)
    ensures
        r == lex_lt(a@, b@),
{
    let r = lex_lt_from(a, b, 0);
    proof {
        assert(a@.skip(0) =~= a@);
        assert(b@.skip(0) =~= b@);
    }
    r
}

/// The version-gated migration: permitted only when the stored
/// contract name matches the running one and the stored version is
/// strictly lower than the running version; otherwise rejected as
/// `InvalidInput`.
pub fn migrate(
    stored_name: &String,
    stored_version: &String,
    current_name: &String,
    current_version: &String,
) -> (r: Result<Response, ContractError>)
    ensures
        migrate_allowed(stored_name@, stored_version@, current_name@, current_version@) ==> (r
            matches Ok(resp) && resp.attributes@.len() == 0 && resp.messages@.len() == 0),
        !migrate_allowed(stored_name@, stored_version@, current_name@, current_version@) ==> (r
            matches Err(e) && e == (ContractError::InvalidInput {})),
{
    if !(*stored_name == *current_name) {
        return Err(ContractError::InvalidInput {});
    }
    if !str_lt(stored_version.as_str(), current_version.as_str()) {
        return Err(ContractError::InvalidInput {});
    }
    Ok(Response::default())
}

} // verus!
