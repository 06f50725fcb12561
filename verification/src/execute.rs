//! The contract's command handlers.
//!
//! Each handler is specified against a transition function over
//! [`LedgerView`]: on success the ledger moves to exactly the view the
//! transition gives; on failure the handler returns exactly the
//! transition's error and leaves the ledger unchanged, mirroring the
//! host's atomic rollback.
//!
//! The one external read in the mint path — the registry's current
//! token count — is a blocking read-only call from the host's
//! perspective; the host performs it and hands the answer in as the
//! `num_tokens` argument.

use vstd::prelude::*;
use crate::contract::{denom, spec_denom};
use crate::decimal::{dec_str, u128_to_dec, u64_to_dec};
use crate::error::ContractError;
use crate::msg::{
    Coin, CoinView, EnablePublicMintMsg, EnableRevealMsg, EnableWhitelistMintMsg, InitMsg, MintMsg,
    RevealMsg, WhitelistApproveMsg, WhitelistRemoveMsg, WithdrawMsg, coin_view_opt, funds_view,
    member_views,
};
use crate::response::{Instruction, Response};
use crate::state::{LedgerView, Ledger, Phase, State, StateView, WhitelistMember, phase_rank};
use crate::table::Table;

verus! {

/// Whether the attached funds satisfy an optional required payment: no
/// requirement and a zero required amount always pass; otherwise some
/// attached coin must match the required denomination with at least the
/// required amount.
pub open spec fn required_payment_ok(sent: Seq<CoinView>, required: Option<CoinView>) -> bool {
    match required {
        None => true,
        Some(req) => req.amount == 0 || exists|i: int|
            0 <= i < sent.len() && sent[i].denom == req.denom && sent[i].amount >= req.amount,
    }
}

/// The number of mints the counter records for `sender`; a missing
/// record counts as zero.
pub open spec fn minted_of(counter: Map<Seq<char>, u64>, sender: Seq<char>) -> u64 {
    if counter.contains_key(sender) {
        counter[sender]
    } else {
        0
    }
}

/// The allowance gate of one whitelist track: the sender must have a
/// membership record, its flag must be set, and the recorded mint count
/// must be strictly below the track's allowance.  On success it
/// yields the count to record, one more than before.
pub open spec fn allowance_gate_spec(
    whitelist: Map<Seq<char>, WhitelistMember>,
    counter: Map<Seq<char>, u64>,
    allowance: u64,
    sender: Seq<char>,
) -> Result<u64, ContractError> {
    if !whitelist.contains_key(sender) {
        Err(ContractError::NotFound {})
    } else if !whitelist[sender].whitelisted {
        Err(ContractError::NotWhitelisted {})
    } else {
        let minted = minted_of(counter, sender);
        if minted >= allowance {
            Err(ContractError::WhitelistAllowance { minted })
        } else {
            Ok((minted + 1) as u64)
        }
    }
}

/// The whitelist gate of a mint: in a whitelist phase the matching
/// track's allowance gate must pass and its counter is bumped; the
/// public phase mints unrestricted.
pub open spec fn whitelist_gate_spec(l: LedgerView, sender: Seq<char>) -> Result<
    LedgerView,
    ContractError,
> {
    if l.state.phase is NormalWhitelist {
        match allowance_gate_spec(
            l.public_whitelist,
            l.public_whitelist_counter,
            l.state.public_whitelist_allowance,
            sender,
        ) {
            Ok(c) => Ok(
                LedgerView {
                    public_whitelist_counter: l.public_whitelist_counter.insert(sender, c),
                    ..l
                },
            ),
            Err(e) => Err(e),
        }
    } else if l.state.phase is PrivateWhitelist {
        match allowance_gate_spec(
            l.private_whitelist,
            l.private_whitelist_counter,
            l.state.private_whitelist_allowance,
            sender,
        ) {
            Ok(c) => Ok(
                LedgerView {
                    private_whitelist_counter: l.private_whitelist_counter.insert(sender, c),
                    ..l
                },
            ),
            Err(e) => Err(e),
        }
    } else {
        Ok(l)
    }
}

/// The mint transition.  Gates, in order, each failure aborting with no
/// ledger change: the contract must be initialized, the mint window
/// must not be closed, the whitelist gate of the current phase must
/// pass, the next token id (the registry's count plus one) must not
/// exceed the supply cap, and the attached payment must cover the
/// configured price.  On success it yields the new ledger and the token
/// id to mint.
pub open spec fn mint_spec(
    l: LedgerView,
    sender: Seq<char>,
    funds: Seq<CoinView>,
    num_tokens: u64,
) -> Result<(LedgerView, u64), ContractError> {
    if l.state.phase is Disabled {
        Err(ContractError::Unauthorized {})
    } else if l.state.phase is Reveal {
        Err(ContractError::MintExpired {})
    } else {
        match whitelist_gate_spec(l, sender) {
            Err(e) => Err(e),
            Ok(l2) => {
                if num_tokens >= l.state.supply {
                    Err(ContractError::SoldOut {})
                } else if !required_payment_ok(
                    funds,
                    Some(CoinView { denom: spec_denom(), amount: l.state.price }),
                ) {
                    Err(ContractError::Unauthorized {})
                } else {
                    Ok((l2, (num_tokens + 1) as u64))
                }
            },
        }
    }
}

/// Enforces the configured minting price against the attached funds.
/// A missing requirement or a zero required amount always passes;
/// otherwise some attached coin must match the required denomination
/// and reach the required amount, and anything less is rejected as
/// `Unauthorized`.
pub fn check_sent_required_payment(sent: &Vec<Coin>, required: Option<Coin>) -> (r: Result<
    (),
    ContractError,
>)
    ensures
        r == (if required_payment_ok(funds_view(sent@), coin_view_opt(required)) {
            Ok::<(), ContractError>(())
        } else {
            Err::<(), ContractError>(ContractError::Unauthorized {})
        }),
{
    match &required {
        Some(required_coin) => {
            let required_amount = required_coin.amount;
            if required_amount > 0 {
                let n = sent.len();
                let mut i: usize = 0;
                while i < n
                    invariant
                        i <= n,
                        n == sent@.len(),
                        required == Some(*required_coin),
                        required_amount == required_coin.amount,
                        required_amount > 0,
                        forall|j: int|
                            0 <= j < i ==> !(sent@[j].denom@ == required_coin.denom@
                                && sent@[j].amount >= required_amount),
                    decreases n - i,
                {
                    if sent[i].denom == required_coin.denom && sent[i].amount >= required_amount {
                        proof {
                            let fv = funds_view(sent@);
                            assert(fv[i as int].denom == required_coin.denom@);
                            assert(fv[i as int].amount >= required_amount);
                            assert(required_payment_ok(fv, coin_view_opt(required)));
                        }
                        return Ok(());
                    }
                    i = i + 1;
                }
                proof {
                    assert forall|j: int| 0 <= j < funds_view(sent@).len() implies !(funds_view(
                        sent@,
                    )[j].denom == required_coin.denom@ && funds_view(sent@)[j].amount
                        >= required_amount) by {
                        assert(funds_view(sent@)[j].denom == sent@[j].denom@);
                        assert(funds_view(sent@)[j].amount == sent@[j].amount);
                    }
                }
                return Err(ContractError::Unauthorized {});
            }
            Ok(())
        },
        None => Ok(()),
    }
}

/// One whitelist track's membership and allowance check, without the
/// commit: on success it returns the counter value to record.
fn allowance_check(
    whitelist: &Table<WhitelistMember>,
    counter: &Table<u64>,
    allowance: u64,
    sender: &String,
) -> (r: Result<u64, ContractError>)
    ensures
        r == allowance_gate_spec(whitelist@, counter@, allowance, sender@),
{
    match whitelist.get(sender) {
        None => Err(ContractError::NotFound {}),
        Some(member) => {
            if !member.whitelisted {
                Err(ContractError::NotWhitelisted {})
            } else {
                let minted = match counter.get(sender) {
                    Some(c) => c,
                    None => 0,
                };
                if minted >= allowance {
                    Err(ContractError::WhitelistAllowance { minted })
                } else {
                    Ok(minted + 1)
                }
            }
        },
    }
}

/// Mints the next token to the sender.
///
/// `num_tokens` is the registry's current total token count, read by
/// the host just before this operation; the id minted is always
/// `num_tokens + 1`, so ids are strictly sequential from 1.  On success
/// the response carries one deferred instruction directing the registry
/// to mint that id to the sender, with no initial metadata.
pub fn execute_mint(
    ledger: &mut Ledger,
    sender: &String,
    funds: &Vec<Coin>,
    num_tokens: u64,
    _msg: MintMsg,
) -> (r: Result<Response, ContractError>)
    ensures
        match mint_spec(old(ledger)@, sender@, funds_view(funds@), num_tokens) {
            Ok((l2, token_id)) => {
                &&& final(ledger)@ == l2
                &&& r matches Ok(resp)
                &&& resp.messages@.len() == 1
                &&& (resp.messages@[0] matches Instruction::MintToken {
                    contract,
                    recipient,
                    token_id: tid,
                } && contract@ == old(ledger)@.state.cw721 && recipient@ == sender@ && tid
                    == token_id)
                &&& resp.attributes@.len() == 3
                &&& resp.attributes@[0].key@ == "action"@
                &&& resp.attributes@[0].value@ == "mint"@
                &&& resp.attributes@[1].key@ == "token_id"@
                &&& resp.attributes@[1].value@ == dec_str(token_id as nat)
                &&& resp.attributes@[2].key@ == "owner"@
                &&& resp.attributes@[2].value@ == sender@
            },
            Err(e) => {
                &&& final(ledger)@ == old(ledger)@
                &&& (r matches Err(e2) && e2 == e)
            },
        },
{
    // Contract must be initialized
    if ledger.state.phase.is_disabled() {
        return Err(ContractError::Unauthorized {});
    }
    // Minting must not be expired
    if ledger.state.phase.is_reveal() {
        return Err(ContractError::MintExpired {});
    }
    // Enforce whitelist permissions; the counter value is committed
    // only after every later gate has passed, so a rejected mint
    // leaves the ledger untouched.
    let mut pending: Option<u64> = None;
    if ledger.state.phase.is_public_whitelist() {
        match allowance_check(
            &ledger.public_whitelist,
            &ledger.public_whitelist_counter,
            ledger.state.public_whitelist_allowance,
            sender,
        ) {
            Ok(c) => {
                pending = Some(c);
            },
            Err(e) => {
                return Err(e);
            },
        }
    } else if ledger.state.phase.is_private_whitelist() {
        match allowance_check(
            &ledger.private_whitelist,
            &ledger.private_whitelist_counter,
            ledger.state.private_whitelist_allowance,
            sender,
        ) {
            Ok(c) => {
                pending = Some(c);
            },
            Err(e) => {
                return Err(e);
            },
        }
    }
    // Fail if minting would exceed capacity
    if num_tokens >= ledger.state.supply {
        return Err(ContractError::SoldOut {});
    }
    let token_id = num_tokens + 1;
    // The sender must attach funds covering the minting price
    let required = Coin { denom: denom().to_owned(), amount: ledger.state.price };
    match check_sent_required_payment(funds, Some(required)) {
        Ok(()) => {},
        Err(e) => {
            return Err(e);
        },
    }
    // All gates passed: commit the allowance increment
    if ledger.state.phase.is_public_whitelist() {
        let c = pending.unwrap();
        ledger.public_whitelist_counter.set(sender, c);
    } else if ledger.state.phase.is_private_whitelist() {
        let c = pending.unwrap();
        ledger.private_whitelist_counter.set(sender, c);
    }
    let resp = Response::new().add_attribute("action".to_owned(), "mint".to_owned()).add_attribute(
        "token_id".to_owned(),
        u64_to_dec(token_id),
    ).add_attribute("owner".to_owned(), sender.clone()).add_message(
        Instruction::MintToken {
            contract: ledger.state.cw721.clone(),
            recipient: sender.clone(),
            token_id,
        },
    );
    Ok(resp)
}

/// Shared transition of the admin phase-advance operations.  A
/// disabled contract and a non-owner caller are rejected as
/// `Unauthorized`; a target phase that has already been reached is
/// rejected with that operation's "already enabled" error, which keeps
/// every transition strictly forward.
pub open spec fn phase_advance_spec(
    l: LedgerView,
    sender: Seq<char>,
    target: Phase,
    already: ContractError,
) -> Result<LedgerView, ContractError> {
    if l.state.phase is Disabled {
        Err(ContractError::Unauthorized {})
    } else if sender != l.state.owner {
        Err(ContractError::Unauthorized {})
    } else if phase_rank(l.state.phase) >= phase_rank(target) {
        Err(already)
    } else {
        Ok(LedgerView { state: StateView { phase: target, ..l.state }, ..l })
    }
}

pub open spec fn enable_normal_whitelist_spec(l: LedgerView, sender: Seq<char>) -> Result<
    LedgerView,
    ContractError,
> {
    phase_advance_spec(
        l,
        sender,
        Phase::NormalWhitelist,
        ContractError::PublicWhitelistMintEnabled {},
    )
}

pub open spec fn enable_public_mint_spec(l: LedgerView, sender: Seq<char>) -> Result<
    LedgerView,
    ContractError,
> {
    phase_advance_spec(l, sender, Phase::Public, ContractError::PublicMintEnabled {})
}

pub open spec fn enable_reveal_spec(l: LedgerView, sender: Seq<char>) -> Result<
    LedgerView,
    ContractError,
> {
    phase_advance_spec(l, sender, Phase::Reveal, ContractError::RevealEnabled {})
}

/// The one-time setup transition: only the owner may run it, only while
/// the contract is still disabled, and it opens the private-whitelist
/// phase.
pub open spec fn init_spec(l: LedgerView, sender: Seq<char>) -> Result<LedgerView, ContractError> {
    if sender != l.state.owner {
        Err(ContractError::Unauthorized {})
    } else if l.state.phase !is Disabled {
        Err(ContractError::Initialized {})
    } else {
        Ok(LedgerView { state: StateView { phase: Phase::PrivateWhitelist, ..l.state }, ..l })
    }
}

/// The configuration-replace transition: owner-only, and a verbatim
/// replacement with no field-level validation.
pub open spec fn update_config_spec(l: LedgerView, sender: Seq<char>, config: StateView) -> Result<
    LedgerView,
    ContractError,
> {
    if sender != l.state.owner {
        Err(ContractError::Unauthorized {})
    } else {
        Ok(LedgerView { state: config, ..l })
    }
}

/// The membership map after approving every listed member: each listed
/// address gets a record with the flag set (created or overwritten),
/// everything else is untouched.
pub open spec fn approve_all(
    m: Map<Seq<char>, WhitelistMember>,
    members: Seq<Seq<char>>,
) -> Map<Seq<char>, WhitelistMember> {
    Map::new(
        |k: Seq<char>| m.contains_key(k) || members.contains(k),
        |k: Seq<char>|
            if members.contains(k) {
                WhitelistMember { whitelisted: true }
            } else {
                m[k]
            },
    )
}

/// The membership map after removing every listed member: each listed
/// address loses its record entirely, everything else is untouched.
pub open spec fn remove_all(
    m: Map<Seq<char>, WhitelistMember>,
    members: Seq<Seq<char>>,
) -> Map<Seq<char>, WhitelistMember> {
    Map::new(|k: Seq<char>| m.contains_key(k) && !members.contains(k), |k: Seq<char>| m[k])
}

pub open spec fn public_whitelist_approve_spec(
    l: LedgerView,
    sender: Seq<char>,
    members: Seq<Seq<char>>,
) -> Result<LedgerView, ContractError> {
    if sender != l.state.owner {
        Err(ContractError::Unauthorized {})
    } else {
        Ok(LedgerView { public_whitelist: approve_all(l.public_whitelist, members), ..l })
    }
}

pub open spec fn public_whitelist_remove_spec(
    l: LedgerView,
    sender: Seq<char>,
    members: Seq<Seq<char>>,
) -> Result<LedgerView, ContractError> {
    if sender != l.state.owner {
        Err(ContractError::Unauthorized {})
    } else {
        Ok(LedgerView { public_whitelist: remove_all(l.public_whitelist, members), ..l })
    }
}

pub open spec fn private_whitelist_approve_spec(
    l: LedgerView,
    sender: Seq<char>,
    members: Seq<Seq<char>>,
) -> Result<LedgerView, ContractError> {
    if sender != l.state.owner {
        Err(ContractError::Unauthorized {})
    } else {
        Ok(LedgerView { private_whitelist: approve_all(l.private_whitelist, members), ..l })
    }
}

pub open spec fn private_whitelist_remove_spec(
    l: LedgerView,
    sender: Seq<char>,
    members: Seq<Seq<char>>,
) -> Result<LedgerView, ContractError> {
    if sender != l.state.owner {
        Err(ContractError::Unauthorized {})
    } else {
        Ok(LedgerView { private_whitelist: remove_all(l.private_whitelist, members), ..l })
    }
}

/// Performs the shared phase-advance checks and, on success, moves the
/// phase to `target`.
fn advance_phase(ledger: &mut Ledger, sender: &String, target: Phase, already: ContractError) -> (r:
    Result<(), ContractError>)
    ensures
        match phase_advance_spec(old(ledger)@, sender@, target, already) {
            Ok(l2) => r is Ok && final(ledger)@ == l2,
            Err(e) => (r matches Err(e2) && e2 == e) && final(ledger)@ == old(ledger)@,
        },
{
    // Contract must be initialized
    if ledger.state.phase.is_disabled() {
        return Err(ContractError::Unauthorized {});
    }
    // Only the contract owner can advance the phase
    if !(*sender == ledger.state.owner) {
        return Err(ContractError::Unauthorized {});
    }
    // The lifecycle only moves forward
    if ledger.state.phase.rank() >= target.rank() {
        return Err(already);
    }
    ledger.state.phase = target;
    Ok(())
}

/// Opens the normal (public-track) whitelist phase.  Owner-only.
pub fn execute_enable_normal_whitelist(
    ledger: &mut Ledger,
    sender: &String,
    _msg: EnableWhitelistMintMsg,
) -> (r: Result<Response, ContractError>)
    ensures
        match enable_normal_whitelist_spec(old(ledger)@, sender@) {
            Ok(l2) => {
                &&& final(ledger)@ == l2
                &&& r matches Ok(resp)
                &&& resp.messages@.len() == 0
                &&& resp.attributes@.len() == 1
                &&& resp.attributes@[0].key@ == "action"@
                &&& resp.attributes@[0].value@ == "execute_enable_public_mint"@
            },
            Err(e) => {
                &&& final(ledger)@ == old(ledger)@
                &&& (r matches Err(e2) && e2 == e)
            },
        },
{
    match advance_phase(
        ledger,
        sender,
        Phase::NormalWhitelist,
        ContractError::PublicWhitelistMintEnabled {},
    ) {
        Ok(()) => Ok(
            Response::new().add_attribute(
                "action".to_owned(),
                "execute_enable_public_mint".to_owned(),
            ),
        ),
        Err(e) => Err(e),
    }
}

/// Opens the unrestricted public-mint phase.  Owner-only.
pub fn execute_enable_public_mint(
    ledger: &mut Ledger,
    sender: &String,
    _msg: EnablePublicMintMsg,
) -> (r: Result<Response, ContractError>)
    ensures
        match enable_public_mint_spec(old(ledger)@, sender@) {
            Ok(l2) => {
                &&& final(ledger)@ == l2
                &&& r matches Ok(resp)
                &&& resp.messages@.len() == 0
                &&& resp.attributes@.len() == 1
                &&& resp.attributes@[0].key@ == "action"@
                &&& resp.attributes@[0].value@ == "execute_enable_public_mint"@
            },
            Err(e) => {
                &&& final(ledger)@ == old(ledger)@
                &&& (r matches Err(e2) && e2 == e)
            },
        },
{
    match advance_phase(ledger, sender, Phase::Public, ContractError::PublicMintEnabled {}) {
        Ok(()) => Ok(
            Response::new().add_attribute(
                "action".to_owned(),
                "execute_enable_public_mint".to_owned(),
            ),
        ),
        Err(e) => Err(e),
    }
}

/// Closes the mint window and enters the terminal reveal phase.
/// Owner-only.
pub fn execute_enable_reveal(ledger: &mut Ledger, sender: &String, _msg: EnableRevealMsg) -> (r:
    Result<Response, ContractError>)
    ensures
        match enable_reveal_spec(old(ledger)@, sender@) {
            Ok(l2) => {
                &&& final(ledger)@ == l2
                &&& r matches Ok(resp)
                &&& resp.messages@.len() == 0
                &&& resp.attributes@.len() == 1
                &&& resp.attributes@[0].key@ == "action"@
                &&& resp.attributes@[0].value@ == "enable_reveal"@
            },
            Err(e) => {
                &&& final(ledger)@ == old(ledger)@
                &&& (r matches Err(e2) && e2 == e)
            },
        },
{
    match advance_phase(ledger, sender, Phase::Reveal, ContractError::RevealEnabled {}) {
        Ok(()) => Ok(
            Response::new().add_attribute("action".to_owned(), "enable_reveal".to_owned()),
        ),
        Err(e) => Err(e),
    }
}

/// Metadata reveal is not part of this deployment variant: the
/// operation is always rejected.
pub fn execute_reveal(ledger: &mut Ledger, sender: &String, _msg: RevealMsg) -> (r: Result<
    Response,
    ContractError,
>)
    ensures
        final(ledger)@ == old(ledger)@,
        r matches Err(e) && e == (ContractError::EntrypointDisabled {}),
{
    Err(ContractError::EntrypointDisabled {})
}

/// One-time setup: moves the contract from disabled to the
/// private-whitelist phase.  Owner-only.
pub fn execute_init(ledger: &mut Ledger, sender: &String, _msg: InitMsg) -> (r: Result<
    Response,
    ContractError,
>)
    ensures
        match init_spec(old(ledger)@, sender@) {
            Ok(l2) => {
                &&& final(ledger)@ == l2
                &&& r matches Ok(resp)
                &&& resp.messages@.len() == 0
                &&& resp.attributes@.len() == 1
                &&& resp.attributes@[0].key@ == "action"@
                &&& resp.attributes@[0].value@ == "initialize"@
            },
            Err(e) => {
                &&& final(ledger)@ == old(ledger)@
                &&& (r matches Err(e2) && e2 == e)
            },
        },
{
    if !(*sender == ledger.state.owner) {
        return Err(ContractError::Unauthorized {});
    }
    if ledger.state.phase.is_enabled() {
        return Err(ContractError::Initialized {});
    }
    ledger.state.phase = Phase::PrivateWhitelist;
    Ok(Response::new().add_attribute("action".to_owned(), "initialize".to_owned()))
}

/// Withdraws the requested amount of the native currency to the
/// caller.  Only the configured artist may invoke it; no balance check
/// is made here — an insufficient balance is left to the host to
/// reject when it executes the transfer instruction.
pub fn execute_withdraw_funds(ledger: &Ledger, sender: &String, msg: WithdrawMsg) -> (r: Result<
    Response,
    ContractError,
>)
    ensures
        sender@ != ledger@.state.artist ==> (r matches Err(e) && e == (
        ContractError::Unauthorized {})),
        sender@ == ledger@.state.artist ==> {
            &&& r matches Ok(resp)
            &&& resp.messages@.len() == 1
            &&& (resp.messages@[0] matches Instruction::SendFunds { to_address, amount }
                && to_address@ == sender@ && amount.denom@ == spec_denom() && amount.amount
                == msg.amount)
            &&& resp.attributes@.len() == 2
            &&& resp.attributes@[0].key@ == "action"@
            &&& resp.attributes@[0].value@ == "withdraw"@
            &&& resp.attributes@[1].key@ == "amount"@
            &&& resp.attributes@[1].value@ == dec_str(msg.amount as nat)
        },
{
    if !(ledger.state.artist == *sender) {
        return Err(ContractError::Unauthorized {});
    }
    let amount = msg.amount;
    let transfer = Instruction::SendFunds {
        to_address: sender.clone(),
        amount: Coin { denom: denom().to_owned(), amount },
    };
    Ok(
        Response::new().add_attribute("action".to_owned(), "withdraw".to_owned()).add_attribute(
            "amount".to_owned(),
            u128_to_dec(amount),
        ).add_message(transfer),
    )
}

/// Replaces the whole configuration record verbatim.  Owner-only; no
/// field-level validation is performed.
pub fn execute_update_config(ledger: &mut Ledger, sender: &String, config_update: State) -> (r:
    Result<Response, ContractError>)
    ensures
        match update_config_spec(old(ledger)@, sender@, config_update@) {
            Ok(l2) => {
                &&& final(ledger)@ == l2
                &&& r matches Ok(resp)
                &&& resp.messages@.len() == 0
                &&& resp.attributes@.len() == 1
                &&& resp.attributes@[0].key@ == "action"@
                &&& resp.attributes@[0].value@ == "update_config"@
            },
            Err(e) => {
                &&& final(ledger)@ == old(ledger)@
                &&& (r matches Err(e2) && e2 == e)
            },
        },
{
    if !(ledger.state.owner == *sender) {
        return Err(ContractError::Unauthorized {});
    }
    ledger.state = config_update;
    Ok(Response::new().add_attribute("action".to_owned(), "update_config".to_owned()))
}

/// One more taken member extends sequence membership by exactly that
/// member.
pub(crate) proof fn lemma_take_contains(views: Seq<Seq<char>>, i: int, k: Seq<char>)
    requires
        0 <= i < views.len(),
    ensures
        views.take(i + 1).contains(k) <==> (views.take(i).contains(k) || k == views[i]),
{
    if views.take(i + 1).contains(k) {
        let j = choose|j: int| 0 <= j < i + 1 && (#[trigger] views.take(i + 1)[j]) == k;
        if j < i {
            assert(views.take(i)[j] == k);
        }
    }
    if views.take(i).contains(k) {
        let j = choose|j: int| 0 <= j < i && (#[trigger] views.take(i)[j]) == k;
        assert(views.take(i + 1)[j] == k);
    }
    if k == views[i] {
        assert(views.take(i + 1)[i] == k);
    }
}

/// `approve_all(m, views.take(i))` grows by one insert per member.
proof fn lemma_approve_all_step(m: Map<Seq<char>, WhitelistMember>, views: Seq<Seq<char>>, i: int)
    requires
        0 <= i < views.len(),
    ensures
        approve_all(m, views.take(i + 1)) == approve_all(m, views.take(i)).insert(
            views[i],
            (WhitelistMember { whitelisted: true }),
        ),
{
    let a = approve_all(m, views.take(i + 1));
    let b = approve_all(m, views.take(i)).insert(views[i], (WhitelistMember { whitelisted: true }));
    assert forall|k: Seq<char>| #[trigger] a.contains_key(k) <==> b.contains_key(k) by {
        lemma_take_contains(views, i, k);
    }
    assert forall|k: Seq<char>| a.contains_key(k) implies #[trigger] a[k] == b[k] by {
        lemma_take_contains(views, i, k);
    }
    assert(a =~= b);
}

/// `remove_all(m, views.take(i))` grows by one removal per member.
proof fn lemma_remove_all_step(m: Map<Seq<char>, WhitelistMember>, views: Seq<Seq<char>>, i: int)
    requires
        0 <= i < views.len(),
    ensures
        remove_all(m, views.take(i + 1)) == remove_all(m, views.take(i)).remove(views[i]),
{
    let a = remove_all(m, views.take(i + 1));
    let b = remove_all(m, views.take(i)).remove(views[i]);
    assert forall|k: Seq<char>| #[trigger] a.contains_key(k) <==> b.contains_key(k) by {
        lemma_take_contains(views, i, k);
    }
    assert forall|k: Seq<char>| a.contains_key(k) implies #[trigger] a[k] == b[k] by {
        lemma_take_contains(views, i, k);
    }
    assert(a =~= b);
}

/// Creates or overwrites a membership record, flag set, for every
/// listed member.
fn approve_members(table: &mut Table<WhitelistMember>, members: &Vec<String>)
    ensures
        final(table)@ == approve_all(old(table)@, member_views(members@)),
{
    let n = members.len();
    let mut i: usize = 0;
    proof {
        assert(table@ =~= approve_all(table@, member_views(members@).take(0)));
    }
    while i < n
        invariant
            i <= n,
            n == members@.len(),
            table@ == approve_all(old(table)@, member_views(members@).take(i as int)),
        decreases n - i,
    {
        table.set(&members[i], WhitelistMember { whitelisted: true });
        proof {
            let views = member_views(members@);
            assert(views[i as int] == members@[i as int]@);
            lemma_approve_all_step(old(table)@, views, i as int);
        }
        i = i + 1;
    }
    proof {
        assert(member_views(members@).take(n as int) =~= member_views(members@));
    }
}

/// Deletes the membership record of every listed member.
fn remove_members(table: &mut Table<WhitelistMember>, members: &Vec<String>)
    ensures
        final(table)@ == remove_all(old(table)@, member_views(members@)),
{
    let n = members.len();
    let mut i: usize = 0;
    proof {
        assert(table@ =~= remove_all(table@, member_views(members@).take(0)));
    }
    while i < n
        invariant
            i <= n,
            n == members@.len(),
            table@ == remove_all(old(table)@, member_views(members@).take(i as int)),
        decreases n - i,
    {
        table.remove(&members[i]);
        proof {
            let views = member_views(members@);
            assert(views[i as int] == members@[i as int]@);
            lemma_remove_all_step(old(table)@, views, i as int);
        }
        i = i + 1;
    }
    proof {
        assert(member_views(members@).take(n as int) =~= member_views(members@));
    }
}

/// Bulk-approves members on the public whitelist track.  Owner-only;
/// approving is an idempotent upsert.
pub fn execute_public_whitelist_approve(
    ledger: &mut Ledger,
    sender: &String,
    msg: WhitelistApproveMsg,
) -> (r: Result<Response, ContractError>)
    ensures
        match public_whitelist_approve_spec(
            old(ledger)@,
            sender@,
            member_views(msg.whitelist_members@),
        ) {
            Ok(l2) => {
                &&& final(ledger)@ == l2
                &&& r matches Ok(resp)
                &&& resp.messages@.len() == 0
                &&& resp.attributes@.len() == 1
                &&& resp.attributes@[0].key@ == "action"@
                &&& resp.attributes@[0].value@ == "public_whitelist_approve"@
            },
            Err(e) => {
                &&& final(ledger)@ == old(ledger)@
                &&& (r matches Err(e2) && e2 == e)
            },
        },
{
    if !(ledger.state.owner == *sender) {
        return Err(ContractError::Unauthorized {});
    }
    approve_members(&mut ledger.public_whitelist, &msg.whitelist_members);
    Ok(Response::new().add_attribute("action".to_owned(), "public_whitelist_approve".to_owned()))
}

/// Bulk-removes members from the public whitelist track.  Owner-only;
/// counters of removed members are preserved.
pub fn execute_public_whitelist_remove(
    ledger: &mut Ledger,
    sender: &String,
    msg: WhitelistRemoveMsg,
) -> (r: Result<Response, ContractError>)
    ensures
        match public_whitelist_remove_spec(
            old(ledger)@,
            sender@,
            member_views(msg.whitelist_members@),
        ) {
            Ok(l2) => {
                &&& final(ledger)@ == l2
                &&& r matches Ok(resp)
                &&& resp.messages@.len() == 0
                &&& resp.attributes@.len() == 1
                &&& resp.attributes@[0].key@ == "action"@
                &&& resp.attributes@[0].value@ == "public_whitelist_remove"@
            },
            Err(e) => {
                &&& final(ledger)@ == old(ledger)@
                &&& (r matches Err(e2) && e2 == e)
            },
        },
{
    if !(ledger.state.owner == *sender) {
        return Err(ContractError::Unauthorized {});
    }
    remove_members(&mut ledger.public_whitelist, &msg.whitelist_members);
    Ok(Response::new().add_attribute("action".to_owned(), "public_whitelist_remove".to_owned()))
}

/// Bulk-approves members on the private whitelist track.  Owner-only;
/// approving is an idempotent upsert.
pub fn execute_private_whitelist_approve(
    ledger: &mut Ledger,
    sender: &String,
    msg: WhitelistApproveMsg,
) -> (r: Result<Response, ContractError>)
    ensures
        match private_whitelist_approve_spec(
            old(ledger)@,
            sender@,
            member_views(msg.whitelist_members@),
        ) {
            Ok(l2) => {
                &&& final(ledger)@ == l2
                &&& r matches Ok(resp)
                &&& resp.messages@.len() == 0
                &&& resp.attributes@.len() == 1
                &&& resp.attributes@[0].key@ == "action"@
                &&& resp.attributes@[0].value@ == "private_whitelist_approve"@
            },
            Err(e) => {
                &&& final(ledger)@ == old(ledger)@
                &&& (r matches Err(e2) && e2 == e)
            },
        },
{
    if !(ledger.state.owner == *sender) {
        return Err(ContractError::Unauthorized {});
    }
    approve_members(&mut ledger.private_whitelist, &msg.whitelist_members);
    Ok(Response::new().add_attribute("action".to_owned(), "private_whitelist_approve".to_owned()))
}

/// Bulk-removes members from the private whitelist track.  Owner-only;
/// counters of removed members are preserved.
pub fn execute_private_whitelist_remove(
    ledger: &mut Ledger,
    sender: &String,
    msg: WhitelistRemoveMsg,
) -> (r: Result<Response, ContractError>)
    ensures
        match private_whitelist_remove_spec(
            old(ledger)@,
            sender@,
            member_views(msg.whitelist_members@),
        ) {
            Ok(l2) => {
                &&& final(ledger)@ == l2
                &&& r matches Ok(resp)
                &&& resp.messages@.len() == 0
                &&& resp.attributes@.len() == 1
                &&& resp.attributes@[0].key@ == "action"@
                &&& resp.attributes@[0].value@ == "private_whitelist_remove"@
            },
            Err(e) => {
                &&& final(ledger)@ == old(ledger)@
                &&& (r matches Err(e2) && e2 == e)
            },
        },
{
    if !(ledger.state.owner == *sender) {
        return Err(ContractError::Unauthorized {});
    }
    remove_members(&mut ledger.private_whitelist, &msg.whitelist_members);
    Ok(Response::new().add_attribute("action".to_owned(), "private_whitelist_remove".to_owned()))
}

} // verus!
