//! Laws of the minting protocol.
//!
//! Each law is stated and proved over the transition functions that the
//! handlers' contracts are written against, so it holds of every reachable
//! ledger.  Where a law speaks of "no ledger change on failure", that part
//! is the handlers' own contracts: every handler ensures the ledger is
//! unchanged whenever its transition yields an error.

use vstd::prelude::*;
use crate::contract::{execute_spec, spec_denom};
use crate::error::ContractError;
use crate::execute::{
    enable_public_mint_spec, mint_spec, minted_of, phase_advance_spec, required_payment_ok,
    whitelist_gate_spec, init_spec,
};
use crate::msg::{CoinView, ExecuteMsg};
use crate::state::{LedgerView, Phase, phase_rank};

verus! {

/// In every phase but the public one, a sender who is not whitelisted
/// on the active track cannot mint.  In a whitelist phase the failure
/// is the ledger's missing-record error (no membership record) or
/// `NotWhitelisted` (record present, flag off); in the disabled and
/// reveal phases every mint fails regardless of whitelisting.
pub proof fn lemma_mint_requires_whitelist(
    l: LedgerView,
    sender: Seq<char>,
    funds: Seq<CoinView>,
    num_tokens: u64,
)
    requires
        l.state.phase !is Public,
        l.state.phase is NormalWhitelist ==> !(l.public_whitelist.contains_key(sender)
            && l.public_whitelist[sender].whitelisted),
        l.state.phase is PrivateWhitelist ==> !(l.private_whitelist.contains_key(sender)
            && l.private_whitelist[sender].whitelisted),
    ensures
        mint_spec(l, sender, funds, num_tokens) is Err,
        (l.state.phase is NormalWhitelist || l.state.phase is PrivateWhitelist) ==> (mint_spec(
            l,
            sender,
            funds,
            num_tokens,
        ) == Err::<(LedgerView, u64), ContractError>(ContractError::NotFound {}) || mint_spec(
            l,
            sender,
            funds,
            num_tokens,
        ) == Err::<(LedgerView, u64), ContractError>(ContractError::NotWhitelisted {})),
{
}

/// Once a sender's counter on the active track has reached the
/// allowance, the next mint fails with `WhitelistAllowance` carrying
/// exactly that count.  Together with the handler's no-change-on-error
/// contract, the counter stays put: the Nth mint (N the allowance) is
/// the last that can succeed.
pub proof fn lemma_mint_allowance_exhausted(
    l: LedgerView,
    sender: Seq<char>,
    funds: Seq<CoinView>,
    num_tokens: u64,
)
    requires
        l.state.phase is NormalWhitelist || l.state.phase is PrivateWhitelist,
        l.state.phase is NormalWhitelist ==> l.public_whitelist.contains_key(sender)
            && l.public_whitelist[sender].whitelisted && minted_of(
            l.public_whitelist_counter,
            sender,
        ) >= l.state.public_whitelist_allowance,
        l.state.phase is PrivateWhitelist ==> l.private_whitelist.contains_key(sender)
            && l.private_whitelist[sender].whitelisted && minted_of(
            l.private_whitelist_counter,
            sender,
        ) >= l.state.private_whitelist_allowance,
    ensures
        mint_spec(l, sender, funds, num_tokens) == Err::<(LedgerView, u64), ContractError>(
            ContractError::WhitelistAllowance {
                minted: if l.state.phase is NormalWhitelist {
                    minted_of(l.public_whitelist_counter, sender)
                } else {
                    minted_of(l.private_whitelist_counter, sender)
                },
            },
        ),
{
}

/// A whitelisted sender whose counter is still below the allowance,
/// with capacity left and sufficient payment, mints successfully, and
/// the active track's counter for that sender moves up by exactly one
/// while the other track's counter is untouched.
pub proof fn lemma_mint_within_allowance(
    l: LedgerView,
    sender: Seq<char>,
    funds: Seq<CoinView>,
    num_tokens: u64,
)
    requires
        l.state.phase is NormalWhitelist || l.state.phase is PrivateWhitelist,
        l.state.phase is NormalWhitelist ==> l.public_whitelist.contains_key(sender)
            && l.public_whitelist[sender].whitelisted && minted_of(
            l.public_whitelist_counter,
            sender,
        ) < l.state.public_whitelist_allowance,
        l.state.phase is PrivateWhitelist ==> l.private_whitelist.contains_key(sender)
            && l.private_whitelist[sender].whitelisted && minted_of(
            l.private_whitelist_counter,
            sender,
        ) < l.state.private_whitelist_allowance,
        num_tokens < l.state.supply,
        required_payment_ok(funds, Some(CoinView { denom: spec_denom(), amount: l.state.price })),
    ensures
        mint_spec(l, sender, funds, num_tokens) matches Ok((l2, token_id)) && token_id == num_tokens
            + 1 && (l.state.phase is NormalWhitelist ==> minted_of(
            l2.public_whitelist_counter,
            sender,
        ) == minted_of(l.public_whitelist_counter, sender) + 1 && l2.private_whitelist_counter
            == l.private_whitelist_counter) && (l.state.phase is PrivateWhitelist ==> minted_of(
            l2.private_whitelist_counter,
            sender,
        ) == minted_of(l.private_whitelist_counter, sender) + 1 && l2.public_whitelist_counter
            == l.public_whitelist_counter),
{
}

/// Token ids are strictly sequential and externally determined: a
/// successful mint always assigns id `num_tokens + 1`, one past
/// everything the registry has issued, whichever track produced it; in
/// particular the first token of an empty registry gets id 1.
pub proof fn lemma_token_id_sequential(
    l: LedgerView,
    sender: Seq<char>,
    funds: Seq<CoinView>,
    num_tokens: u64,
)
    ensures
        mint_spec(l, sender, funds, num_tokens) matches Ok((l2, token_id)) ==> token_id
            == num_tokens + 1 && token_id > num_tokens && token_id <= l.state.supply,
{
}

/// Minting past the supply cap always fails with `SoldOut`.  That
/// check sits after the id computation but before the payment check and the
/// counter commit: it fires whatever funds are attached, and nothing is
/// recorded.
pub proof fn lemma_sold_out(l: LedgerView, sender: Seq<char>, funds: Seq<CoinView>, num_tokens: u64)
    requires
        l.state.phase !is Disabled,
        l.state.phase !is Reveal,
        whitelist_gate_spec(l, sender) is Ok,
        num_tokens >= l.state.supply,
    ensures
        mint_spec(l, sender, funds, num_tokens) == Err::<(LedgerView, u64), ContractError>(
            ContractError::SoldOut {},
        ),
{
}

/// With every earlier gate passing, a mint succeeds exactly when the
/// attached payment reaches the configured price in the native
/// currency: below the price it fails, at or above it succeeds, and a
/// zero price skips the check entirely.
pub proof fn lemma_payment_gate(
    l: LedgerView,
    sender: Seq<char>,
    funds: Seq<CoinView>,
    num_tokens: u64,
)
    requires
        l.state.phase !is Disabled,
        l.state.phase !is Reveal,
        whitelist_gate_spec(l, sender) is Ok,
        num_tokens < l.state.supply,
    ensures
        mint_spec(l, sender, funds, num_tokens) is Ok <==> required_payment_ok(
            funds,
            Some(CoinView { denom: spec_denom(), amount: l.state.price }),
        ),
        l.state.price == 0 ==> mint_spec(l, sender, funds, num_tokens) is Ok,
        (exists|i: int|
            0 <= i < funds.len() && funds[i].denom == spec_denom() && funds[i].amount
                == l.state.price) ==> mint_spec(l, sender, funds, num_tokens) is Ok,
        !required_payment_ok(funds, Some(CoinView { denom: spec_denom(), amount: l.state.price }))
            ==> mint_spec(l, sender, funds, num_tokens) == Err::<(LedgerView, u64), ContractError>(
            ContractError::Unauthorized {},
        ),
{
    if exists|i: int|
        0 <= i < funds.len() && funds[i].denom == spec_denom() && funds[i].amount
            == l.state.price {
        let i = choose|i: int|
            0 <= i < funds.len() && funds[i].denom == spec_denom() && funds[i].amount
                == l.state.price;
        if l.state.price > 0 {
            assert(funds[i].amount >= l.state.price);
            assert(required_payment_ok(
                funds,
                Some(CoinView { denom: spec_denom(), amount: l.state.price }),
            ));
        }
    }
}

/// The phase only moves forward: no command, other than the blunt
/// owner-only configuration replace, ever lowers it.
pub proof fn lemma_phase_forward(
    l: LedgerView,
    sender: Seq<char>,
    funds: Seq<CoinView>,
    num_tokens: u64,
    msg: ExecuteMsg,
)
    requires
        !(msg is UpdateConfig),
    ensures
        execute_spec(l, sender, funds, num_tokens, msg) matches Ok(l2) ==> phase_rank(
            l2.state.phase,
        ) >= phase_rank(l.state.phase),
{
}

/// Advancing to the public-mint phase is idempotent-failing: after one
/// success, repeating the command fails with `PublicMintEnabled` (and,
/// by the handler's contract, changes nothing).
pub proof fn lemma_enable_public_mint_idempotent_failing(
    l: LedgerView,
    l2: LedgerView,
    sender: Seq<char>,
)
    requires
        enable_public_mint_spec(l, sender) == Ok::<LedgerView, ContractError>(l2),
    ensures
        enable_public_mint_spec(l2, sender) == Err::<LedgerView, ContractError>(
            ContractError::PublicMintEnabled {},
        ),
{
}

/// A phase transition attempted by anyone but the owner fails with
/// `Unauthorized`, whatever the current phase; so does the one-time
/// setup.
pub proof fn lemma_enable_non_owner(
    l: LedgerView,
    sender: Seq<char>,
    target: Phase,
    already: ContractError,
)
    requires
        sender != l.state.owner,
    ensures
        phase_advance_spec(l, sender, target, already) == Err::<LedgerView, ContractError>(
            ContractError::Unauthorized {},
        ),
        init_spec(l, sender) == Err::<LedgerView, ContractError>(ContractError::Unauthorized {}),
{
}

} // verus!
