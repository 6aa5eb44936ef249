//! What holds of every ledger, whatever is asked of it.
//!
//! Each statement here is about the model; the executable operations end in
//! the model values that it speaks of.

use vstd::prelude::*;
use crate::account::{AccountId, Balance};
use crate::balances::{
    lemma_move_keeps_sum, lemma_sum_after_insert, lemma_sum_without, lemma_two_holders_within_sum,
};
use crate::events::Transfer;
use crate::model::{Call, Ledger};

verus! {

/// The balances of a new ledger add up to what was issued.
pub proof fn opening_conserves_supply(caller: AccountId, initial_supply: Balance)
    ensures
        Ledger::opening(caller, initial_supply).conserves_supply(),
{
    lemma_sum_after_insert(Map::empty(), caller, initial_supply);
}

/// No request makes or loses units: where the balances add up to the total
/// supply before a request, they do so after it, whether it was carried out
/// or not, and the total supply is what it was.
pub proof fn every_call_conserves_supply(ledger: Ledger, call: Call)
    requires
        ledger.conserves_supply(),
    ensures
        ledger.after(call).conserves_supply(),
        ledger.after(call).total_supply == ledger.total_supply,
{
    match call {
        Call::Transfer { caller, to, value } => {
            if ledger.covers(caller, value) {
                lemma_move_keeps_sum(ledger.balances, caller, to, value);
            }
        },
        Call::Approve { .. } => {},
        Call::TransferFrom { caller, from, to, value } => {
            if ledger.can_spend(caller, from, value) {
                lemma_move_keeps_sum(ledger.balances, from, to, value);
            }
        },
    }
}

/// No run of requests makes or loses units: on a ledger whose balances add
/// up to its total supply they still do after the run, and the total supply
/// is what it was.
pub proof fn every_run_conserves_supply(ledger: Ledger, calls: Seq<Call>)
    requires
        ledger.conserves_supply(),
    ensures
        ledger.after_all(calls).conserves_supply(),
        ledger.after_all(calls).total_supply == ledger.total_supply,
    decreases calls.len(),
{
    if calls.len() > 0 {
        every_run_conserves_supply(ledger, calls.drop_last());
        every_call_conserves_supply(ledger.after_all(calls.drop_last()), calls.last());
    }
}

/// Whatever is asked of a ledger after its construction, its balances add up
/// to the supply that was issued.
pub proof fn supply_is_conserved_from_construction(
    caller: AccountId,
    initial_supply: Balance,
    calls: Seq<Call>,
)
    ensures
        Ledger::opening(caller, initial_supply).after_all(calls).conserves_supply(),
        Ledger::opening(caller, initial_supply).after_all(calls).total_supply == initial_supply,
{
    opening_conserves_supply(caller, initial_supply);
    every_run_conserves_supply(Ledger::opening(caller, initial_supply), calls);
}

/// Where the balances add up to the total supply, no account holds more than
/// the supply, and no two accounts together do: a recipient's balance cannot
/// run over.
pub proof fn no_balance_outgrows_the_supply(ledger: Ledger, one: AccountId, other: AccountId)
    requires
        ledger.conserves_supply(),
    ensures
        ledger.balance_of(one) <= ledger.total_supply,
        one != other ==> ledger.balance_of(one) + ledger.balance_of(other) <= ledger.total_supply,
{
    if ledger.balances.contains_key(one) {
        lemma_sum_without(ledger.balances, one);
    }
    if one != other {
        lemma_two_holders_within_sum(ledger.balances, one, other);
    }
}

/// An account without an entry holds nothing, and a pair without an entry
/// allows nothing.
pub proof fn absent_entries_read_as_zero(ledger: Ledger, owner: AccountId, spender: AccountId)
    ensures
        !ledger.balances.contains_key(owner) ==> ledger.balance_of(owner) == 0,
        !ledger.allowances.contains_key((owner, spender)) ==> ledger.allowance(owner, spender) == 0,
{
}

/// In a new ledger every account but the one that was issued the supply
/// holds nothing, and nobody allows anybody anything.
pub proof fn opening_gives_others_nothing(
    caller: AccountId,
    initial_supply: Balance,
    owner: AccountId,
    spender: AccountId,
)
    ensures
        Ledger::opening(caller, initial_supply).balance_of(caller) == initial_supply,
        owner != caller ==> Ledger::opening(caller, initial_supply).balance_of(owner) == 0,
        Ledger::opening(caller, initial_supply).allowance(owner, spender) == 0,
{
}

/// An account that the ledger has not seen and that no request of a run
/// names still holds nothing after the run, allows nobody anything and is
/// allowed nothing by anybody.
pub proof fn unnamed_account_stays_at_zero(
    ledger: Ledger,
    calls: Seq<Call>,
    account: AccountId,
    other: AccountId,
)
    requires
        !ledger.balances.contains_key(account),
        forall|owner: AccountId, spender: AccountId|
            ledger.allowances.contains_key((owner, spender)) ==> owner != account && spender
                != account,
        forall|i: int| 0 <= i < calls.len() ==> !(#[trigger] calls[i]).names(account),
    ensures
        ledger.after_all(calls).balance_of(account) == 0,
        ledger.after_all(calls).allowance(account, other) == 0,
        ledger.after_all(calls).allowance(other, account) == 0,
{
    lemma_unnamed_account_stays_absent(ledger, calls, account);
}

proof fn lemma_unnamed_account_stays_absent(ledger: Ledger, calls: Seq<Call>, account: AccountId)
    requires
        !ledger.balances.contains_key(account),
        forall|owner: AccountId, spender: AccountId|
            ledger.allowances.contains_key((owner, spender)) ==> owner != account && spender
                != account,
        forall|i: int| 0 <= i < calls.len() ==> !(#[trigger] calls[i]).names(account),
    ensures
        !ledger.after_all(calls).balances.contains_key(account),
        forall|owner: AccountId, spender: AccountId|
            ledger.after_all(calls).allowances.contains_key((owner, spender)) ==> owner != account
                && spender != account,
    decreases calls.len(),
{
    if calls.len() > 0 {
        lemma_unnamed_account_stays_absent(ledger, calls.drop_last(), account);
    }
}

/// A transfer happens whole or not at all: one that the sender's balance
/// does not cover leaves the whole ledger, and so both accounts' balances,
/// as they were, and tells nothing.
pub proof fn failed_transfer_changes_nothing(
    ledger: Ledger,
    caller: AccountId,
    to: AccountId,
    value: Balance,
)
    requires
        !ledger.covers(caller, value),
    ensures
        ledger.transfer(caller, to, value) == ledger,
        ledger.transfer(caller, to, value).balance_of(caller) == ledger.balance_of(caller),
        ledger.transfer(caller, to, value).balance_of(to) == ledger.balance_of(to),
        ledger.transfer_notice(caller, to, value).is_none(),
{
}

/// A transfer on behalf of an owner that cannot take place, for want of
/// allowance or of balance, leaves the whole ledger as it was, the allowance
/// too, and tells nothing.
pub proof fn failed_transfer_from_changes_nothing(
    ledger: Ledger,
    spender: AccountId,
    from: AccountId,
    to: AccountId,
    value: Balance,
)
    requires
        !ledger.can_spend(spender, from, value),
    ensures
        ledger.transfer_from(spender, from, to, value) == ledger,
        ledger.transfer_from(spender, from, to, value).allowance(from, spender) == ledger.allowance(
            from,
            spender,
        ),
        ledger.transfer_from_notice(spender, from, to, value).is_none(),
{
}

/// What a movement between two accounts does to each balance: the sender
/// has `value` less, the recipient `value` more, every other account what it
/// had; no allowance changes.
pub proof fn movement_changes_two_balances(
    ledger: Ledger,
    from: AccountId,
    to: AccountId,
    value: Balance,
    other: AccountId,
)
    requires
        ledger.conserves_supply(),
        ledger.covers(from, value),
        from != to,
    ensures
        ledger.moved(from, to, value).balance_of(from) == ledger.balance_of(from) - value,
        ledger.moved(from, to, value).balance_of(to) == ledger.balance_of(to) + value,
        other != from && other != to ==> ledger.moved(from, to, value).balance_of(other)
            == ledger.balance_of(other),
        ledger.moved(from, to, value).allowances == ledger.allowances,
        ledger.moved(from, to, value).total_supply == ledger.total_supply,
{
    lemma_two_holders_within_sum(ledger.balances, from, to);
}

/// A second approval replaces the first; the two are not added up.
pub proof fn later_approval_replaces_earlier(
    ledger: Ledger,
    owner: AccountId,
    spender: AccountId,
    first: Balance,
    second: Balance,
)
    ensures
        ledger.approved(owner, spender, first).approved(owner, spender, second).allowance(
            owner,
            spender,
        ) == second,
        ledger.approved(owner, spender, first).approved(owner, spender, second) == ledger.approved(
            owner,
            spender,
            second,
        ),
{
}

/// An approval touches one allowance and no balance.
pub proof fn approval_changes_one_allowance(
    ledger: Ledger,
    owner: AccountId,
    spender: AccountId,
    value: Balance,
    other_owner: AccountId,
    other_spender: AccountId,
)
    ensures
        ledger.approved(owner, spender, value).allowance(owner, spender) == value,
        (other_owner, other_spender) != (owner, spender) ==> ledger.approved(
            owner,
            spender,
            value,
        ).allowance(other_owner, other_spender) == ledger.allowance(other_owner, other_spender),
        ledger.approved(owner, spender, value).balances == ledger.balances,
        ledger.approved(owner, spender, value).total_supply == ledger.total_supply,
{
}

/// A transfer on behalf of an owner that takes place lowers the allowance of
/// that owner for that spender by exactly the value moved, whoever receives
/// it, and no other allowance; the balances change as in a transfer by the
/// owner.
pub proof fn spending_consumes_allowance(
    ledger: Ledger,
    spender: AccountId,
    from: AccountId,
    to: AccountId,
    value: Balance,
    other_owner: AccountId,
    other_spender: AccountId,
)
    requires
        ledger.can_spend(spender, from, value),
    ensures
        ledger.transfer_from(spender, from, to, value).allowance(from, spender) == ledger.allowance(
            from,
            spender,
        ) - value,
        (other_owner, other_spender) != (from, spender) ==> ledger.transfer_from(
            spender,
            from,
            to,
            value,
        ).allowance(other_owner, other_spender) == ledger.allowance(other_owner, other_spender),
        ledger.transfer_from(spender, from, to, value).balances == ledger.transfer(
            from,
            to,
            value,
        ).balances,
{
}

/// An account that transfers to itself no more than it holds keeps its
/// balance, as does every other account, and the transfer is still told.
pub proof fn self_transfer_is_neutral(
    ledger: Ledger,
    account: AccountId,
    value: Balance,
    other: AccountId,
)
    requires
        value <= ledger.balance_of(account),
    ensures
        ledger.transfer(account, account, value).balance_of(account) == ledger.balance_of(account),
        ledger.transfer(account, account, value).balance_of(other) == ledger.balance_of(other),
        ledger.transfer_notice(account, account, value) == Some(
            Transfer { from: Some(account), to: Some(account), value },
        ),
{
}

} // verus!
