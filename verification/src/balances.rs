//! Tables of balances as mathematical maps: reading one with a default,
//! adding one up, and moving an amount within one.

use vstd::prelude::*;
use crate::account::{AccountId, Balance};
use crate::tables::BalanceMap;

verus! {

/// The amount that `table` gives under `key`: the entry where there is one,
/// zero where there is none.
pub open spec fn get_or_zero<K>(table: Map<K, Balance>, key: K) -> Balance {
    if table.contains_key(key) {
        table[key]
    } else {
        0
    }
}

/// The sum of all amounts in `balances`, for a table with finitely many
/// entries.
pub open spec fn sum_of(balances: BalanceMap) -> nat
    decreases balances.dom().len(),
    when balances.dom().finite()
{
    if balances.dom().is_empty() {
        0
    } else {
        let holder = balances.dom().choose();
        balances[holder] as nat + sum_of(balances.remove(holder))
    }
}

/// The balances after `value` went from `from` to `to`: both accounts have
/// an entry, `from` has `value` less and `to` has `value` more (the same as
/// before where they are one account), and every other account is
/// untouched.
pub open spec fn balances_after_move(
    balances: BalanceMap,
    from: AccountId,
    to: AccountId,
    value: Balance,
) -> BalanceMap {
    Map::new(
        |a: AccountId| balances.contains_key(a) || a == from || a == to,
        |a: AccountId|
            (get_or_zero(balances, a) - (if a == from {
                value as int
            } else {
                0
            }) + (if a == to {
                value as int
            } else {
                0
            })) as Balance,
    )
}

/// Taking one holder out of a table takes that holder's amount out of the
/// sum, whichever holder it is.
pub proof fn lemma_sum_without(balances: BalanceMap, holder: AccountId)
    requires
        balances.dom().finite(),
        balances.contains_key(holder),
    ensures
        sum_of(balances) == balances[holder] + sum_of(balances.remove(holder)),
    decreases balances.dom().len(),
{
    let first = balances.dom().choose();
    if first != holder {
        lemma_sum_without(balances.remove(first), holder);
        lemma_sum_without(balances.remove(holder), first);
        assert(balances.remove(first).remove(holder) =~= balances.remove(holder).remove(first));
    }
}

/// Writing `value` under `holder` changes the sum by the difference between
/// `value` and what `holder` had.
pub proof fn lemma_sum_after_insert(balances: BalanceMap, holder: AccountId, value: Balance)
    requires
        balances.dom().finite(),
    ensures
        sum_of(balances.insert(holder, value)) == sum_of(balances) - get_or_zero(balances, holder)
            + value,
{
    let after = balances.insert(holder, value);
    lemma_sum_without(after, holder);
    if balances.contains_key(holder) {
        lemma_sum_without(balances, holder);
        assert(after.remove(holder) =~= balances.remove(holder));
    } else {
        assert(after.remove(holder) =~= balances);
    }
}

/// Two holders together hold no more than the whole table does, and so does
/// each of them.
pub proof fn lemma_two_holders_within_sum(balances: BalanceMap, one: AccountId, other: AccountId)
    requires
        balances.dom().finite(),
        one != other,
    ensures
        get_or_zero(balances, one) + get_or_zero(balances, other) <= sum_of(balances),
{
    if balances.contains_key(one) {
        lemma_sum_without(balances, one);
        if balances.contains_key(other) {
            lemma_sum_without(balances.remove(one), other);
        }
    } else if balances.contains_key(other) {
        lemma_sum_without(balances, other);
    }
}

/// A movement that the sender's balance covers, in a table whose sum is an
/// amount, is a debit followed by a credit, touches no key but the two, and
/// leaves the sum as it was.
pub proof fn lemma_move_keeps_sum(balances: BalanceMap, from: AccountId, to: AccountId, value: Balance)
    requires
        balances.dom().finite(),
        get_or_zero(balances, from) >= value,
        sum_of(balances) <= Balance::MAX,
    ensures
        balances_after_move(balances, from, to, value) == balances.insert(
            from,
            (get_or_zero(balances, from) - value) as Balance,
        ).insert(
            to,
            (get_or_zero(
                balances.insert(from, (get_or_zero(balances, from) - value) as Balance),
                to,
            ) + value) as Balance,
        ),
        balances_after_move(balances, from, to, value).dom() == balances.dom().insert(from).insert(to),
        sum_of(balances_after_move(balances, from, to, value)) == sum_of(balances),
{
    let debited = balances.insert(from, (get_or_zero(balances, from) - value) as Balance);
    let credited = debited.insert(to, (get_or_zero(debited, to) + value) as Balance);
    if from != to {
        lemma_two_holders_within_sum(balances, from, to);
    }
    lemma_sum_after_insert(balances, from, (get_or_zero(balances, from) - value) as Balance);
    lemma_sum_after_insert(debited, to, (get_or_zero(debited, to) + value) as Balance);
    assert(balances_after_move(balances, from, to, value) =~= credited);
}

} // verus!
