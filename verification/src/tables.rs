//! The two tables of the ledger, kept in the storage hash map of
//! `ink_storage`.
//!
//! Verus does not look inside that map. What it knows of a table is the map
//! of its entries, and of each operation only what is written here. None of
//! this file is proved: it is what the ledger takes on trust.

use vstd::prelude::*;
use ink_storage::collections::HashMap;
use crate::account::{AccountId, Balance};

verus! {

/// The most entries that one table holds: the storage map counts them in a
/// `u32`.
pub const MAX_ENTRIES: u32 = u32::MAX;

/// What a table of balances holds, as a map from account to amount.
pub type BalanceMap = Map<AccountId, Balance>;

/// What a table of allowances holds, as a map from (owner, spender) to
/// amount.
pub type AllowanceMap = Map<(AccountId, AccountId), Balance>;

/// A table of balances: an `ink_storage::collections::HashMap` from the
/// bytes of an account to an amount.
///
/// Verus cannot be told of the map's own type, whose bounds are traits of
/// `ink_storage`, so the map sits in this struct, which Verus takes as a
/// whole. Nothing outside this file reaches the field: a table is made empty
/// and changes by insertion only, and so never reads from contract storage.
#[verifier::external_body]
pub struct BalanceTable {
    entries: HashMap<[u8; 32], Balance>,
}

/// A table of allowances: an `ink_storage::collections::HashMap` from the
/// bytes of an owner and of a spender to an amount.
///
/// It sits in a struct of its own for the same reason as the table of
/// balances does, and is as closed.
#[verifier::external_body]
pub struct AllowanceTable {
    entries: HashMap<([u8; 32], [u8; 32]), Balance>,
}

/// The entries of a table of balances: for each key of the storage map, the
/// account with those bytes and the amount stored under it.
pub uninterp spec fn balance_entries(table: BalanceTable) -> BalanceMap;

/// The entries of a table of allowances: for each key of the storage map,
/// the owner and the spender with those bytes and the amount stored under
/// them.
pub uninterp spec fn allowance_entries(table: AllowanceTable) -> AllowanceMap;

/// Calls `ink_storage::collections::HashMap::new`. On trust: the map that it
/// makes has no entry.
#[verifier::external_body]
pub(crate) fn new_balance_table() -> (table: BalanceTable)
    ensures
        balance_entries(table) == BalanceMap::empty(),
{
    BalanceTable { entries: HashMap::new() }
}

/// Calls `ink_storage::collections::HashMap::len`. On trust: it returns the
/// number of entries.
#[verifier::external_body]
pub(crate) fn balance_table_len(table: &BalanceTable) -> (n: u32)
    requires
        balance_entries(*table).dom().finite(),
    ensures
        n == balance_entries(*table).dom().len(),
{
    table.entries.len()
}

/// Calls `ink_storage::collections::HashMap::get`. On trust: it returns the
/// amount stored under the bytes of `owner` where there is an entry and
/// `None` where there is none, and does not panic.
#[verifier::external_body]
pub(crate) fn balance_entry(table: &BalanceTable, owner: AccountId) -> (found: Option<Balance>)
    ensures
        found == (if balance_entries(*table).contains_key(owner) {
            Some(balance_entries(*table)[owner])
        } else {
            None
        }),
    no_unwind
{
    table.entries.get(&owner.bytes).copied()
}

/// Calls `ink_storage::collections::HashMap::insert`. On trust: afterwards
/// the amount under the bytes of `owner` is `value` and every other entry is
/// as before, and the call does not panic. A key that is new takes one more
/// place in the map's `u32` count of entries, which `requires` keeps from
/// running over.
#[verifier::external_body]
pub(crate) fn put_balance(table: &mut BalanceTable, owner: AccountId, value: Balance)
    requires
        balance_entries(*old(table)).dom().finite(),
        balance_entries(*old(table)).contains_key(owner) || balance_entries(*old(table)).dom().len()
            < MAX_ENTRIES,
    ensures
        balance_entries(*final(table)) == balance_entries(*old(table)).insert(owner, value),
    no_unwind
{
    table.entries.insert(owner.bytes, value);
}

/// Calls `ink_storage::collections::HashMap::new`. On trust: the map that it
/// makes has no entry.
#[verifier::external_body]
pub(crate) fn new_allowance_table() -> (table: AllowanceTable)
    ensures
        allowance_entries(table) == AllowanceMap::empty(),
{
    AllowanceTable { entries: HashMap::new() }
}

/// Calls `ink_storage::collections::HashMap::len`. On trust: it returns the
/// number of entries.
#[verifier::external_body]
pub(crate) fn allowance_table_len(table: &AllowanceTable) -> (n: u32)
    requires
        allowance_entries(*table).dom().finite(),
    ensures
        n == allowance_entries(*table).dom().len(),
{
    table.entries.len()
}

/// Calls `ink_storage::collections::HashMap::get`. On trust: it returns the
/// amount stored under the bytes of `owner` and `spender` where there is an
/// entry and `None` where there is none, and does not panic.
#[verifier::external_body]
pub(crate) fn allowance_entry(table: &AllowanceTable, owner: AccountId, spender: AccountId) -> (found:
    Option<Balance>)
    ensures
        found == (if allowance_entries(*table).contains_key((owner, spender)) {
            Some(allowance_entries(*table)[(owner, spender)])
        } else {
            None
        }),
    no_unwind
{
    table.entries.get(&(owner.bytes, spender.bytes)).copied()
}

/// Calls `ink_storage::collections::HashMap::insert`. On trust: afterwards
/// the amount under the bytes of `owner` and `spender` is `value` and every
/// other entry is as before, and the call does not panic. A key that is new
/// takes one more place in the map's `u32` count of entries, which
/// `requires` keeps from running over.
#[verifier::external_body]
pub(crate) fn put_allowance(
    table: &mut AllowanceTable,
    owner: AccountId,
    spender: AccountId,
    value: Balance,
)
    requires
        allowance_entries(*old(table)).dom().finite(),
        allowance_entries(*old(table)).contains_key((owner, spender)) || allowance_entries(
            *old(table),
        ).dom().len() < MAX_ENTRIES,
    ensures
        allowance_entries(*final(table)) == allowance_entries(*old(table)).insert(
            (owner, spender),
            value,
        ),
    no_unwind
{
    table.entries.insert((owner.bytes, spender.bytes), value);
}

} // verus!
