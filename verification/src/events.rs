//! The notifications that the ledger asks its host to deliver.

use vstd::prelude::*;
use crate::account::{AccountId, Balance};

verus! {

/// Tells that `value` units went from one account to another. An absent
/// sender marks the issue of new units at construction.
#[derive(Clone, Copy, Debug, PartialEq, Eq)]
pub struct Transfer {
    pub from: Option<AccountId>,
    pub to: Option<AccountId>,
    pub value: Balance,
}

/// Tells that `owner` now allows `spender` to move up to `value` units.
#[derive(Clone, Copy, Debug, PartialEq, Eq)]
pub struct Approval {
    pub owner: AccountId,
    pub spender: AccountId,
    pub value: Balance,
}

} // verus!
