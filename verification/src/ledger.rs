//! The executable ledger.

use vstd::prelude::*;
use crate::account::{AccountId, Balance};
use crate::balances::{
    balances_after_move, get_or_zero, lemma_move_keeps_sum, lemma_two_holders_within_sum, sum_of,
};
use crate::events::{Approval, Transfer};
use crate::laws::opening_conserves_supply;
use crate::model::Ledger;
use crate::tables::{
    allowance_entries, allowance_entry, allowance_table_len, balance_entries, balance_entry,
    balance_table_len, new_allowance_table, new_balance_table, put_allowance, put_balance,
    AllowanceTable, BalanceTable, MAX_ENTRIES,
};

verus! {

/// A ledger of one fungible token: the supply that was issued, the balance
/// of every account, and what every owner allows every spender.
///
/// The balances of a ledger add up to its total supply, from construction
/// on and whatever is asked of it.
pub struct Erc20 {
    total_supply: Balance,
    balances: BalanceTable,
    allowances: AllowanceTable,
}

impl View for Erc20 {
    type V = Ledger;

    /// The state that the ledger stands for.
    closed spec fn view(&self) -> Ledger {
        Ledger {
            total_supply: self.total_supply,
            balances: balance_entries(self.balances),
            allowances: allowance_entries(self.allowances),
        }
    }
}

/// What `balances` gives for `owner`: the entry where there is one, zero
/// where there is none.
fn balance_or_zero(balances: &BalanceTable, owner: &AccountId) -> (balance: Balance)
    ensures
        balance == get_or_zero(balance_entries(*balances), *owner),
    no_unwind
{
    match balance_entry(balances, *owner) {
        Some(balance) => balance,
        None => 0,
    }
}

/// Takes `value` off what `from` holds, which is `from_balance`, and adds it
/// to what `to` holds. No amount runs over, because the two accounts
/// together hold no more than the table's sum.
fn move_between(
    balances: &mut BalanceTable,
    from: AccountId,
    to: AccountId,
    from_balance: Balance,
    value: Balance,
)
    requires
        balance_entries(*old(balances)).dom().finite(),
        sum_of(balance_entries(*old(balances))) <= Balance::MAX,
        from_balance == get_or_zero(balance_entries(*old(balances)), from),
        from_balance >= value,
        balance_entries(*old(balances)).dom().insert(from).insert(to).len() <= MAX_ENTRIES,
    ensures
        balance_entries(*final(balances)) == balances_after_move(
            balance_entries(*old(balances)),
            from,
            to,
            value,
        ),
        balance_entries(*final(balances)).dom().finite(),
        sum_of(balance_entries(*final(balances))) == sum_of(balance_entries(*old(balances))),
    no_unwind
{
    proof {
        lemma_move_keeps_sum(balance_entries(*balances), from, to, value);
        if from != to {
            lemma_two_holders_within_sum(balance_entries(*balances), from, to);
        }
    }
    put_balance(balances, from, from_balance - value);
    let to_balance: Balance = balance_or_zero(balances, &to);
    put_balance(balances, to, to_balance + value);
}

impl Erc20 {
    #[verifier::type_invariant]
    spec fn balances_add_up(self) -> bool {
        self@.well_formed()
    }

    /// Issues `initial_supply` units to `caller`, and tells of it as a
    /// transfer without a sender.
    pub fn new(caller: AccountId, initial_supply: Balance) -> (made: (Erc20, Transfer))
        ensures
            made.0@ == Ledger::opening(caller, initial_supply),
            made.0@.conserves_supply(),
            made.1 == (Transfer { from: None, to: Some(caller), value: initial_supply }),
    {
        let mut balances = new_balance_table();
        put_balance(&mut balances, caller, initial_supply);
        proof {
            opening_conserves_supply(caller, initial_supply);
        }
        let ledger = Erc20 {
            total_supply: initial_supply,
            balances,
            allowances: new_allowance_table(),
        };
        (ledger, Transfer { from: None, to: Some(caller), value: initial_supply })
    }

    /// The supply that was issued at construction, to which the balances add
    /// up.
    pub fn total_supply(&self) -> (supply: Balance)
        ensures
            supply == self@.total_supply,
            self@.conserves_supply(),
    {
        proof {
            use_type_invariant(self);
        }
        self.total_supply
    }

    /// What `owner` holds; zero for an account that the ledger has never
    /// seen.
    pub fn balance_of(&self, owner: AccountId) -> (balance: Balance)
        ensures
            balance == self@.balance_of(owner),
    {
        self.balance_of_or_zero(&owner)
    }

    /// Moves `value` from `caller` to `to`, where `caller` holds that much,
    /// and tells of it. Where `caller` holds less the ledger stays as it is
    /// and nothing is told.
    ///
    /// The tables must have room for what the transfer writes;
    /// [`Erc20::checked_transfer`] looks to that itself.
    pub fn transfer(&mut self, caller: AccountId, to: AccountId, value: Balance) -> (outcome: (
        bool,
        Option<Transfer>,
    ))
        requires
            old(self)@.admits_transfer(caller, to, value),
        ensures
            final(self)@ == old(self)@.transfer(caller, to, value),
            final(self)@.conserves_supply(),
            outcome.0 == old(self)@.covers(caller, value),
            outcome.1 == old(self)@.transfer_notice(caller, to, value),
    {
        self.transfer_from_to(caller, to, value)
    }

    /// Sets what `spender` may move out of `caller`'s balance to `value`,
    /// whatever it was before, and tells of it. An approval always succeeds.
    ///
    /// The tables must have room for what the approval writes;
    /// [`Erc20::checked_approve`] looks to that itself.
    pub fn approve(&mut self, caller: AccountId, spender: AccountId, value: Balance) -> (outcome: (
        bool,
        Approval,
    ))
        requires
            old(self)@.admits_approval(caller, spender),
        ensures
            final(self)@ == old(self)@.approved(caller, spender, value),
            final(self)@.conserves_supply(),
            outcome.0,
            outcome.1 == (Approval { owner: caller, spender, value }),
    {
        proof {
            use_type_invariant(&*self);
        }
        put_allowance(&mut self.allowances, caller, spender, value);
        (true, Approval { owner: caller, spender, value })
    }

    /// What `spender` may still move out of `owner`'s balance; zero where
    /// `owner` never approved `spender`.
    pub fn allowance(&self, owner: AccountId, spender: AccountId) -> (allowed: Balance)
        ensures
            allowed == self@.allowance(owner, spender),
    {
        self.allowance_of_or_zero(&owner, &spender)
    }

    /// Moves `value` from `from` to `to` for `caller`, where `from` allows
    /// `caller` that much and holds that much, takes `value` off the
    /// allowance, and tells of the movement. Otherwise the ledger stays as
    /// it is, the allowance too, and nothing is told.
    ///
    /// The tables must have room for what the transfer writes;
    /// [`Erc20::checked_transfer_from`] looks to that itself.
    pub fn transfer_from(
        &mut self,
        caller: AccountId,
        from: AccountId,
        to: AccountId,
        value: Balance,
    ) -> (outcome: (bool, Option<Transfer>))
        requires
            old(self)@.admits_transfer_from(caller, from, to, value),
        ensures
            final(self)@ == old(self)@.transfer_from(caller, from, to, value),
            final(self)@.conserves_supply(),
            outcome.0 == old(self)@.can_spend(caller, from, value),
            outcome.1 == old(self)@.transfer_from_notice(caller, from, to, value),
    {
        proof {
            use_type_invariant(&*self);
        }
        let allowance: Balance = self.allowance_of_or_zero(&from, &caller);
        if allowance < value {
            return (false, None);
        }
        let moved = self.transfer_from_to(from, to, value);
        if !moved.0 {
            return (false, None);
        }
        put_allowance(&mut self.allowances, from, caller, allowance - value);
        moved
    }

    /// [`Erc20::transfer`] where the tables have room for it; where they
    /// have none, `None`, and the ledger as it was.
    pub fn checked_transfer(&mut self, caller: AccountId, to: AccountId, value: Balance) -> (outcome:
        Option<(bool, Option<Transfer>)>)
        ensures
            outcome == (if old(self)@.admits_transfer(caller, to, value) {
                Some(
                    (old(self)@.covers(caller, value), old(self)@.transfer_notice(caller, to, value)),
                )
            } else {
                None
            }),
            final(self)@ == (if old(self)@.admits_transfer(caller, to, value) {
                old(self)@.transfer(caller, to, value)
            } else {
                old(self)@
            }),
            final(self)@.conserves_supply(),
    {
        proof {
            use_type_invariant(&*self);
        }
        if self.balance_of_or_zero(&caller) >= value && !self.has_room_for_transfer(caller, to) {
            return None;
        }
        Some(self.transfer(caller, to, value))
    }

    /// [`Erc20::approve`] where the tables have room for it; where they have
    /// none, `None`, and the ledger as it was.
    pub fn checked_approve(&mut self, caller: AccountId, spender: AccountId, value: Balance) -> (outcome:
        Option<(bool, Approval)>)
        ensures
            outcome == (if old(self)@.admits_approval(caller, spender) {
                Some((true, Approval { owner: caller, spender, value }))
            } else {
                None
            }),
            final(self)@ == (if old(self)@.admits_approval(caller, spender) {
                old(self)@.approved(caller, spender, value)
            } else {
                old(self)@
            }),
            final(self)@.conserves_supply(),
    {
        proof {
            use_type_invariant(&*self);
        }
        if !self.has_room_for_approval(caller, spender) {
            return None;
        }
        Some(self.approve(caller, spender, value))
    }

    /// [`Erc20::transfer_from`] where the tables have room for it; where
    /// they have none, `None`, and the ledger as it was.
    pub fn checked_transfer_from(
        &mut self,
        caller: AccountId,
        from: AccountId,
        to: AccountId,
        value: Balance,
    ) -> (outcome: Option<(bool, Option<Transfer>)>)
        ensures
            outcome == (if old(self)@.admits_transfer_from(caller, from, to, value) {
                Some(
                    (
                        old(self)@.can_spend(caller, from, value),
                        old(self)@.transfer_from_notice(caller, from, to, value),
                    ),
                )
            } else {
                None
            }),
            final(self)@ == (if old(self)@.admits_transfer_from(caller, from, to, value) {
                old(self)@.transfer_from(caller, from, to, value)
            } else {
                old(self)@
            }),
            final(self)@.conserves_supply(),
    {
        proof {
            use_type_invariant(&*self);
        }
        if self.allowance_of_or_zero(&from, &caller) >= value && self.balance_of_or_zero(&from)
            >= value && !(self.has_room_for_transfer(from, to) && self.has_room_for_approval(
            from,
            caller,
        )) {
            return None;
        }
        Some(self.transfer_from(caller, from, to, value))
    }

    fn balance_of_or_zero(&self, owner: &AccountId) -> (balance: Balance)
        ensures
            balance == get_or_zero(self@.balances, *owner),
    {
        balance_or_zero(&self.balances, owner)
    }

    fn transfer_from_to(&mut self, from: AccountId, to: AccountId, value: Balance) -> (outcome: (
        bool,
        Option<Transfer>,
    ))
        requires
            old(self)@.admits_transfer(from, to, value),
        ensures
            final(self)@ == old(self)@.transfer(from, to, value),
            final(self)@.conserves_supply(),
            outcome.0 == old(self)@.covers(from, value),
            outcome.1 == old(self)@.transfer_notice(from, to, value),
    {
        proof {
            use_type_invariant(&*self);
        }
        let from_balance: Balance = self.balance_of_or_zero(&from);
        if from_balance < value {
            return (false, None);
        }
        move_between(&mut self.balances, from, to, from_balance, value);
        (true, Some(Transfer { from: Some(from), to: Some(to), value }))
    }

    fn allowance_of_or_zero(&self, owner: &AccountId, spender: &AccountId) -> (allowed: Balance)
        ensures
            allowed == get_or_zero(self@.allowances, (*owner, *spender)),
    {
        match allowance_entry(&self.allowances, *owner, *spender) {
            Some(allowed) => allowed,
            None => 0,
        }
    }

    /// Whether the table of balances can take entries of `from` and of `to`.
    fn has_room_for_transfer(&self, from: AccountId, to: AccountId) -> (room: bool)
        ensures
            room == self@.has_room_for_holders(from, to),
    {
        proof {
            use_type_invariant(self);
        }
        let held: u32 = balance_table_len(&self.balances);
        let from_is_new = balance_entry(&self.balances, from).is_none();
        let to_is_new = !from.same_as(&to) && balance_entry(&self.balances, to).is_none();
        let free: u32 = MAX_ENTRIES - held;
        if from_is_new && to_is_new {
            free >= 2
        } else if from_is_new || to_is_new {
            free >= 1
        } else {
            true
        }
    }

    /// Whether the table of allowances can take an entry of `owner` and
    /// `spender`.
    fn has_room_for_approval(&self, owner: AccountId, spender: AccountId) -> (room: bool)
        ensures
            room == self@.has_room_for_allowance(owner, spender),
    {
        proof {
            use_type_invariant(self);
        }
        let held: u32 = allowance_table_len(&self.allowances);
        allowance_entry(&self.allowances, owner, spender).is_some() || held < MAX_ENTRIES
    }
}

} // verus!
