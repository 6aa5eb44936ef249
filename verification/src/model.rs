//! The ledger as a mathematical value, and what each operation makes of it.
//!
//! Every operation of the executable ledger states which of these values it
//! starts from and which one it ends in.

use vstd::prelude::*;
use crate::account::{AccountId, Balance};
use crate::balances::{balances_after_move, get_or_zero, sum_of};
use crate::events::Transfer;
use crate::tables::{AllowanceMap, BalanceMap, MAX_ENTRIES};

verus! {

/// The state of a ledger: the supply that was issued, what each account
/// holds, and what each owner allows each spender. An account or a pair
/// without an entry stands at zero.
#[verifier::ext_equal]
pub struct Ledger {
    pub total_supply: Balance,
    pub balances: BalanceMap,
    pub allowances: AllowanceMap,
}

impl Ledger {
    /// What `owner` holds.
    pub open spec fn balance_of(self, owner: AccountId) -> Balance {
        get_or_zero(self.balances, owner)
    }

    /// What `spender` may still move out of `owner`'s balance.
    pub open spec fn allowance(self, owner: AccountId, spender: AccountId) -> Balance {
        get_or_zero(self.allowances, (owner, spender))
    }

    /// The balances add up to the total supply.
    pub open spec fn conserves_supply(self) -> bool {
        &&& self.balances.dom().finite()
        &&& sum_of(self.balances) == self.total_supply
    }

    /// What every ledger is: a state whose balances add up to the total
    /// supply, with finitely many allowances.
    pub open spec fn well_formed(self) -> bool {
        &&& self.conserves_supply()
        &&& self.allowances.dom().finite()
    }

    /// The ledger that construction by `caller` with `initial_supply` makes:
    /// the whole supply with `caller`, no allowance.
    pub open spec fn opening(caller: AccountId, initial_supply: Balance) -> Ledger {
        Ledger {
            total_supply: initial_supply,
            balances: Map::empty().insert(caller, initial_supply),
            allowances: Map::empty(),
        }
    }

    /// Whether `from` holds at least `value`: the one condition on which a
    /// movement out of `from` takes place.
    pub open spec fn covers(self, from: AccountId, value: Balance) -> bool {
        self.balance_of(from) >= value
    }

    /// The ledger after `value` went from `from` to `to`.
    pub open spec fn moved(self, from: AccountId, to: AccountId, value: Balance) -> Ledger {
        Ledger { balances: balances_after_move(self.balances, from, to, value), ..self }
    }

    /// The ledger after `caller` asked to transfer `value` to `to`: the
    /// movement has taken place where `caller` holds that much, and nothing
    /// has changed where not.
    pub open spec fn transfer(self, caller: AccountId, to: AccountId, value: Balance) -> Ledger {
        if self.covers(caller, value) {
            self.moved(caller, to, value)
        } else {
            self
        }
    }

    /// What a transfer of `value` from `from` to `to` tells the host: the
    /// movement where it took place, nothing where it did not.
    pub open spec fn transfer_notice(self, from: AccountId, to: AccountId, value: Balance) -> Option<
        Transfer,
    > {
        if self.covers(from, value) {
            Some(Transfer { from: Some(from), to: Some(to), value })
        } else {
            None
        }
    }

    /// The ledger after `owner` set what `spender` may move to `value`.
    pub open spec fn approved(self, owner: AccountId, spender: AccountId, value: Balance) -> Ledger {
        Ledger { allowances: self.allowances.insert((owner, spender), value), ..self }
    }

    /// Whether `spender` can move `value` out of `from`'s balance: `from`
    /// allows `spender` that much and holds that much.
    pub open spec fn can_spend(self, spender: AccountId, from: AccountId, value: Balance) -> bool {
        &&& self.allowance(from, spender) >= value
        &&& self.covers(from, value)
    }

    /// The ledger after `spender` asked to transfer `value` from `from` to
    /// `to`: where that can be done, the movement has taken place and the
    /// allowance is `value` less; where not, nothing has changed.
    pub open spec fn transfer_from(
        self,
        spender: AccountId,
        from: AccountId,
        to: AccountId,
        value: Balance,
    ) -> Ledger {
        if self.can_spend(spender, from, value) {
            Ledger {
                total_supply: self.total_supply,
                balances: balances_after_move(self.balances, from, to, value),
                allowances: self.allowances.insert(
                    (from, spender),
                    (self.allowance(from, spender) - value) as Balance,
                ),
            }
        } else {
            self
        }
    }

    /// What a transfer of `value` from `from` to `to` by `spender` tells the
    /// host: the movement where it took place, nothing where it did not.
    pub open spec fn transfer_from_notice(
        self,
        spender: AccountId,
        from: AccountId,
        to: AccountId,
        value: Balance,
    ) -> Option<Transfer> {
        if self.can_spend(spender, from, value) {
            Some(Transfer { from: Some(from), to: Some(to), value })
        } else {
            None
        }
    }

    /// Whether the table of balances has room for entries of `from` and of
    /// `to`.
    pub open spec fn has_room_for_holders(self, from: AccountId, to: AccountId) -> bool {
        self.balances.dom().insert(from).insert(to).len() <= MAX_ENTRIES
    }

    /// Whether the table of allowances has room for an entry of `owner` and
    /// `spender`.
    pub open spec fn has_room_for_allowance(self, owner: AccountId, spender: AccountId) -> bool {
        self.allowances.dom().insert((owner, spender)).len() <= MAX_ENTRIES
    }

    /// Whether the tables can take what a transfer of `value` from `caller`
    /// to `to` writes: a transfer that takes place writes an entry for each
    /// of the two, one that does not writes nothing.
    pub open spec fn admits_transfer(self, caller: AccountId, to: AccountId, value: Balance) -> bool {
        self.covers(caller, value) ==> self.has_room_for_holders(caller, to)
    }

    /// Whether the tables can take what an approval of `spender` by `owner`
    /// writes: an entry for the pair.
    pub open spec fn admits_approval(self, owner: AccountId, spender: AccountId) -> bool {
        self.has_room_for_allowance(owner, spender)
    }

    /// Whether the tables can take what a transfer of `value` from `from` to
    /// `to` by `spender` writes: one that takes place writes an entry for
    /// each of the two accounts and one for the allowance, one that does not
    /// writes nothing.
    pub open spec fn admits_transfer_from(
        self,
        spender: AccountId,
        from: AccountId,
        to: AccountId,
        value: Balance,
    ) -> bool {
        self.can_spend(spender, from, value) ==> self.has_room_for_holders(from, to)
            && self.has_room_for_allowance(from, spender)
    }
}

/// One request to change a ledger, with the account that makes it.
pub enum Call {
    /// `caller` transfers `value` to `to`.
    Transfer { caller: AccountId, to: AccountId, value: Balance },
    /// `caller` allows `spender` to move up to `value`.
    Approve { caller: AccountId, spender: AccountId, value: Balance },
    /// `caller` transfers `value` from `from` to `to`, on `from`'s behalf.
    TransferFrom { caller: AccountId, from: AccountId, to: AccountId, value: Balance },
}

impl Call {
    /// Whether `account` takes any part in the request.
    pub open spec fn names(self, account: AccountId) -> bool {
        match self {
            Call::Transfer { caller, to, .. } => caller == account || to == account,
            Call::Approve { caller, spender, .. } => caller == account || spender == account,
            Call::TransferFrom { caller, from, to, .. } => caller == account || from == account || to
                == account,
        }
    }
}

impl Ledger {
    /// The ledger after one request.
    pub open spec fn after(self, call: Call) -> Ledger {
        match call {
            Call::Transfer { caller, to, value } => self.transfer(caller, to, value),
            Call::Approve { caller, spender, value } => self.approved(caller, spender, value),
            Call::TransferFrom { caller, from, to, value } => self.transfer_from(
                caller,
                from,
                to,
                value,
            ),
        }
    }

    /// The ledger after a run of requests, first to last.
    pub open spec fn after_all(self, calls: Seq<Call>) -> Ledger
        decreases calls.len(),
    {
        if calls.len() == 0 {
            self
        } else {
            self.after_all(calls.drop_last()).after(calls.last())
        }
    }
}

} // verus!
