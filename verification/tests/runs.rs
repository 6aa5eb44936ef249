use std::collections::HashMap;

use erc20::{AccountId, Approval, Erc20, Transfer};

/// A plain record of what a ledger ought to hold, kept beside the ledger.
struct Books {
    balances: HashMap<AccountId, u128>,
    allowances: HashMap<(AccountId, AccountId), u128>,
}

impl Books {
    fn balance(&self, owner: AccountId) -> u128 {
        self.balances.get(&owner).copied().unwrap_or(0)
    }

    fn allowance(&self, owner: AccountId, spender: AccountId) -> u128 {
        self.allowances.get(&(owner, spender)).copied().unwrap_or(0)
    }

    fn transfer(&mut self, from: AccountId, to: AccountId, value: u128) -> bool {
        if self.balance(from) < value {
            return false;
        }
        *self.balances.entry(from).or_insert(0) -= value;
        *self.balances.entry(to).or_insert(0) += value;
        true
    }
}

fn account(tag: u8) -> AccountId {
    let mut bytes = [0xa5u8; 32];
    bytes[17] = tag;
    AccountId::from(bytes)
}

fn next(state: &mut u64) -> u64 {
    *state = state
        .wrapping_mul(6364136223846793005)
        .wrapping_add(1442695040888963407);
    *state >> 33
}

fn run(seed: u64, supply: u128, accounts: u8, steps: usize) {
    let everyone: Vec<AccountId> = (0..accounts).map(account).collect();
    let pick = |state: &mut u64| everyone[(next(state) % u64::from(accounts)) as usize];

    let (mut ledger, issued) = Erc20::new(everyone[0], supply);
    assert_eq!(
        issued,
        Transfer {
            from: None,
            to: Some(everyone[0]),
            value: supply
        }
    );
    let mut books = Books {
        balances: HashMap::new(),
        allowances: HashMap::new(),
    };
    books.balances.insert(everyone[0], supply);

    let mut state = seed;
    for _ in 0..steps {
        let caller = pick(&mut state);
        let other = pick(&mut state);
        let third = pick(&mut state);
        let value = u128::from(next(&mut state)) % (supply / 2 + 2);
        match next(&mut state) % 3 {
            0 => {
                let expected = books.transfer(caller, other, value);
                let (moved, told) = ledger.transfer(caller, other, value);
                assert_eq!(moved, expected);
                assert_eq!(
                    told,
                    expected.then_some(Transfer {
                        from: Some(caller),
                        to: Some(other),
                        value
                    })
                );
            }
            1 => {
                books.allowances.insert((caller, other), value);
                let (approved, told) = ledger.approve(caller, other, value);
                assert!(approved);
                assert_eq!(
                    told,
                    Approval {
                        owner: caller,
                        spender: other,
                        value
                    }
                );
            }
            _ => {
                let allowed = books.allowance(other, caller);
                let expected = allowed >= value && books.transfer(other, third, value);
                if expected {
                    books.allowances.insert((other, caller), allowed - value);
                }
                let (moved, told) = ledger.transfer_from(caller, other, third, value);
                assert_eq!(moved, expected);
                assert_eq!(
                    told,
                    expected.then_some(Transfer {
                        from: Some(other),
                        to: Some(third),
                        value
                    })
                );
            }
        }

        let mut held: u128 = 0;
        for owner in &everyone {
            assert_eq!(ledger.balance_of(*owner), books.balance(*owner));
            held += ledger.balance_of(*owner);
            for spender in &everyone {
                assert_eq!(
                    ledger.allowance(*owner, *spender),
                    books.allowance(*owner, *spender)
                );
            }
        }
        assert_eq!(held, supply);
        assert_eq!(ledger.total_supply(), supply);
    }
}

#[test]
fn a_long_run_among_a_few_accounts_agrees_with_plain_books() {
    run(1, 1_000, 3, 3_000);
}

#[test]
fn a_long_run_among_many_accounts_agrees_with_plain_books() {
    run(0x5eed, 1_000_000, 12, 2_000);
}

#[test]
fn a_long_run_over_the_largest_supply_agrees_with_plain_books() {
    run(42, u128::MAX, 5, 2_000);
}

#[test]
fn a_long_run_over_an_empty_supply_agrees_with_plain_books() {
    run(7, 0, 4, 500);
}
