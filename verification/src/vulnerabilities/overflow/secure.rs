//! A token ledger that checks its arithmetic.

use crate::collections::address_map::{order_with, Address, AddressMap};
use crate::vulnerabilities::refused;
use vstd::prelude::*;

verus! {

pub struct TokenAccount {
    pub balance: u64,
}

pub struct TokenProgram {
    pub accounts: AddressMap<TokenAccount>,
}

/// The balance of `account_id`, or 0 where there is no such account.
pub open spec fn balance_of(accounts: Map<Address, TokenAccount>, account_id: Address) -> u64 {
    if accounts.contains_key(account_id) {
        accounts[account_id].balance
    } else {
        0
    }
}

impl TokenProgram {
    pub fn new() -> (program: Self)
        ensures
            program.accounts@ == Map::<Address, TokenAccount>::empty(),
    {
        Self { accounts: AddressMap::new() }
    }

    /// Adds `amount` to the balance of `account_id`, opening the account
    /// with a balance of 0 where it is missing. A sum past the largest
    /// balance is refused and the balance stays as it was.
    pub fn add_tokens(&mut self, account_id: Address, amount: u64) -> (res: Result<
        (),
        &'static str,
    >)
        ensures
            final(self).accounts.order() == order_with(old(self).accounts.order(), account_id),
            balance_of(old(self).accounts@, account_id) + amount > u64::MAX ==> refused(
                res,
                "Arithmetic overflow detected",
            ) && final(self).accounts@ == old(self).accounts@,
            balance_of(old(self).accounts@, account_id) + amount <= u64::MAX ==> res == Ok::<
                (),
                &'static str,
            >(()) && final(self).accounts@ == old(self).accounts@.insert(
                account_id,
                TokenAccount {
                    balance: (balance_of(old(self).accounts@, account_id) + amount) as u64,
                },
            ),
    {
        if !self.accounts.contains_key(&account_id) {
            self.accounts.insert(account_id, TokenAccount { balance: 0 });
        }
        let account = self.accounts.get_mut(&account_id).unwrap();
        account.balance = match account.balance.checked_add(amount) {
            Some(new_balance) => new_balance,
            None => {
                assert(self.accounts@ =~= old(self).accounts@);
                return Err("Arithmetic overflow detected");
            },
        };
        assert(self.accounts@ =~= old(self).accounts@.insert(
            account_id,
            TokenAccount { balance: (balance_of(old(self).accounts@, account_id) + amount) as u64 },
        ));
        Ok(())
    }

    /// Takes `amount` and a fee of one hundredth of it off the balance of
    /// `account_id`, where the balance covers both.
    pub fn remove_tokens(&mut self, account_id: Address, amount: u64) -> (res: Result<
        (),
        &'static str,
    >)
        ensures
            final(self).accounts.order() == old(self).accounts.order(),
            !old(self).accounts@.contains_key(account_id) ==> refused(res, "Account not found")
                && final(self).accounts@ == old(self).accounts@,
            old(self).accounts@.contains_key(account_id) && amount + amount / 100 > u64::MAX
                ==> refused(res, "Arithmetic overflow detected in fee calculation")
                    && final(self).accounts@ == old(self).accounts@,
            old(self).accounts@.contains_key(account_id) && amount + amount / 100 <= u64::MAX
                && old(self).accounts@[account_id].balance < amount + amount / 100 ==> refused(
                res,
                "Insufficient balance including fees",
            ) && final(self).accounts@ == old(self).accounts@,
            old(self).accounts@.contains_key(account_id) && old(self).accounts@[account_id].balance
                >= amount + amount / 100
                    ==> res == Ok::<(), &'static str>(())
                        && final(self).accounts@ == old(self).accounts@.insert(
                account_id,
                TokenAccount {
                    balance: (old(self).accounts@[account_id].balance - amount - amount / 100) as u64,
                },
            ),
    {
        let account = match self.accounts.get_mut(&account_id) {
            Some(account) => account,
            None => return Err("Account not found"),
        };
        let fee = amount / 100;
        let total_deduction = match amount.checked_add(fee) {
            Some(total) => total,
            None => return Err("Arithmetic overflow detected in fee calculation"),
        };
        if account.balance < total_deduction {
            return Err("Insufficient balance including fees");
        }
        account.balance -= total_deduction;
        Ok(())
    }
}

} // verus!
