//! A token ledger whose arithmetic wraps around.

use crate::collections::address_map::{order_with, Address, AddressMap};
use crate::vulnerabilities::refused;
use vstd::prelude::*;

verus! {

pub struct TokenAccount {
    pub balance: u64,
}

pub struct TokenProgram {
    pub accounts: AddressMap<TokenAccount>,
}

/// The balance of `account_id`, or 0 where there is no such account.
pub open spec fn balance_of(accounts: Map<Address, TokenAccount>, account_id: Address) -> u64 {
    if accounts.contains_key(account_id) {
        accounts[account_id].balance
    } else {
        0
    }
}

impl TokenProgram {
    pub fn new() -> (program: Self)
        ensures
            program.accounts@ == Map::<Address, TokenAccount>::empty(),
    {
        Self { accounts: AddressMap::new() }
    }

    /// Adds `amount` to the balance of `account_id`, opening the account
    /// where it is missing. The sum is not checked: past the largest
    /// balance it wraps around to a small one.
    pub fn add_tokens(&mut self, account_id: Address, amount: u64) -> (res: Result<
        (),
        &'static str,
    >)
        ensures
            final(self).accounts.order() == order_with(old(self).accounts.order(), account_id),
            res == Ok::<(), &'static str>(()),
            final(self).accounts@ == old(self).accounts@.insert(
                account_id,
                TokenAccount {
                    balance: balance_of(old(self).accounts@, account_id).wrapping_add(amount),
                },
            ),
    {
        if !self.accounts.contains_key(&account_id) {
            self.accounts.insert(account_id, TokenAccount { balance: 0 });
        }
        let account = self.accounts.get_mut(&account_id).unwrap();
        account.balance = account.balance.wrapping_add(amount);
        assert(self.accounts@ =~= old(self).accounts@.insert(
            account_id,
            TokenAccount { balance: balance_of(old(self).accounts@, account_id).wrapping_add(amount) },
        ));
        Ok(())
    }

    /// Takes `amount` and a fee of one hundredth of it off the balance of
    /// `account_id`. Only the amount is held against the balance: where the
    /// balance covers the amount but not the fee, the balance wraps around
    /// to a huge one.
    pub fn remove_tokens(&mut self, account_id: Address, amount: u64) -> (res: Result<
        (),
        &'static str,
    >)
        ensures
            final(self).accounts.order() == old(self).accounts.order(),
            !old(self).accounts@.contains_key(account_id) ==> refused(res, "Account not found")
                && final(self).accounts@ == old(self).accounts@,
            old(self).accounts@.contains_key(account_id) && old(self).accounts@[account_id].balance
                < amount
                    ==> refused(res, "Insufficient balance")
                        && final(self).accounts@ == old(self).accounts@,
            old(self).accounts@.contains_key(account_id) && old(self).accounts@[account_id].balance
                >= amount
                    ==> res == Ok::<(), &'static str>(())
                        && final(self).accounts@ == old(self).accounts@.insert(
                account_id,
                TokenAccount {
                    balance: old(self).accounts@[account_id].balance.wrapping_sub(
                        amount.wrapping_add(amount / 100),
                    ),
                },
            ),
    {
        let account = match self.accounts.get_mut(&account_id) {
            Some(account) => account,
            None => return Err("Account not found"),
        };
        if account.balance < amount {
            return Err("Insufficient balance");
        }
        let fee = amount / 100;
        account.balance = account.balance.wrapping_sub(amount.wrapping_add(fee));
        Ok(())
    }
}

} // verus!
