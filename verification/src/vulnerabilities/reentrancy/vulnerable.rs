//! A vault that pays out before it updates its books.

use crate::collections::address_map::{Address, AddressMap};
use crate::vulnerabilities::refused;
use vstd::prelude::*;

verus! {

pub struct VaultAccount {
    pub owner: Address,
    pub balance: u64,
}

pub struct VaultProgram {
    pub accounts: AddressMap<VaultAccount>,
}

impl VaultProgram {
    pub fn new() -> (program: Self)
        ensures
            program.accounts@ == Map::<Address, VaultAccount>::empty(),
    {
        Self { accounts: AddressMap::new() }
    }

    /// Withdraws `amount` from the caller's account. The transfer is made
    /// before the balance is written down, and nothing guards against a
    /// second call that comes in between.
    pub fn withdraw(&mut self, caller: Address, recipient: Address, amount: u64) -> (res: Result<
        (),
        &'static str,
    >)
        ensures
            final(self).accounts.order() == old(self).accounts.order(),
            !old(self).accounts@.contains_key(caller) ==> refused(res, "Account not found")
                && final(self).accounts@ == old(self).accounts@,
            old(self).accounts@.contains_key(caller) && old(self).accounts@[caller].balance < amount
                ==> refused(res, "Insufficient balance")
                    && final(self).accounts@ == old(self).accounts@,
            old(self).accounts@.contains_key(caller) && old(self).accounts@[caller].balance
                >= amount
                    ==> res == Ok::<(), &'static str>(())
                        && final(self).accounts@ == old(self).accounts@.insert(
                caller,
                VaultAccount {
                    balance: (old(self).accounts@[caller].balance - amount) as u64,
                    ..old(self).accounts@[caller]
                },
            ),
    {
        let account = match self.accounts.get(&caller) {
            Some(account) => account,
            None => return Err("Account not found"),
        };
        if account.balance < amount {
            return Err("Insufficient balance");
        }
        self.transfer_tokens(caller, recipient, amount)?;
        let account = self.accounts.get_mut(&caller).unwrap();
        account.balance -= amount;
        Ok(())
    }

    /// Stands for the token transfer, which always succeeds here.
    fn transfer_tokens(&mut self, _from: Address, _to: Address, _amount: u64) -> (res: Result<
        (),
        &'static str,
    >)
        ensures
            res == Ok::<(), &'static str>(()),
            *final(self) == *old(self),
    {
        Ok(())
    }
}

} // verus!
