//! A vault that updates its books first and holds a lock while it pays out.

use crate::collections::address_map::{Address, AddressMap};
use crate::vulnerabilities::refused;
use vstd::prelude::*;

verus! {

pub struct VaultAccount {
    pub owner: Address,
    pub balance: u64,
}

pub struct VaultProgram {
    pub accounts: AddressMap<VaultAccount>,
    pub reentrancy_lock: bool,
}

impl VaultProgram {
    pub fn new() -> (program: Self)
        ensures
            program.accounts@ == Map::<Address, VaultAccount>::empty(),
            !program.reentrancy_lock,
    {
        Self { accounts: AddressMap::new(), reentrancy_lock: false }
    }

    /// Withdraws `amount` from the caller's account. A call that arrives
    /// while the lock is held is refused and changes nothing. Every other
    /// call leaves the lock free, and takes the amount off the balance
    /// before the transfer is made.
    pub fn withdraw(&mut self, caller: Address, recipient: Address, amount: u64) -> (res: Result<
        (),
        &'static str,
    >)
        ensures
            final(self).accounts.order() == old(self).accounts.order(),
            old(self).reentrancy_lock ==> refused(res, "Reentrant call detected") && *final(self)
                == *old(self),
            !old(self).reentrancy_lock ==> !final(self).reentrancy_lock,
            !old(self).reentrancy_lock && !old(self).accounts@.contains_key(caller) ==> refused(
                res,
                "Account not found",
            ) && final(self).accounts@ == old(self).accounts@,
            !old(self).reentrancy_lock && old(self).accounts@.contains_key(caller)
                && old(self).accounts@[caller].balance < amount
                    ==> refused(res, "Insufficient balance")
                        && final(self).accounts@ == old(self).accounts@,
            !old(self).reentrancy_lock && old(self).accounts@.contains_key(caller)
                && old(self).accounts@[caller].balance >= amount
                    ==> res == Ok::<(), &'static str>(())
                        && final(self).accounts@ == old(self).accounts@.insert(
                caller,
                VaultAccount {
                    balance: (old(self).accounts@[caller].balance - amount) as u64,
                    ..old(self).accounts@[caller]
                },
            ),
    {
        if self.reentrancy_lock {
            return Err("Reentrant call detected");
        }
        self.reentrancy_lock = true;
        let account = match self.accounts.get(&caller) {
            Some(account) => account,
            None => {
                self.reentrancy_lock = false;
                return Err("Account not found");
            },
        };
        if account.balance < amount {
            self.reentrancy_lock = false;
            return Err("Insufficient balance");
        }
        let account = self.accounts.get_mut(&caller).unwrap();
        account.balance -= amount;
        let result = self.transfer_tokens(caller, recipient, amount);
        self.reentrancy_lock = false;
        result
    }

    /// Stands for the token transfer, which always succeeds here.
    fn transfer_tokens(&mut self, _from: Address, _to: Address, _amount: u64) -> (res: Result<
        (),
        &'static str,
    >)
        ensures
            res == Ok::<(), &'static str>(()),
            *final(self) == *old(self),
    {
        Ok(())
    }
}

} // verus!
