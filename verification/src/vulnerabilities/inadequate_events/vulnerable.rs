//! A treasury program that changes its admin and pays out without leaving
//! any record.

use crate::collections::address_map::{order_with, same_address, Address, AddressMap};
use crate::vulnerabilities::refused;
use vstd::prelude::*;

verus! {

/// What the treasury holds when the program is set up.
pub const INITIAL_TREASURY_BALANCE: u64 = 1000000;

/// Configuration for the program
pub struct Config {
    pub admin: Address,
}

/// A simplified program with inadequate event emissions
pub struct Program {
    pub config: Config,
    pub treasury_balance: u64,
    pub accounts: AddressMap<u64>,
}

/// What `who` holds: nothing where it has no account.
pub open spec fn held_by(accounts: Map<Address, u64>, who: Address) -> u64 {
    if accounts.contains_key(who) {
        accounts[who]
    } else {
        0
    }
}

impl Program {
    /// Create a new program
    pub fn new(admin: Address) -> (program: Self)
        ensures
            program.config.admin == admin,
            program.treasury_balance == INITIAL_TREASURY_BALANCE,
            program.accounts@ == Map::<Address, u64>::empty(),
    {
        Self {
            config: Config { admin },
            treasury_balance: INITIAL_TREASURY_BALANCE,
            accounts: AddressMap::new(),
        }
    }

    /// Hands the admin role to `new_admin` where `caller` is the admin.
    /// Nothing records the change.
    pub fn update_admin(&mut self, caller: Address, new_admin: Address) -> (res: Result<
        (),
        &'static str,
    >)
        ensures
            final(self).treasury_balance == old(self).treasury_balance,
            final(self).accounts == old(self).accounts,
            caller != old(self).config.admin
                ==> refused(res, "Unauthorized")
                    && final(self).config.admin == old(self).config.admin,
            caller == old(self).config.admin
                ==> res == Ok::<(), &'static str>(()) && final(self).config.admin == new_admin,
    {
        if !same_address(&caller, &self.config.admin) {
            return Err("Unauthorized");
        }
        self.config.admin = new_admin;
        Ok(())
    }

    /// Pays `amount` from the treasury to `recipient` where `caller` is the
    /// admin and the treasury holds enough. Nothing records the payment. The
    /// recipient's new balance has to fit in 64 bits.
    pub fn withdraw(&mut self, caller: Address, recipient: Address, amount: u64) -> (res: Result<
        (),
        &'static str,
    >)
        requires
            caller == old(self).config.admin && old(self).treasury_balance >= amount ==> held_by(
                old(self).accounts@,
                recipient,
            ) + amount <= u64::MAX,
        ensures
            res is Err ==> final(self).accounts.order() == old(self).accounts.order(),
            res is Ok
                ==> final(self).accounts.order()
                    == order_with(old(self).accounts.order(), recipient),
            final(self).config.admin == old(self).config.admin,
            caller != old(self).config.admin ==> refused(res, "Unauthorized"),
            caller == old(self).config.admin && old(self).treasury_balance < amount ==> refused(
                res,
                "Insufficient funds",
            ),
            res is Err
                ==> final(self).treasury_balance == old(self).treasury_balance
                    && final(self).accounts@ == old(self).accounts@,
            caller == old(self).config.admin && old(self).treasury_balance >= amount ==> {
                &&& res == Ok::<(), &'static str>(())
                &&& final(self).treasury_balance == old(self).treasury_balance - amount
                &&& final(self).accounts@ == old(self).accounts@.insert(
                    recipient,
                    (held_by(old(self).accounts@, recipient) + amount) as u64,
                )
            },
    {
        if !same_address(&caller, &self.config.admin) {
            return Err("Unauthorized");
        }
        if self.treasury_balance < amount {
            return Err("Insufficient funds");
        }
        self.treasury_balance -= amount;
        if !self.accounts.contains_key(&recipient) {
            self.accounts.insert(recipient, 0);
        }
        let held = self.accounts.get_mut(&recipient).unwrap();
        *held += amount;
        assert(self.accounts@ =~= old(self).accounts@.insert(
            recipient,
            (held_by(old(self).accounts@, recipient) + amount) as u64,
        ));
        Ok(())
    }
}

} // verus!
