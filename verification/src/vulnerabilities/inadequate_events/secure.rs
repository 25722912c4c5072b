//! A treasury program that records every change of admin and every payment.

use crate::collections::address_map::{order_with, same_address, Address, AddressMap};
use crate::vulnerabilities::refused;
use vstd::prelude::*;

verus! {

/// What the treasury holds when the program is set up.
pub const INITIAL_TREASURY_BALANCE: u64 = 1000000;

/// Event structure for admin changes
#[derive(Debug)]
pub struct AdminChangedEvent {
    pub previous_admin: Address,
    pub new_admin: Address,
    pub timestamp: u64,
}

/// Event structure for withdrawals
#[derive(Debug)]
pub struct WithdrawalEvent {
    pub initiator: Address,
    pub recipient: Address,
    pub amount: u64,
    pub timestamp: u64,
}

/// Configuration for the program
pub struct Config {
    pub admin: Address,
}

/// A program with proper event emissions
pub struct Program {
    pub config: Config,
    pub treasury_balance: u64,
    pub accounts: AddressMap<u64>,
    pub admin_events: Vec<AdminChangedEvent>,
    pub withdrawal_events: Vec<WithdrawalEvent>,
}

/// What `who` holds: nothing where it has no account.
pub open spec fn held_by(accounts: Map<Address, u64>, who: Address) -> u64 {
    if accounts.contains_key(who) {
        accounts[who]
    } else {
        0
    }
}

impl Program {
    /// Create a new program
    pub fn new(admin: Address) -> (program: Self)
        ensures
            program.config.admin == admin,
            program.treasury_balance == INITIAL_TREASURY_BALANCE,
            program.accounts@ == Map::<Address, u64>::empty(),
            program.admin_events@ == Seq::<AdminChangedEvent>::empty(),
            program.withdrawal_events@ == Seq::<WithdrawalEvent>::empty(),
    {
        Self {
            config: Config { admin },
            treasury_balance: INITIAL_TREASURY_BALANCE,
            accounts: AddressMap::new(),
            admin_events: Vec::new(),
            withdrawal_events: Vec::new(),
        }
    }

    /// Hands the admin role to `new_admin` where `caller` is the admin, and
    /// records the change with the old admin, the new one and the time.
    pub fn update_admin(&mut self, caller: Address, new_admin: Address, timestamp: u64) -> (res:
        Result<(), &'static str>)
        ensures
            final(self).treasury_balance == old(self).treasury_balance,
            final(self).accounts == old(self).accounts,
            final(self).withdrawal_events@ == old(self).withdrawal_events@,
            caller != old(self).config.admin
                ==> refused(res, "Unauthorized")
                    && final(self).config.admin == old(self).config.admin
                        && final(self).admin_events@ == old(self).admin_events@,
            caller == old(self).config.admin
                ==> res == Ok::<(), &'static str>(()) && final(self).config.admin == new_admin
                    && final(self).admin_events@ == old(self).admin_events@.push(
                AdminChangedEvent { previous_admin: old(self).config.admin, new_admin, timestamp },
            ),
    {
        if !same_address(&caller, &self.config.admin) {
            return Err("Unauthorized");
        }
        let previous_admin = self.config.admin;
        self.config.admin = new_admin;
        self.admin_events.push(AdminChangedEvent { previous_admin, new_admin, timestamp });
        Ok(())
    }

    /// Pays `amount` from the treasury to `recipient` where `caller` is the
    /// admin and the treasury holds enough, and records the payment. The
    /// recipient's new balance has to fit in 64 bits.
    pub fn withdraw(
        &mut self,
        caller: Address,
        recipient: Address,
        amount: u64,
        timestamp: u64,
    ) -> (res: Result<(), &'static str>)
        requires
            caller == old(self).config.admin && old(self).treasury_balance >= amount ==> held_by(
                old(self).accounts@,
                recipient,
            ) + amount <= u64::MAX,
        ensures
            res is Err ==> final(self).accounts.order() == old(self).accounts.order(),
            res is Ok
                ==> final(self).accounts.order()
                    == order_with(old(self).accounts.order(), recipient),
            final(self).config.admin == old(self).config.admin,
            final(self).admin_events@ == old(self).admin_events@,
            caller != old(self).config.admin ==> refused(res, "Unauthorized"),
            caller == old(self).config.admin && old(self).treasury_balance < amount ==> refused(
                res,
                "Insufficient funds",
            ),
            res is Err
                ==> final(self).treasury_balance == old(self).treasury_balance
                    && final(self).accounts@ == old(self).accounts@
                        && final(self).withdrawal_events@ == old(self).withdrawal_events@,
            caller == old(self).config.admin && old(self).treasury_balance >= amount ==> {
                &&& res == Ok::<(), &'static str>(())
                &&& final(self).treasury_balance == old(self).treasury_balance - amount
                &&& final(self).accounts@ == old(self).accounts@.insert(
                    recipient,
                    (held_by(old(self).accounts@, recipient) + amount) as u64,
                )
                &&& final(self).withdrawal_events@ == old(self).withdrawal_events@.push(
                    WithdrawalEvent { initiator: caller, recipient, amount, timestamp },
                )
            },
    {
        if !same_address(&caller, &self.config.admin) {
            return Err("Unauthorized");
        }
        if self.treasury_balance < amount {
            return Err("Insufficient funds");
        }
        self.treasury_balance -= amount;
        if !self.accounts.contains_key(&recipient) {
            self.accounts.insert(recipient, 0);
        }
        let held = self.accounts.get_mut(&recipient).unwrap();
        *held += amount;
        assert(self.accounts@ =~= old(self).accounts@.insert(
            recipient,
            (held_by(old(self).accounts@, recipient) + amount) as u64,
        ));
        self.withdrawal_events.push(
            WithdrawalEvent { initiator: caller, recipient, amount, timestamp },
        );
        Ok(())
    }
}

} // verus!
