//! A protocol that checks who is calling, and hands the admin role over in
//! two steps with a waiting time between them.

use crate::collections::address_map::{contains_address, same_address, Address, AddressMap};
use crate::vulnerabilities::refused;
use vstd::prelude::*;

verus! {

/// The fee that a new protocol starts with, in hundredths of a percent.
pub const INITIAL_FEE: u64 = 10;

/// The highest fee that can be set, in hundredths of a percent.
pub const MAX_FEE: u64 = 10000;

/// The highest withdraw limit that a user can choose.
pub const MAX_WITHDRAW_LIMIT: u64 = 1_000_000_000;

/// Seconds between the start and the completion of an admin transfer.
pub const ADMIN_TIMELOCK: u64 = 86400;

#[derive(Debug, Clone)]
pub struct Protocol {
    pub admin: Address,
    pub pending_admin: Option<Address>,
    pub admin_change_time: Option<u64>,
    pub fee_percentage: u64,
    pub accounts: AddressMap<UserAccount>,
    pub current_time: u64,
}

#[derive(Debug, Clone)]
pub struct UserAccount {
    pub owner: Address,
    pub balance: u64,
    pub settings: UserSettings,
    pub authorized_signers: Vec<Address>,
}

#[derive(Debug, Clone)]
pub struct UserSettings {
    pub auto_compound: bool,
    pub withdraw_limit: u64,
}

#[derive(Debug, Clone)]
pub struct Transaction {
    pub caller: Address,
    pub signature: [u8; 64],
    /// Whether the signature was found good.
    pub valid: bool,
}

impl Protocol {
    /// Whether `caller` may change the settings of `account_id`: it owns
    /// the account or is one of its authorized signers.
    pub open spec fn may_update(&self, account_id: Address, caller: Address) -> bool {
        &&& self.accounts@.contains_key(account_id)
        &&& (self.accounts@[account_id].owner == caller
            || self.accounts@[account_id].authorized_signers@.contains(caller))
    }

    /// Whether `caller` is the pending admin of a transfer in progress.
    pub open spec fn is_pending_admin(&self, caller: Address) -> bool {
        self.pending_admin == Some(caller)
    }

    /// Whether the waiting time of the transfer in progress is over.
    pub open spec fn timelock_expired(&self) -> bool {
        self.admin_change_time matches Some(at) && self.current_time >= at
    }

    pub fn new(admin: Address) -> (protocol: Self)
        ensures
            protocol.admin == admin,
            protocol.pending_admin is None,
            protocol.admin_change_time is None,
            protocol.fee_percentage == INITIAL_FEE,
            protocol.accounts@ == Map::<Address, UserAccount>::empty(),
            protocol.current_time == 0,
    {
        Self {
            admin,
            pending_admin: None,
            admin_change_time: None,
            fee_percentage: INITIAL_FEE,
            accounts: AddressMap::new(),
            current_time: 0,
        }
    }

    /// Sets the fee where the transaction is valid and comes from the
    /// admin.
    pub fn set_fee_percentage(&mut self, tx: &Transaction, new_fee: u64) -> (res: Result<
        (),
        &'static str,
    >)
        ensures
            !tx.valid ==> refused(res, "Invalid transaction"),
            tx.valid && tx.caller != old(self).admin ==> refused(
                res,
                "Only admin can change fee percentage",
            ),
            tx.valid && tx.caller == old(self).admin && new_fee > MAX_FEE ==> refused(
                res,
                "Fee percentage too high",
            ),
            res is Err ==> *final(self) == *old(self),
            tx.valid && tx.caller == old(self).admin && new_fee <= MAX_FEE ==> res == Ok::<
                (),
                &'static str,
            >(()) && *final(self) == (Protocol { fee_percentage: new_fee, ..*old(self) }),
    {
        if !tx.valid {
            return Err("Invalid transaction");
        }
        if !same_address(&tx.caller, &self.admin) {
            return Err("Only admin can change fee percentage");
        }
        if new_fee > MAX_FEE {
            return Err("Fee percentage too high");
        }
        self.fee_percentage = new_fee;
        Ok(())
    }

    /// Replaces the settings of an account where the transaction is valid,
    /// comes from the owner or an authorized signer, and the new withdraw
    /// limit is within bounds.
    pub fn update_user_settings(
        &mut self,
        tx: &Transaction,
        account_id: Address,
        new_settings: UserSettings,
    ) -> (res: Result<(), &'static str>)
        ensures
            final(self).accounts.order() == old(self).accounts.order(),
            final(self).admin == old(self).admin,
            final(self).pending_admin == old(self).pending_admin,
            final(self).admin_change_time == old(self).admin_change_time,
            final(self).fee_percentage == old(self).fee_percentage,
            final(self).current_time == old(self).current_time,
            !tx.valid ==> refused(res, "Invalid transaction"),
            tx.valid && !old(self).accounts@.contains_key(account_id) ==> refused(
                res,
                "Account not found",
            ),
            tx.valid && old(self).accounts@.contains_key(account_id) && !old(self).may_update(
                account_id,
                tx.caller,
            ) ==> refused(res, "Not authorized to update settings"),
            tx.valid && old(self).may_update(account_id, tx.caller) && new_settings.withdraw_limit
                > MAX_WITHDRAW_LIMIT ==> refused(res, "Withdraw limit too high"),
            res is Err ==> final(self).accounts@ == old(self).accounts@,
            tx.valid && old(self).may_update(account_id, tx.caller) && new_settings.withdraw_limit
                <= MAX_WITHDRAW_LIMIT
                    ==> res == Ok::<(), &'static str>(())
                        && final(self).accounts@ == old(self).accounts@.insert(
                account_id,
                UserAccount { settings: new_settings, ..old(self).accounts@[account_id] },
            ),
    {
        if !tx.valid {
            return Err("Invalid transaction");
        }
        let account = match self.accounts.get_mut(&account_id) {
            Some(account) => account,
            None => return Err("Account not found"),
        };
        let is_owner = same_address(&account.owner, &tx.caller);
        let is_authorized = contains_address(&account.authorized_signers, &tx.caller);
        if !is_owner && !is_authorized {
            return Err("Not authorized to update settings");
        }
        if new_settings.withdraw_limit > MAX_WITHDRAW_LIMIT {
            return Err("Withdraw limit too high");
        }
        account.settings = new_settings;
        Ok(())
    }

    /// First step of an admin transfer: the admin names the new admin, who
    /// can take over once the waiting time is over. The end of the waiting
    /// time has to fit in 64 bits.
    pub fn initiate_admin_transfer(&mut self, tx: &Transaction, new_admin: Address) -> (res: Result<
        (),
        &'static str,
    >)
        requires
            tx.valid && tx.caller == old(self).admin ==> old(self).current_time + ADMIN_TIMELOCK
                <= u64::MAX,
        ensures
            !tx.valid ==> refused(res, "Invalid transaction"),
            tx.valid && tx.caller != old(self).admin ==> refused(
                res,
                "Only current admin can initiate transfer",
            ),
            res is Err ==> *final(self) == *old(self),
            tx.valid && tx.caller == old(self).admin ==> res == Ok::<(), &'static str>(())
                && *final(self) == (Protocol {
                pending_admin: Some(new_admin),
                admin_change_time: Some((old(self).current_time + ADMIN_TIMELOCK) as u64),
                ..*old(self)
            }),
    {
        if !tx.valid {
            return Err("Invalid transaction");
        }
        if !same_address(&tx.caller, &self.admin) {
            return Err("Only current admin can initiate transfer");
        }
        self.pending_admin = Some(new_admin);
        self.admin_change_time = Some(self.current_time + ADMIN_TIMELOCK);
        Ok(())
    }

    /// Second step of an admin transfer: the pending admin takes over once
    /// the waiting time is over.
    pub fn complete_admin_transfer(&mut self, tx: &Transaction) -> (res: Result<(), &'static str>)
        ensures
            !tx.valid ==> refused(res, "Invalid transaction"),
            tx.valid && !old(self).is_pending_admin(tx.caller) ==> refused(
                res,
                "Not the pending admin or no admin transfer in progress",
            ),
            tx.valid && old(self).is_pending_admin(tx.caller) && !old(self).timelock_expired()
                ==> refused(res, "Timelock has not expired yet"),
            res is Err ==> *final(self) == *old(self),
            tx.valid && old(self).is_pending_admin(tx.caller) && old(self).timelock_expired()
                ==> res == Ok::<(), &'static str>(()) && *final(self) == (Protocol {
                admin: tx.caller,
                pending_admin: None,
                admin_change_time: None,
                ..*old(self)
            }),
    {
        if !tx.valid {
            return Err("Invalid transaction");
        }
        let pending_admin = match self.pending_admin {
            Some(pending_admin) => pending_admin,
            None => return Err("Not the pending admin or no admin transfer in progress"),
        };
        if !same_address(&pending_admin, &tx.caller) {
            return Err("Not the pending admin or no admin transfer in progress");
        }
        let change_time = match self.admin_change_time {
            Some(change_time) => change_time,
            None => return Err("Timelock has not expired yet"),
        };
        if self.current_time < change_time {
            return Err("Timelock has not expired yet");
        }
        self.admin = pending_admin;
        self.pending_admin = None;
        self.admin_change_time = None;
        Ok(())
    }

    /// Moves the clock forward. The new time has to fit in 64 bits.
    pub fn advance_time(&mut self, seconds: u64)
        requires
            old(self).current_time + seconds <= u64::MAX,
        ensures
            *final(self) == (Protocol {
                current_time: (old(self).current_time + seconds) as u64,
                ..*old(self)
            }),
    {
        self.current_time += seconds;
    }
}

} // verus!
