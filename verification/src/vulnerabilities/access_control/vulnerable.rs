//! A protocol that takes the caller's word for who is calling.

use crate::collections::address_map::{same_address, Address, AddressMap};
use crate::vulnerabilities::refused;
use vstd::prelude::*;

verus! {

/// The fee that a new protocol starts with, in hundredths of a percent.
pub const INITIAL_FEE: u64 = 10;

/// The highest fee that can be set, in hundredths of a percent.
pub const MAX_FEE: u64 = 10000;

#[derive(Debug, Clone)]
pub struct Protocol {
    pub admin: Address,
    pub fee_percentage: u64,
    pub accounts: AddressMap<UserAccount>,
}

#[derive(Debug, Clone)]
pub struct UserAccount {
    pub owner: Address,
    pub balance: u64,
    pub settings: UserSettings,
}

#[derive(Debug, Clone)]
pub struct UserSettings {
    pub auto_compound: bool,
    pub withdraw_limit: u64,
}

impl Protocol {
    pub fn new(admin: Address) -> (protocol: Self)
        ensures
            protocol.admin == admin,
            protocol.fee_percentage == INITIAL_FEE,
            protocol.accounts@ == Map::<Address, UserAccount>::empty(),
    {
        Self { admin, fee_percentage: INITIAL_FEE, accounts: AddressMap::new() }
    }

    /// Sets the fee. Nobody is asked who is calling: anyone can change it.
    pub fn set_fee_percentage(&mut self, new_fee: u64) -> (res: Result<(), &'static str>)
        ensures
            final(self).admin == old(self).admin,
            final(self).accounts == old(self).accounts,
            new_fee > MAX_FEE
                ==> refused(res, "Fee percentage too high")
                    && final(self).fee_percentage == old(self).fee_percentage,
            new_fee <= MAX_FEE ==> res == Ok::<(), &'static str>(()) && final(self).fee_percentage
                == new_fee,
    {
        if new_fee > MAX_FEE {
            return Err("Fee percentage too high");
        }
        self.fee_percentage = new_fee;
        Ok(())
    }

    /// Replaces the settings of an account where `caller` is the owner on
    /// record. That the caller really is who it says is not checked.
    pub fn update_user_settings(
        &mut self,
        account_id: Address,
        caller: Address,
        new_settings: UserSettings,
    ) -> (res: Result<(), &'static str>)
        ensures
            final(self).accounts.order() == old(self).accounts.order(),
            final(self).admin == old(self).admin,
            final(self).fee_percentage == old(self).fee_percentage,
            !old(self).accounts@.contains_key(account_id) ==> refused(res, "Account not found"),
            old(self).accounts@.contains_key(account_id) && old(self).accounts@[account_id].owner
                != caller ==> refused(res, "Not the account owner"),
            res is Err ==> final(self).accounts@ == old(self).accounts@,
            old(self).accounts@.contains_key(account_id) && old(self).accounts@[account_id].owner
                == caller
                    ==> res == Ok::<(), &'static str>(())
                        && final(self).accounts@ == old(self).accounts@.insert(
                account_id,
                UserAccount { settings: new_settings, ..old(self).accounts@[account_id] },
            ),
    {
        let account = match self.accounts.get_mut(&account_id) {
            Some(account) => account,
            None => return Err("Account not found"),
        };
        if !same_address(&account.owner, &caller) {
            return Err("Not the account owner");
        }
        account.settings = new_settings;
        Ok(())
    }

    /// Hands an account to `new_owner` where `provided_owner` is the owner
    /// on record. Neither the caller nor the new owner is checked.
    pub fn transfer_account_ownership(
        &mut self,
        account_id: Address,
        provided_owner: Address,
        new_owner: Address,
    ) -> (res: Result<(), &'static str>)
        ensures
            final(self).accounts.order() == old(self).accounts.order(),
            final(self).admin == old(self).admin,
            final(self).fee_percentage == old(self).fee_percentage,
            !old(self).accounts@.contains_key(account_id) ==> refused(res, "Account not found"),
            old(self).accounts@.contains_key(account_id) && old(self).accounts@[account_id].owner
                != provided_owner ==> refused(res, "Not the account owner"),
            res is Err ==> final(self).accounts@ == old(self).accounts@,
            old(self).accounts@.contains_key(account_id) && old(self).accounts@[account_id].owner
                == provided_owner ==> res == Ok::<(), &'static str>(()) && final(self).accounts@
                == old(self).accounts@.insert(
                account_id,
                UserAccount { owner: new_owner, ..old(self).accounts@[account_id] },
            ),
    {
        let account = match self.accounts.get_mut(&account_id) {
            Some(account) => account,
            None => return Err("Account not found"),
        };
        if !same_address(&account.owner, &provided_owner) {
            return Err("Not the account owner");
        }
        account.owner = new_owner;
        Ok(())
    }
}

} // verus!
