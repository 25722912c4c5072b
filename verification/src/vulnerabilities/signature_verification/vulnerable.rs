//! A wallet whose transfer signature covers the amount and nothing else.

use crate::collections::address_map::{order_with, Address, AddressMap};
use crate::vulnerabilities::refused;
use vstd::bytes::{spec_u64_to_le_bytes, u64_to_le_bytes};
use vstd::prelude::*;

verus! {

/// A simplified wallet program with vulnerable signature verification
pub struct WalletProgram {
    pub accounts: AddressMap<WalletAccount>,
}

/// Wallet account structure
pub struct WalletAccount {
    pub owner: Address,
    pub balance: u64,
}

/// `accounts` with an empty account for `who`, owned by `who`, where there
/// was none.
pub open spec fn with_account(accounts: Map<Address, WalletAccount>, who: Address) -> Map<
    Address,
    WalletAccount,
> {
    if accounts.contains_key(who) {
        accounts
    } else {
        accounts.insert(who, WalletAccount { owner: who, balance: 0 })
    }
}

/// `accounts` with `amount` taken from the balance of `who`.
pub open spec fn debited(accounts: Map<Address, WalletAccount>, who: Address, amount: u64) -> Map<
    Address,
    WalletAccount,
> {
    accounts.insert(
        who,
        WalletAccount { balance: (accounts[who].balance - amount) as u64, ..accounts[who] },
    )
}

/// `accounts` with `amount` added to the balance of `who`.
pub open spec fn credited(accounts: Map<Address, WalletAccount>, who: Address, amount: u64) -> Map<
    Address,
    WalletAccount,
> {
    accounts.insert(
        who,
        WalletAccount { balance: (accounts[who].balance + amount) as u64, ..accounts[who] },
    )
}

/// `accounts` after `amount` went from `from` to `to`, whose account is
/// opened where it was missing.
pub open spec fn transferred(
    accounts: Map<Address, WalletAccount>,
    from: Address,
    to: Address,
    amount: u64,
) -> Map<Address, WalletAccount> {
    credited(with_account(debited(accounts, from, amount), to), to, amount)
}

/// Whether `from` exists and holds at least `amount`.
pub open spec fn can_pay(accounts: Map<Address, WalletAccount>, from: Address, amount: u64) -> bool {
    accounts.contains_key(from) && accounts[from].balance >= amount
}

/// The message that the sender signs: the amount alone, in eight bytes,
/// least significant first. The recipient is not part of it.
pub open spec fn signed_text(amount: u64) -> Seq<u8> {
    spec_u64_to_le_bytes(amount)
}

/// Writes out the message that the sender signs.
pub fn signed_message(amount: u64) -> (message: Vec<u8>)
    ensures
        message@ == signed_text(amount),
{
    u64_to_le_bytes(amount)
}

impl WalletProgram {
    /// Create a new wallet program
    pub fn new() -> (program: Self)
        ensures
            program.accounts@ == Map::<Address, WalletAccount>::empty(),
    {
        Self { accounts: AddressMap::new() }
    }

    /// Moves `amount` from `from` to `to`. The signature is held against a
    /// message that names the amount only, so one signature serves for any
    /// recipient. The recipient's new balance has to fit in 64 bits.
    pub fn transfer(&mut self, from: Address, to: Address, amount: u64, signature: [u8; 64]) -> (res:
        Result<(), &'static str>)
        requires
            can_pay(old(self).accounts@, from, amount) ==> with_account(
                debited(old(self).accounts@, from, amount),
                to,
            )[to].balance + amount <= u64::MAX,
        ensures
            res is Err ==> final(self).accounts.order() == old(self).accounts.order(),
            res is Ok
                ==> final(self).accounts.order() == order_with(old(self).accounts.order(), to),
            !old(self).accounts@.contains_key(from)
                ==> refused(res, "Account not found")
                    && final(self).accounts@ == old(self).accounts@,
            old(self).accounts@.contains_key(from) && old(self).accounts@[from].balance < amount
                ==> refused(res, "Insufficient funds")
                    && final(self).accounts@ == old(self).accounts@,
            can_pay(old(self).accounts@, from, amount) ==> res == Ok::<(), &'static str>(())
                && final(self).accounts@ == transferred(old(self).accounts@, from, to, amount),
    {
        let from_account = match self.accounts.get(&from) {
            Some(account) => account,
            None => return Err("Account not found"),
        };
        if from_account.balance < amount {
            return Err("Insufficient funds");
        }
        let message = signed_message(amount);
        if !self.verify_signature(&from, message.as_slice(), &signature) {
            return Err("Invalid signature");
        }
        let from_account = self.accounts.get_mut(&from).unwrap();
        from_account.balance -= amount;
        if !self.accounts.contains_key(&to) {
            self.accounts.insert(to, WalletAccount { owner: to, balance: 0 });
        }
        let to_account = self.accounts.get_mut(&to).unwrap();
        to_account.balance += amount;
        Ok(())
    }

    /// Stands for the signature check, which accepts every signature here.
    fn verify_signature(&self, _pubkey: &Address, _message: &[u8], _signature: &[u8; 64]) -> (valid:
        bool)
        ensures
            valid,
    {
        true
    }
}

} // verus!
