//! A wallet whose transfer signature covers sender, recipient, amount and a
//! nonce that may be used once.

use crate::collections::address_map::{order_with, Address, AddressMap};
use crate::vulnerabilities::refused;
use vstd::bytes::{spec_u64_to_le_bytes, u64_to_le_bytes};
use vstd::prelude::*;

verus! {

/// A wallet program with secure signature verification
pub struct WalletProgram {
    pub accounts: AddressMap<WalletAccount>,
    /// The last nonce that each sender used.
    pub nonces: AddressMap<u64>,
}

/// Wallet account structure
pub struct WalletAccount {
    pub owner: Address,
    pub balance: u64,
}

/// `accounts` with an empty account for `who`, owned by `who`, where there
/// was none.
pub open spec fn with_account(accounts: Map<Address, WalletAccount>, who: Address) -> Map<
    Address,
    WalletAccount,
> {
    if accounts.contains_key(who) {
        accounts
    } else {
        accounts.insert(who, WalletAccount { owner: who, balance: 0 })
    }
}

/// `accounts` with `amount` taken from the balance of `who`.
pub open spec fn debited(accounts: Map<Address, WalletAccount>, who: Address, amount: u64) -> Map<
    Address,
    WalletAccount,
> {
    accounts.insert(
        who,
        WalletAccount { balance: (accounts[who].balance - amount) as u64, ..accounts[who] },
    )
}

/// `accounts` with `amount` added to the balance of `who`.
pub open spec fn credited(accounts: Map<Address, WalletAccount>, who: Address, amount: u64) -> Map<
    Address,
    WalletAccount,
> {
    accounts.insert(
        who,
        WalletAccount { balance: (accounts[who].balance + amount) as u64, ..accounts[who] },
    )
}

/// `accounts` after `amount` went from `from` to `to`, whose account is
/// opened where it was missing.
pub open spec fn transferred(
    accounts: Map<Address, WalletAccount>,
    from: Address,
    to: Address,
    amount: u64,
) -> Map<Address, WalletAccount> {
    credited(with_account(debited(accounts, from, amount), to), to, amount)
}

/// The last nonce that `from` used: 0 where it has used none.
pub open spec fn last_nonce(nonces: Map<Address, u64>, from: Address) -> u64 {
    if nonces.contains_key(from) {
        nonces[from]
    } else {
        0
    }
}

/// The message that the sender signs: sender, recipient, amount and nonce,
/// the two numbers in eight bytes each, least significant first.
pub open spec fn signed_text(from: Address, to: Address, amount: u64, nonce: u64) -> Seq<u8> {
    from@ + to@ + spec_u64_to_le_bytes(amount) + spec_u64_to_le_bytes(nonce)
}

/// Writes out the message that the sender signs.
pub fn signed_message(from: &Address, to: &Address, amount: u64, nonce: u64) -> (message: Vec<u8>)
    ensures
        message@ == signed_text(*from, *to, amount, nonce),
{
    let mut message: Vec<u8> = Vec::with_capacity(32 + 32 + 8 + 8);
    message.extend_from_slice(from.as_slice());
    message.extend_from_slice(to.as_slice());
    message.extend_from_slice(u64_to_le_bytes(amount).as_slice());
    message.extend_from_slice(u64_to_le_bytes(nonce).as_slice());
    assert(message@ =~= signed_text(*from, *to, amount, nonce));
    message
}

impl WalletProgram {
    /// Whether a transfer passes every check: the sender exists, holds at
    /// least `amount`, and `nonce` is above the last one it used.
    pub open spec fn accepts(&self, from: Address, amount: u64, nonce: u64) -> bool {
        &&& self.accounts@.contains_key(from)
        &&& self.accounts@[from].balance >= amount
        &&& nonce > last_nonce(self.nonces@, from)
    }

    /// Create a new wallet program
    pub fn new() -> (program: Self)
        ensures
            program.accounts@ == Map::<Address, WalletAccount>::empty(),
            program.nonces@ == Map::<Address, u64>::empty(),
    {
        Self { accounts: AddressMap::new(), nonces: AddressMap::new() }
    }

    /// Moves `amount` from `from` to `to` and writes down `nonce` as the
    /// sender's last one. A nonce that is not above the sender's last one
    /// is refused, so no signed transfer can be played twice. The
    /// recipient's new balance has to fit in 64 bits.
    pub fn transfer(
        &mut self,
        from: Address,
        to: Address,
        amount: u64,
        nonce: u64,
        signature: [u8; 64],
    ) -> (res: Result<(), &'static str>)
        requires
            old(self).accepts(from, amount, nonce) ==> with_account(
                debited(old(self).accounts@, from, amount),
                to,
            )[to].balance + amount <= u64::MAX,
        ensures
            res is Err
                ==> final(self).accounts.order() == old(self).accounts.order()
                    && final(self).nonces.order() == old(self).nonces.order(),
            res is Ok
                ==> final(self).accounts.order() == order_with(old(self).accounts.order(), to)
                    && final(self).nonces.order() == order_with(old(self).nonces.order(), from),
            !old(self).accounts@.contains_key(from) ==> refused(res, "Account not found"),
            old(self).accounts@.contains_key(from) && old(self).accounts@[from].balance < amount
                ==> refused(res, "Insufficient funds"),
            old(self).accounts@.contains_key(from) && old(self).accounts@[from].balance >= amount
                && nonce <= last_nonce(old(self).nonces@, from) ==> refused(
                res,
                "Invalid nonce - potential replay attack",
            ),
            res is Err ==> final(self).accounts@ == old(self).accounts@ && final(self).nonces@
                == old(self).nonces@,
            old(self).accepts(from, amount, nonce) ==> {
                &&& res == Ok::<(), &'static str>(())
                &&& final(self).accounts@ == transferred(old(self).accounts@, from, to, amount)
                &&& final(self).nonces@ == old(self).nonces@.insert(from, nonce)
            },
    {
        let from_account = match self.accounts.get(&from) {
            Some(account) => account,
            None => return Err("Account not found"),
        };
        if from_account.balance < amount {
            return Err("Insufficient funds");
        }
        let current_nonce = match self.nonces.get(&from) {
            Some(used) => *used,
            None => 0,
        };
        if nonce <= current_nonce {
            return Err("Invalid nonce - potential replay attack");
        }
        let message = signed_message(&from, &to, amount, nonce);
        if !self.verify_signature(&from, message.as_slice(), &signature) {
            return Err("Invalid signature");
        }
        self.nonces.insert(from, nonce);
        let from_account = self.accounts.get_mut(&from).unwrap();
        from_account.balance -= amount;
        if !self.accounts.contains_key(&to) {
            self.accounts.insert(to, WalletAccount { owner: to, balance: 0 });
        }
        let to_account = self.accounts.get_mut(&to).unwrap();
        to_account.balance += amount;
        Ok(())
    }

    /// Stands for the signature check, which accepts every signature here.
    fn verify_signature(&self, _pubkey: &Address, _message: &[u8], _signature: &[u8; 64]) -> (valid:
        bool)
        ensures
            valid,
    {
        true
    }
}

} // verus!
