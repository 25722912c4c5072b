//! A bank that takes every amount and every delegate as it comes.

use crate::collections::address_map::{order_with, Address, AddressMap};
use crate::vulnerabilities::refused;
use vstd::prelude::*;

verus! {

#[derive(Debug, Clone)]
pub struct UserAccount {
    pub owner: Address,
    pub balance: u64,
    pub authorized_delegates: Vec<Address>,
}

pub struct BankProgram {
    pub accounts: AddressMap<UserAccount>,
}

/// Whether `sender` exists and holds at least `amount`.
pub open spec fn can_pay(accounts: Map<Address, UserAccount>, sender: Address, amount: u64) -> bool {
    accounts.contains_key(sender) && accounts[sender].balance >= amount
}

/// What `recipient` holds once `amount` has left `sender`: nothing where
/// the recipient has no account yet.
pub open spec fn held_after_debit(
    accounts: Map<Address, UserAccount>,
    sender: Address,
    recipient: Address,
    amount: u64,
) -> int {
    if recipient == sender {
        accounts[sender].balance - amount
    } else if accounts.contains_key(recipient) {
        accounts[recipient].balance as int
    } else {
        0
    }
}

/// `after` is `before` with `amount` moved from `sender` to `recipient`,
/// whose account is opened, owned by itself and without delegates, where it
/// was missing.
pub open spec fn moved(
    before: Map<Address, UserAccount>,
    after: Map<Address, UserAccount>,
    sender: Address,
    recipient: Address,
    amount: u64,
) -> bool {
    &&& after.dom() == before.dom().insert(recipient)
    &&& forall|k: Address|
        before.contains_key(k) && k != sender && k != recipient ==> after[k] == before[k]
    &&& sender != recipient ==> after[sender] == (UserAccount {
        balance: (before[sender].balance - amount) as u64,
        ..before[sender]
    })
    &&& after[recipient].balance == held_after_debit(before, sender, recipient, amount) + amount
    &&& before.contains_key(recipient) ==> after[recipient] == (UserAccount {
        balance: after[recipient].balance,
        ..before[recipient]
    })
    &&& !before.contains_key(recipient) ==> after[recipient].owner == recipient
        && after[recipient].authorized_delegates@ == Seq::<Address>::empty()
}

impl BankProgram {
    pub fn new() -> (program: Self)
        ensures
            program.accounts@ == Map::<Address, UserAccount>::empty(),
    {
        Self { accounts: AddressMap::new() }
    }

    /// Moves `amount` from `sender` to `recipient`. No amount is refused for
    /// what it is: a transfer of nothing goes through, and so does one to the
    /// sender itself. The recipient's new balance has to fit in 64 bits.
    pub fn transfer(&mut self, sender: Address, recipient: Address, amount: u64) -> (res: Result<
        (),
        &'static str,
    >)
        requires
            can_pay(old(self).accounts@, sender, amount) ==> held_after_debit(
                old(self).accounts@,
                sender,
                recipient,
                amount,
            ) + amount <= u64::MAX,
        ensures
            res is Err ==> final(self).accounts.order() == old(self).accounts.order(),
            res is Ok
                ==> final(self).accounts.order()
                    == order_with(old(self).accounts.order(), recipient),
            !old(self).accounts@.contains_key(sender) ==> refused(res, "Sender account not found")
                && final(self).accounts@ == old(self).accounts@,
            old(self).accounts@.contains_key(sender) && old(self).accounts@[sender].balance < amount
                ==> refused(res, "Insufficient balance")
                    && final(self).accounts@ == old(self).accounts@,
            can_pay(old(self).accounts@, sender, amount) ==> res == Ok::<(), &'static str>(())
                && moved(old(self).accounts@, final(self).accounts@, sender, recipient, amount),
    {
        let sender_account = match self.accounts.get(&sender) {
            Some(account) => account,
            None => return Err("Sender account not found"),
        };
        if sender_account.balance < amount {
            return Err("Insufficient balance");
        }
        let sender_account = self.accounts.get_mut(&sender).unwrap();
        sender_account.balance -= amount;
        if !self.accounts.contains_key(&recipient) {
            self.accounts.insert(
                recipient,
                UserAccount { owner: recipient, balance: 0, authorized_delegates: Vec::new() },
            );
        }
        let recipient_account = self.accounts.get_mut(&recipient).unwrap();
        recipient_account.balance += amount;
        assert(self.accounts@.dom() =~= old(self).accounts@.dom().insert(recipient));
        Ok(())
    }

    /// Adds `delegate` to the delegates of `account`. The delegate is not
    /// looked at: it may be the owner, or be listed already, and the list
    /// may grow without end.
    pub fn add_delegate(&mut self, account: Address, delegate: Address) -> (res: Result<
        (),
        &'static str,
    >)
        ensures
            final(self).accounts.order() == old(self).accounts.order(),
            !old(self).accounts@.contains_key(account) ==> refused(res, "Account not found")
                && final(self).accounts@ == old(self).accounts@,
            old(self).accounts@.contains_key(account) ==> {
                &&& res == Ok::<(), &'static str>(())
                &&& final(self).accounts@.dom() == old(self).accounts@.dom()
                &&& forall|k: Address|
                    old(self).accounts@.contains_key(k) && k != account ==> final(self).accounts@[k]
                        == old(self).accounts@[k]
                &&& final(self).accounts@[account].owner == old(self).accounts@[account].owner
                &&& final(self).accounts@[account].balance == old(self).accounts@[account].balance
                &&& final(self).accounts@[account].authorized_delegates@
                    == old(self).accounts@[account].authorized_delegates@.push(delegate)
            },
    {
        let user_account = match self.accounts.get_mut(&account) {
            Some(account) => account,
            None => return Err("Account not found"),
        };
        user_account.authorized_delegates.push(delegate);
        assert(self.accounts@.dom() =~= old(self).accounts@.dom());
        Ok(())
    }
}

} // verus!
