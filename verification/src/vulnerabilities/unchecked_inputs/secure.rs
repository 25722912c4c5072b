//! A bank that checks amounts and delegates before it acts on them.

use crate::collections::address_map::{contains_address, order_with, same_address, Address, AddressMap};
use crate::vulnerabilities::refused;
use vstd::prelude::*;

verus! {

/// The largest amount that one transfer may move.
pub const MAX_TRANSFER: u64 = 1_000_000_000_000;

/// The largest number of delegates that one account may have.
pub const MAX_DELEGATES: usize = 5;

#[derive(Debug, Clone)]
pub struct UserAccount {
    pub owner: Address,
    pub balance: u64,
    pub authorized_delegates: Vec<Address>,
}

pub struct BankProgram {
    pub accounts: AddressMap<UserAccount>,
}

/// Whether the transfer is one that the bank takes up at all: a positive
/// amount within the limit, to someone else, from an existing account.
pub open spec fn is_admissible(
    accounts: Map<Address, UserAccount>,
    sender: Address,
    recipient: Address,
    amount: u64,
) -> bool {
    &&& 0 < amount <= MAX_TRANSFER
    &&& sender != recipient
    &&& accounts.contains_key(sender)
}

/// What `recipient` holds before the transfer: nothing where it has no
/// account yet.
pub open spec fn held_by(accounts: Map<Address, UserAccount>, recipient: Address) -> int {
    if accounts.contains_key(recipient) {
        accounts[recipient].balance as int
    } else {
        0
    }
}

/// `after` is `before` with `amount` moved from `sender` to another account
/// `recipient`, which is opened, owned by itself and without delegates,
/// where it was missing.
pub open spec fn moved(
    before: Map<Address, UserAccount>,
    after: Map<Address, UserAccount>,
    sender: Address,
    recipient: Address,
    amount: u64,
) -> bool {
    &&& after.dom() == before.dom().insert(recipient)
    &&& forall|k: Address|
        before.contains_key(k) && k != sender && k != recipient ==> after[k] == before[k]
    &&& after[sender] == (UserAccount {
        balance: (before[sender].balance - amount) as u64,
        ..before[sender]
    })
    &&& after[recipient].balance == held_by(before, recipient) + amount
    &&& before.contains_key(recipient) ==> after[recipient] == (UserAccount {
        balance: after[recipient].balance,
        ..before[recipient]
    })
    &&& !before.contains_key(recipient) ==> after[recipient].owner == recipient
        && after[recipient].authorized_delegates@ == Seq::<Address>::empty()
}

impl BankProgram {
    pub fn new() -> (program: Self)
        ensures
            program.accounts@ == Map::<Address, UserAccount>::empty(),
    {
        Self { accounts: AddressMap::new() }
    }

    /// Moves `amount` from `sender` to `recipient`. Refused are, in this
    /// order: an amount of zero, an amount over the limit, a transfer to the
    /// sender itself, a missing sender and a balance that is too small. The
    /// recipient's new balance has to fit in 64 bits.
    pub fn transfer(&mut self, sender: Address, recipient: Address, amount: u64) -> (res: Result<
        (),
        &'static str,
    >)
        requires
            is_admissible(old(self).accounts@, sender, recipient, amount)
                && old(self).accounts@[sender].balance >= amount
                    ==> held_by(old(self).accounts@, recipient)
                + amount <= u64::MAX,
        ensures
            res is Err ==> final(self).accounts.order() == old(self).accounts.order(),
            res is Ok
                ==> final(self).accounts.order()
                    == order_with(old(self).accounts.order(), recipient),
            amount == 0 ==> refused(res, "Amount must be greater than zero"),
            amount > MAX_TRANSFER ==> refused(res, "Amount exceeds maximum transfer limit"),
            0 < amount <= MAX_TRANSFER && sender == recipient ==> refused(
                res,
                "Cannot transfer to self",
            ),
            0 < amount <= MAX_TRANSFER && sender != recipient && !old(self).accounts@.contains_key(
                sender,
            ) ==> refused(res, "Sender account not found"),
            is_admissible(old(self).accounts@, sender, recipient, amount)
                && old(self).accounts@[sender].balance < amount
                    ==> refused(res, "Insufficient balance"),
            res is Err ==> final(self).accounts@ == old(self).accounts@,
            is_admissible(old(self).accounts@, sender, recipient, amount)
                && old(self).accounts@[sender].balance >= amount
                    ==> res == Ok::<(), &'static str>(()) && moved(
                old(self).accounts@,
                final(self).accounts@,
                sender,
                recipient,
                amount,
            ),
    {
        if amount == 0 {
            return Err("Amount must be greater than zero");
        }
        if amount > MAX_TRANSFER {
            return Err("Amount exceeds maximum transfer limit");
        }
        if same_address(&sender, &recipient) {
            return Err("Cannot transfer to self");
        }
        let sender_account = match self.accounts.get(&sender) {
            Some(account) => account,
            None => return Err("Sender account not found"),
        };
        if sender_account.balance < amount {
            return Err("Insufficient balance");
        }
        let sender_account = self.accounts.get_mut(&sender).unwrap();
        sender_account.balance -= amount;
        if !self.accounts.contains_key(&recipient) {
            self.accounts.insert(
                recipient,
                UserAccount { owner: recipient, balance: 0, authorized_delegates: Vec::new() },
            );
        }
        let recipient_account = self.accounts.get_mut(&recipient).unwrap();
        recipient_account.balance += amount;
        assert(self.accounts@.dom() =~= old(self).accounts@.dom().insert(recipient));
        Ok(())
    }

    /// Adds `delegate` to the delegates of `account`. Refused are, in this
    /// order: the account as its own delegate, a missing account, a delegate
    /// that is listed already and a list that is full.
    pub fn add_delegate(&mut self, account: Address, delegate: Address) -> (res: Result<
        (),
        &'static str,
    >)
        ensures
            final(self).accounts.order() == old(self).accounts.order(),
            account == delegate ==> refused(res, "Cannot add self as delegate"),
            account != delegate && !old(self).accounts@.contains_key(account) ==> refused(
                res,
                "Account not found",
            ),
            account != delegate && old(self).accounts@.contains_key(account)
                && old(self).accounts@[account].authorized_delegates@.contains(delegate)
                    ==> refused(
                res,
                "Delegate already authorized",
            ),
            account != delegate && old(self).accounts@.contains_key(account)
                && !old(self).accounts@[account].authorized_delegates@.contains(delegate)
                    && old(self).accounts@[account].authorized_delegates@.len() >= MAX_DELEGATES ==> refused(
                res,
                "Maximum number of delegates reached",
            ),
            res is Err ==> final(self).accounts@ == old(self).accounts@,
            account != delegate && old(self).accounts@.contains_key(account)
                && !old(self).accounts@[account].authorized_delegates@.contains(delegate)
                    && old(self).accounts@[account].authorized_delegates@.len() < MAX_DELEGATES
                        ==> {
                &&& res == Ok::<(), &'static str>(())
                &&& final(self).accounts@.dom() == old(self).accounts@.dom()
                &&& forall|k: Address|
                    old(self).accounts@.contains_key(k) && k != account ==> final(self).accounts@[k]
                        == old(self).accounts@[k]
                &&& final(self).accounts@[account].owner == old(self).accounts@[account].owner
                &&& final(self).accounts@[account].balance == old(self).accounts@[account].balance
                &&& final(self).accounts@[account].authorized_delegates@
                    == old(self).accounts@[account].authorized_delegates@.push(delegate)
            },
    {
        if same_address(&account, &delegate) {
            return Err("Cannot add self as delegate");
        }
        let user_account = match self.accounts.get_mut(&account) {
            Some(account) => account,
            None => return Err("Account not found"),
        };
        if contains_address(&user_account.authorized_delegates, &delegate) {
            return Err("Delegate already authorized");
        }
        if user_account.authorized_delegates.len() >= MAX_DELEGATES {
            return Err("Maximum number of delegates reached");
        }
        user_account.authorized_delegates.push(delegate);
        assert(self.accounts@.dom() =~= old(self).accounts@.dom());
        Ok(())
    }
}

} // verus!
