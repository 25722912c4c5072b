//! A vault program that pays out of its own vault only, and only while the
//! vault belongs to the program.

use crate::collections::address_map::{order_with, same_address, Address, AddressMap};
use crate::vulnerabilities::refused;
use vstd::prelude::*;

verus! {

/// What the vault holds when the program is set up.
pub const INITIAL_VAULT_BALANCE: u64 = 1000000;

/// A Solana-style program with secure account validation
pub struct VaultProgram {
    /// The intended vault address.
    pub vault_address: Address,
    pub token_accounts: AddressMap<TokenAccount>,
    pub program_id: Address,
}

/// Token account structure
pub struct TokenAccount {
    pub owner: Address,
    pub balance: u64,
}

/// `accounts` with an empty account for `who`, owned by `who`, where there
/// was none.
pub open spec fn with_account(accounts: Map<Address, TokenAccount>, who: Address) -> Map<
    Address,
    TokenAccount,
> {
    if accounts.contains_key(who) {
        accounts
    } else {
        accounts.insert(who, TokenAccount { owner: who, balance: 0 })
    }
}

/// `accounts` with `amount` taken from the balance of `who`.
pub open spec fn debited(accounts: Map<Address, TokenAccount>, who: Address, amount: u64) -> Map<
    Address,
    TokenAccount,
> {
    accounts.insert(
        who,
        TokenAccount { balance: (accounts[who].balance - amount) as u64, ..accounts[who] },
    )
}

/// `accounts` with `amount` added to the balance of `who`.
pub open spec fn credited(accounts: Map<Address, TokenAccount>, who: Address, amount: u64) -> Map<
    Address,
    TokenAccount,
> {
    accounts.insert(
        who,
        TokenAccount { balance: (accounts[who].balance + amount) as u64, ..accounts[who] },
    )
}

/// `accounts` after `amount` went from `source` to `user`, whose account is
/// opened where it was missing.
pub open spec fn paid_out(
    accounts: Map<Address, TokenAccount>,
    source: Address,
    user: Address,
    amount: u64,
) -> Map<Address, TokenAccount> {
    credited(debited(with_account(accounts, user), source, amount), user, amount)
}

impl VaultProgram {
    /// Whether the program's vault exists, belongs to the program and holds
    /// at least `amount`.
    pub open spec fn vault_can_pay(&self, amount: u64) -> bool {
        &&& self.token_accounts@.contains_key(self.vault_address)
        &&& self.token_accounts@[self.vault_address].owner == self.program_id
        &&& self.token_accounts@[self.vault_address].balance >= amount
    }

    /// Create a new vault program whose vault is owned by the program and
    /// holds the initial balance.
    pub fn new(program_id: Address, vault_address: Address) -> (program: Self)
        ensures
            program.token_accounts.order() == seq![vault_address],
            program.vault_address == vault_address,
            program.program_id == program_id,
            program.token_accounts@ == Map::<Address, TokenAccount>::empty().insert(
                vault_address,
                TokenAccount { owner: program_id, balance: INITIAL_VAULT_BALANCE },
            ),
    {
        let mut token_accounts = AddressMap::new();
        token_accounts.insert(
            vault_address,
            TokenAccount { owner: program_id, balance: INITIAL_VAULT_BALANCE },
        );
        Self { vault_address, token_accounts, program_id }
    }

    /// Pays `amount` to `user_address` out of the program's own vault. The
    /// user's new balance has to fit in 64 bits.
    pub fn withdraw(&mut self, user_address: Address, amount: u64) -> (res: Result<
        (),
        &'static str,
    >)
        requires
            old(self).vault_can_pay(amount) ==> debited(
                with_account(old(self).token_accounts@, user_address),
                old(self).vault_address,
                amount,
            )[user_address].balance + amount <= u64::MAX,
        ensures
            res is Err ==> final(self).token_accounts.order() == old(self).token_accounts.order(),
            res is Ok
                ==> final(self).token_accounts.order()
                    == order_with(old(self).token_accounts.order(), user_address),
            final(self).vault_address == old(self).vault_address,
            final(self).program_id == old(self).program_id,
            !old(self).token_accounts@.contains_key(old(self).vault_address) ==> refused(
                res,
                "Vault account not found",
            ),
            old(self).token_accounts@.contains_key(old(self).vault_address)
                && old(self).token_accounts@[old(self).vault_address].owner != old(self).program_id ==> refused(
                res,
                "Vault account has invalid ownership",
            ),
            old(self).token_accounts@.contains_key(old(self).vault_address)
                && old(self).token_accounts@[old(self).vault_address].owner
                    == old(self).program_id
                        && old(self).token_accounts@[old(self).vault_address].balance < amount
                            ==> refused(
                res,
                "Insufficient funds in vault",
            ),
            res is Err ==> final(self).token_accounts@ == old(self).token_accounts@,
            old(self).vault_can_pay(amount)
                ==> res == Ok::<(), &'static str>(()) && final(self).token_accounts@ == paid_out(
                old(self).token_accounts@,
                old(self).vault_address,
                user_address,
                amount,
            ),
    {
        let vault_address = self.vault_address;
        let vault_account = match self.token_accounts.get(&vault_address) {
            Some(account) => account,
            None => return Err("Vault account not found"),
        };
        if !same_address(&vault_account.owner, &self.program_id) {
            return Err("Vault account has invalid ownership");
        }
        if vault_account.balance < amount {
            return Err("Insufficient funds in vault");
        }
        if !self.token_accounts.contains_key(&user_address) {
            self.token_accounts.insert(user_address, TokenAccount { owner: user_address, balance: 0 });
        }
        let vault_account = self.token_accounts.get_mut(&vault_address).unwrap();
        vault_account.balance -= amount;
        let user_account = self.token_accounts.get_mut(&user_address).unwrap();
        user_account.balance += amount;
        Ok(())
    }
}

} // verus!
