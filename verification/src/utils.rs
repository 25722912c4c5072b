//! Utility functions and structures for demonstrating vulnerabilities
//!
//! This module contains helper code used across the vulnerability examples,
//! including mock blockchain environments, account structures, and testing utilities.

use crate::collections::address_map::{Address, AddressMap};
use vstd::prelude::*;
use vstd::string::StringSliceAdditionalSpecFns;

pub mod display;
pub mod runtime;

verus! {

/// The number of the first block of a mock blockchain.
pub const FIRST_BLOCK: u64 = 1;

/// The time of the first block of a mock blockchain.
pub const FIRST_TIMESTAMP: u64 = 1621500000;

/// Mock account structure for examples
#[derive(Debug, Clone)]
pub struct Account {
    pub address: Address,
    pub balance: u64,
    pub owner: Option<Address>,
    pub data: Vec<u8>,
    pub executable: bool,
}

impl Account {
    /// An empty account at `address`: no balance, no owner, no data.
    pub fn new(address: Address) -> (account: Self)
        ensures
            account.address == address,
            account.balance == 0,
            account.owner is None,
            account.data@ == Seq::<u8>::empty(),
            !account.executable,
    {
        Self { address, balance: 0, owner: None, data: Vec::new(), executable: false }
    }

    /// The same account with the given balance.
    pub fn with_balance(self, balance: u64) -> (account: Self)
        ensures
            account == (Account { balance, ..self }),
    {
        let mut account = self;
        account.balance = balance;
        account
    }
}

/// Mock blockchain environment for examples
#[derive(Debug)]
pub struct MockBlockchain {
    accounts: AddressMap<Account>,
    current_block: u64,
    timestamp: u64,
}

impl Default for MockBlockchain {
    /// A blockchain without accounts, at block 0 and time 0.
    fn default() -> (chain: Self)
        ensures
            chain.accounts() == Map::<Address, Account>::empty(),
            chain.block_number() == 0,
            chain.block_time() == 0,
    {
        Self { accounts: AddressMap::new(), current_block: 0, timestamp: 0 }
    }
}

impl MockBlockchain {
    /// The accounts on the chain, by the address they were added under.
    pub closed spec fn accounts(&self) -> Map<Address, Account> {
        self.accounts@
    }

    /// The number of the current block.
    pub closed spec fn block_number(&self) -> u64 {
        self.current_block
    }

    /// The time of the current block, in seconds.
    pub closed spec fn block_time(&self) -> u64 {
        self.timestamp
    }

    /// A blockchain without accounts, at its first block.
    pub fn new() -> (chain: Self)
        ensures
            chain.accounts() == Map::<Address, Account>::empty(),
            chain.block_number() == FIRST_BLOCK,
            chain.block_time() == FIRST_TIMESTAMP,
    {
        Self { accounts: AddressMap::new(), current_block: FIRST_BLOCK, timestamp: FIRST_TIMESTAMP }
    }

    /// Puts an account on the chain under its own address. An account
    /// that was there under that address is replaced.
    pub fn add_account(&mut self, account: Account)
        ensures
            final(self).accounts() == old(self).accounts().insert(account.address, account),
            final(self).block_number() == old(self).block_number(),
            final(self).block_time() == old(self).block_time(),
    {
        self.accounts.insert(account.address, account);
    }

    /// The account at `address`.
    pub fn get_account(&self, address: &Address) -> (found: Option<&Account>)
        ensures
            found == if self.accounts().contains_key(*address) {
                Some(&self.accounts()[*address])
            } else {
                None
            },
    {
        self.accounts.get(address)
    }

    /// The account at `address`, to be changed in place.
    pub fn get_account_mut(&mut self, address: &Address) -> (found: Option<&mut Account>)
        ensures
            final(self).block_number() == old(self).block_number(),
            final(self).block_time() == old(self).block_time(),
            match found {
                Some(account) => old(self).accounts().contains_key(*address) && *account == old(
                    self,
                ).accounts()[*address] && final(self).accounts() == old(self).accounts().insert(
                    *address,
                    *final(account),
                ),
                None => !old(self).accounts().contains_key(*address) && final(self).accounts()
                    == old(self).accounts(),
            },
    {
        self.accounts.get_mut(address)
    }

    /// Moves on to the next block, one second later. The new number and
    /// time have to fit in 64 bits.
    pub fn advance_block(&mut self)
        requires
            old(self).block_number() < u64::MAX,
            old(self).block_time() < u64::MAX,
        ensures
            final(self).block_number() == old(self).block_number() + 1,
            final(self).block_time() == old(self).block_time() + 1,
            final(self).accounts() == old(self).accounts(),
    {
        self.current_block += 1;
        self.timestamp += 1;
    }
}

/// The byte at place `i` of the example address: seven times `i`.
pub open spec fn example_byte(i: int) -> u8 {
    (i * 7) as u8
}

/// Generate an account address for examples. It is the same address every
/// time: its byte at place `i` is seven times `i`.
pub fn generate_address() -> (addr: Address)
    ensures
        forall|i: int| 0 <= i < 32 ==> addr[i] == example_byte(i),
        forall|i: int| 0 <= i < 32 ==> addr[i] == i * 7,
{
    let mut addr = [0u8; 32];
    let mut i: usize = 0;
    while i < 32
        invariant
            i <= 32,
            forall|j: int| 0 <= j < i ==> addr[j] == j * 7,
        decreases 32 - i,
    {
        addr[i] = (i * 7) as u8;
        i += 1;
    }
    addr
}

/// The byte that a privilege is looked up by: the first byte of its name,
/// or 0 for the empty name.
pub open spec fn privilege_byte(privilege: Seq<char>) -> u8 {
    let bytes = vstd::utf8::encode_utf8(privilege);
    if bytes.len() > 0 {
        bytes[0]
    } else {
        0
    }
}

/// Check if an address has a specific privilege in a mock access control
/// system: it has where one of its bytes is the privilege's byte.
pub fn has_privilege(address: &Address, privilege: &str) -> (has: bool)
    ensures
        has == exists|i: int| 0 <= i < 32 && address[i] == privilege_byte(privilege@),
{
    let bytes = privilege.as_bytes();
    let first_byte = if bytes.len() > 0 {
        bytes[0]
    } else {
        0
    };
    let mut i: usize = 0;
    while i < 32
        invariant
            i <= 32,
            first_byte == privilege_byte(privilege@),
            forall|j: int| 0 <= j < i ==> address[j] != first_byte,
        decreases 32 - i,
    {
        if address[i] == first_byte {
            return true;
        }
        i += 1;
    }
    false
}

} // verus!
