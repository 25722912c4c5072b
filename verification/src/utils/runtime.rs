//! A mock runtime: a blockchain and the account that is calling.

use crate::collections::address_map::Address;
use crate::utils::{Account, MockBlockchain, FIRST_BLOCK, FIRST_TIMESTAMP};
use vstd::prelude::*;

verus! {

/// Mock runtime environment
pub struct Runtime {
    pub blockchain: MockBlockchain,
    pub current_caller: Address,
}

impl Runtime {
    /// A runtime on a new blockchain, called by the zero address.
    pub fn new() -> (runtime: Self)
        ensures
            runtime.blockchain.accounts() == Map::<Address, Account>::empty(),
            runtime.blockchain.block_number() == FIRST_BLOCK,
            runtime.blockchain.block_time() == FIRST_TIMESTAMP,
            forall|i: int| 0 <= i < 32 ==> runtime.current_caller[i] == 0,
    {
        Self { blockchain: MockBlockchain::new(), current_caller: [0u8; 32] }
    }

    /// The same runtime, called by `caller`.
    pub fn with_caller(self, caller: Address) -> (runtime: Self)
        ensures
            runtime.blockchain == self.blockchain,
            runtime.current_caller == caller,
    {
        let mut runtime = self;
        runtime.current_caller = caller;
        runtime
    }
}

} // verus!
