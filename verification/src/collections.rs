//! Small verified maps used by the example contracts.
//!
//! The example contracts keep their state in maps keyed by 32-byte addresses
//! or by token names. Both maps here remember the order in which keys were
//! first inserted, so that walking a map is deterministic.

pub mod address_map;
pub mod name_map;
