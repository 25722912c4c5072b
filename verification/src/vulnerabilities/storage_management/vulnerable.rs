//! A program that writes its state into accounts that it does not check:
//! neither who owns them nor how much they can hold.

use crate::collections::address_map::{order_with, Address, AddressMap};
use crate::vulnerabilities::refused;
use vstd::bytes::{
    lemma_auto_spec_u64_to_from_le_bytes, spec_u64_from_le_bytes, spec_u64_to_le_bytes,
    u64_from_le_bytes, u64_to_le_bytes,
};
use vstd::prelude::*;
use vstd::slice::slice_subrange;

verus! {

/// A simplified program with storage management issues
pub struct Program {
    /// Simulated blockchain accounts
    pub accounts: AddressMap<AccountData>,
}

/// Account data structure
pub struct AccountData {
    pub owner: Address,
    pub data: Vec<u8>,
}

/// State structure, kept in an account's data in serialized form.
#[derive(Clone)]
pub struct State {
    pub counter: u64,
    pub values: Vec<u64>,
}

/// The first `upto` values, eight bytes each, least significant first.
pub open spec fn encoded_values(values: Seq<u64>, upto: int) -> Seq<u8>
    decreases upto,
{
    if upto <= 0 {
        Seq::empty()
    } else {
        encoded_values(values, upto - 1) + spec_u64_to_le_bytes(values[upto - 1])
    }
}

/// The serialized form of a state: the counter, the number of values and
/// the values, eight bytes each, least significant first.
pub open spec fn encoded(counter: u64, values: Seq<u64>) -> Seq<u8> {
    spec_u64_to_le_bytes(counter) + spec_u64_to_le_bytes(values.len() as u64) + encoded_values(
        values,
        values.len() as int,
    )
}

/// The counter that `data` holds.
pub open spec fn stored_counter(data: Seq<u8>) -> u64 {
    spec_u64_from_le_bytes(data.subrange(0, 8))
}

/// The number of values that `data` says it holds.
pub open spec fn stored_len(data: Seq<u8>) -> u64 {
    spec_u64_from_le_bytes(data.subrange(8, 16))
}

/// The value at place `i` of `data`.
pub open spec fn stored_value(data: Seq<u8>, i: int) -> u64 {
    spec_u64_from_le_bytes(data.subrange(16 + 8 * i, 24 + 8 * i))
}

/// The values that `data` holds.
pub open spec fn stored_values(data: Seq<u8>) -> Seq<u64> {
    Seq::new(stored_len(data) as nat, |i: int| stored_value(data, i))
}

/// Whether `data` is long enough for its two leading numbers.
pub open spec fn has_header(data: Seq<u8>) -> bool {
    data.len() >= 16
}

/// Whether `data` is long enough for all the values it says it holds.
pub open spec fn is_complete(data: Seq<u8>) -> bool {
    has_header(data) && data.len() >= 16 + 8 * stored_len(data)
}

/// The serialized values take eight bytes each.
pub proof fn lemma_encoded_values_len(values: Seq<u64>, upto: int)
    requires
        0 <= upto,
    ensures
        encoded_values(values, upto).len() == 8 * upto,
    decreases upto,
{
    lemma_auto_spec_u64_to_from_le_bytes();
    if upto > 0 {
        lemma_encoded_values_len(values, upto - 1);
    }
}

/// The value at place `i` of the serialized values is `values[i]`.
pub proof fn lemma_encoded_values_at(values: Seq<u64>, upto: int, i: int)
    requires
        0 <= i < upto,
    ensures
        encoded_values(values, upto).subrange(8 * i, 8 * i + 8) == spec_u64_to_le_bytes(values[i]),
    decreases upto,
{
    lemma_auto_spec_u64_to_from_le_bytes();
    lemma_encoded_values_len(values, upto - 1);
    let before = encoded_values(values, upto - 1);
    let last = spec_u64_to_le_bytes(values[upto - 1]);
    if i == upto - 1 {
        assert((before + last).subrange(8 * i, 8 * i + 8) =~= last);
    } else {
        lemma_encoded_values_at(values, upto - 1, i);
        assert((before + last).subrange(8 * i, 8 * i + 8) =~= before.subrange(8 * i, 8 * i + 8));
    }
}

/// A state that is written out and read back is the same state.
pub proof fn lemma_round_trip(counter: u64, values: Seq<u64>)
    requires
        values.len() <= u64::MAX,
    ensures
        is_complete(encoded(counter, values)),
        encoded(counter, values).len() == 16 + 8 * values.len(),
        stored_counter(encoded(counter, values)) == counter,
        stored_len(encoded(counter, values)) == values.len(),
        stored_values(encoded(counter, values)) == values,
{
    lemma_auto_spec_u64_to_from_le_bytes();
    let n = values.len() as int;
    let data = encoded(counter, values);
    let head = spec_u64_to_le_bytes(counter);
    let count = spec_u64_to_le_bytes(values.len() as u64);
    let body = encoded_values(values, n);
    lemma_encoded_values_len(values, n);
    assert(data.subrange(0, 8) =~= head);
    assert(data.subrange(8, 16) =~= count);
    assert forall|i: int| 0 <= i < n implies stored_value(data, i) == values[i] by {
        lemma_encoded_values_at(values, n, i);
        assert(data.subrange(16 + 8 * i, 24 + 8 * i) =~= body.subrange(8 * i, 8 * i + 8));
    }
    assert(stored_values(data) =~= values);
}

/// Writes a state out. This never fails.
pub fn serialize_state(state: &State) -> (res: Result<Vec<u8>, &'static str>)
    ensures
        res matches Ok(data) && data@ == encoded(state.counter, state.values@),
{
    let mut data: Vec<u8> = Vec::new();
    data.extend_from_slice(u64_to_le_bytes(state.counter).as_slice());
    let values_len = state.values.len() as u64;
    data.extend_from_slice(u64_to_le_bytes(values_len).as_slice());
    let ghost head = data@;
    let mut i: usize = 0;
    assert(data@ =~= head + encoded_values(state.values@, 0));
    while i < state.values.len()
        invariant
            i <= state.values.len(),
            data@ == head + encoded_values(state.values@, i as int),
        decreases state.values.len() - i,
    {
        data.extend_from_slice(u64_to_le_bytes(state.values[i]).as_slice());
        assert(data@ =~= head + encoded_values(state.values@, i + 1));
        i += 1;
    }
    assert(data@ =~= encoded(state.counter, state.values@));
    Ok(data)
}

/// Reads a state back. Data that is too short for its two leading numbers,
/// or for the values it says it holds, is refused.
pub fn deserialize_state(data: &[u8]) -> (res: Result<State, &'static str>)
    ensures
        !has_header(data@) ==> refused(res, "Data too small to deserialize"),
        has_header(data@) && !is_complete(data@) ==> refused(
            res,
            "Data too small to deserialize all values",
        ),
        is_complete(data@) ==> (res matches Ok(state) && state.counter == stored_counter(data@)
            && state.values@ == stored_values(data@)),
{
    if data.len() < 16 {
        return Err("Data too small to deserialize");
    }
    let counter = u64_from_le_bytes(slice_subrange(data, 0, 8));
    let values_len = u64_from_le_bytes(slice_subrange(data, 8, 16));
    let available = (data.len() - 16) / 8;
    if values_len > available as u64 {
        return Err("Data too small to deserialize all values");
    }
    let count = values_len as usize;
    let mut values: Vec<u64> = Vec::new();
    let mut i: usize = 0;
    while i < count
        invariant
            i <= count,
            count == stored_len(data@),
            data@.len() >= 16 + 8 * count,
            data@.len() <= usize::MAX,
            values@.len() == i,
            forall|j: int| 0 <= j < i ==> values@[j] == stored_value(data@, j),
        decreases count - i,
    {
        let start = 16 + i * 8;
        values.push(u64_from_le_bytes(slice_subrange(data, start, start + 8)));
        i += 1;
    }
    assert(values@ =~= stored_values(data@));
    Ok(State { counter, values })
}

/// The instruction that adds one to the counter.
pub const INCREMENT: u8 = 0;

/// The instruction that adds a value to the list.
pub const APPEND: u8 = 1;

/// Whether the instruction is one that the program knows and, for an
/// append, comes with the eight bytes of a value.
pub open spec fn is_valid_instruction(instruction: u8, instruction_data: Seq<u8>) -> bool {
    instruction == INCREMENT || (instruction == APPEND && instruction_data.len() >= 8)
}

/// The data of an account after the instruction was carried out on it.
pub open spec fn data_after(data: Seq<u8>, instruction: u8, instruction_data: Seq<u8>) -> Seq<u8> {
    if instruction == INCREMENT {
        encoded((stored_counter(data) + 1) as u64, stored_values(data))
    } else {
        encoded(
            stored_counter(data),
            stored_values(data).push(spec_u64_from_le_bytes(instruction_data.subrange(0, 8))),
        )
    }
}

impl Program {
    /// Create a new program
    pub fn new() -> (program: Self)
        ensures
            program.accounts@ == Map::<Address, AccountData>::empty(),
    {
        Self { accounts: AddressMap::new() }
    }

    /// Initialize an account with a counter of zero and no values. An
    /// account that exists already is overwritten.
    pub fn initialize_account(&mut self, account_id: Address, owner: Address) -> (res: Result<
        (),
        &'static str,
    >)
        ensures
            final(self).accounts.order() == order_with(old(self).accounts.order(), account_id),
            res == Ok::<(), &'static str>(()),
            final(self).accounts@.dom() == old(self).accounts@.dom().insert(account_id),
            forall|k: Address|
                old(self).accounts@.contains_key(k) && k != account_id ==> final(self).accounts@[k]
                    == old(self).accounts@[k],
            final(self).accounts@[account_id].owner == owner,
            final(self).accounts@[account_id].data@ == encoded(0, Seq::<u64>::empty()),
    {
        let state = State { counter: 0, values: Vec::new() };
        let data = serialize_state(&state)?;
        self.accounts.insert(account_id, AccountData { owner, data });
        assert(self.accounts@.dom() =~= old(self).accounts@.dom().insert(account_id));
        Ok(())
    }

    /// Carries out an instruction on the state kept in an account: add one
    /// to the counter, or add a value to the list. The owner of the
    /// account is not checked, and the data may grow to any length. The
    /// counter has to stay within 64 bits.
    pub fn process_instruction(
        &mut self,
        program_id: Address,
        account_id: Address,
        instruction: u8,
        instruction_data: &[u8],
    ) -> (res: Result<(), &'static str>)
        requires
            old(self).accounts@.contains_key(account_id) && is_complete(
                old(self).accounts@[account_id].data@,
            ) && instruction == INCREMENT ==> stored_counter(old(self).accounts@[account_id].data@)
                < u64::MAX,
        ensures
            final(self).accounts.order() == old(self).accounts.order(),
            !old(self).accounts@.contains_key(account_id) ==> refused(res, "Account not found"),
            old(self).accounts@.contains_key(account_id) ==> ({
                let data = old(self).accounts@[account_id].data@;
                &&& !has_header(data) ==> refused(res, "Data too small to deserialize")
                &&& has_header(data) && !is_complete(data) ==> refused(
                    res,
                    "Data too small to deserialize all values",
                )
                &&& is_complete(data) && instruction == APPEND && instruction_data@.len() < 8
                    ==> refused(res, "Invalid instruction data")
                &&& is_complete(data) && instruction != INCREMENT && instruction != APPEND
                    ==> refused(res, "Invalid instruction")
                &&& is_complete(data) && is_valid_instruction(instruction, instruction_data@) ==> {
                    &&& res == Ok::<(), &'static str>(())
                    &&& final(self).accounts@.dom() == old(self).accounts@.dom()
                    &&& final(self).accounts@[account_id].owner
                        == old(self).accounts@[account_id].owner
                    &&& final(self).accounts@[account_id].data@ == data_after(
                        data,
                        instruction,
                        instruction_data@,
                    )
                }
            }),
            forall|k: Address|
                old(self).accounts@.contains_key(k) && k != account_id
                    ==> final(self).accounts@.contains_key(k)
                        && final(self).accounts@[k] == old(self).accounts@[k],
            res is Err ==> final(self).accounts@ == old(self).accounts@,
    {
        let account = match self.accounts.get_mut(&account_id) {
            Some(account) => account,
            None => return Err("Account not found"),
        };
        let mut state = deserialize_state(account.data.as_slice())?;
        if instruction == INCREMENT {
            state.counter += 1;
        } else if instruction == APPEND {
            if instruction_data.len() < 8 {
                return Err("Invalid instruction data");
            }
            let value = u64_from_le_bytes(slice_subrange(instruction_data, 0, 8));
            state.values.push(value);
        } else {
            return Err("Invalid instruction");
        }
        let data = serialize_state(&state)?;
        account.data = data;
        assert(self.accounts@.dom() =~= old(self).accounts@.dom());
        Ok(())
    }
}

} // verus!
