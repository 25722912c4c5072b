//! Utilities for formatting/printing

use crate::collections::address_map::Address;
use crate::text::{decimal_text, to_decimal};
use vstd::prelude::*;

verus! {

/// The lowercase hexadecimal digit for a number below sixteen.
pub open spec fn hex_digit(n: int) -> char {
    if n < 10 {
        (('0' as u8) + n) as char
    } else {
        (('a' as u8) + (n - 10)) as char
    }
}

/// The sixteen digits are `0` to `9` and `a` to `f`.
pub proof fn lemma_hex_digits()
    ensures
        hex_digit(0) == '0',
        hex_digit(9) == '9',
        hex_digit(10) == 'a',
        hex_digit(15) == 'f',
{
}

/// The bytes written in lowercase hexadecimal, two digits for each byte,
/// the upper half first.
pub open spec fn hex_text(bytes: Seq<u8>) -> Seq<char> {
    Seq::new(
        2 * bytes.len(),
        |i: int|
            if i % 2 == 0 {
                hex_digit(bytes[i / 2] as int / 16)
            } else {
                hex_digit(bytes[i / 2] as int % 16)
            },
    )
}

/// Calls `hex::encode`. Believed, not proved: the result writes each byte
/// as two lowercase hexadecimal digits, in order.
#[verifier::external_body]
fn hex_encode(bytes: &[u8]) -> (text: String)
    ensures
        text@ == hex_text(bytes@),
{
    hex::encode(bytes)
}

/// Format an address as a hexadecimal string: `0x`, then the thirty-two
/// bytes in lowercase hexadecimal.
pub fn format_address(address: &Address) -> (text: String)
    ensures
        text@ == "0x"@ + hex_text(address@),
{
    let mut text = String::new();
    text.append("0x");
    text.append(hex_encode(address.as_slice()).as_str());
    assert(text@ =~= "0x"@ + hex_text(address@));
    text
}

/// Format an amount with token symbol: the amount in decimal, a space, the
/// symbol.
pub fn format_amount(amount: u64, symbol: &str) -> (text: String)
    ensures
        text@ == decimal_text(amount as nat) + " "@ + symbol@,
{
    let mut text = to_decimal(amount);
    text.append(" ");
    text.append(symbol);
    text
}

} // verus!
