//! Identifiers of applications: 128-bit values, written as the `uuid` crate
//! writes a UUID.

use crate::hex::hex_digit;
use vstd::arithmetic::power::pow;
use vstd::prelude::*;

verus! {

/// The hexadecimal digit of `value` at `index`, counted from the most
/// significant of its 32 digits.
pub open spec fn hex_value_at(value: u128, index: int) -> int
    recommends
        0 <= index < 32,
{
    (value as int / pow(16, (31 - index) as nat)) % 16
}

/// How many hyphens stand before the position `position` of a hyphenated
/// identifier.
pub open spec fn hyphens_before(position: int) -> int {
    if position < 8 {
        0
    } else if position < 13 {
        1
    } else if position < 18 {
        2
    } else if position < 23 {
        3
    } else {
        4
    }
}

/// `value` as a hyphenated identifier: its 32 hexadecimal digits in lower
/// case, the most significant first, in groups of 8, 4, 4, 4 and 12 with a
/// hyphen between two groups.
pub open spec fn hyphenated(value: u128) -> Seq<char> {
    Seq::new(
        36,
        |position: int|
            if position == 8 || position == 13 || position == 18 || position == 23 {
                '-'
            } else {
                hex_digit(hex_value_at(value, position - hyphens_before(position)))
            },
    )
}

/// Makes a `uuid::Uuid` of `value` with `Uuid::from_u128` and calls its
/// `Display` implementation. The contract claims that this writes the
/// hyphenated lower-case form that `hyphenated` spells out.
#[verifier::external_body]
pub(crate) fn hyphenated_text(value: u128) -> (text: String)
    ensures
        text@ == hyphenated(value),
{
    uuid::Uuid::from_u128(value).to_string()
}

} // verus!
