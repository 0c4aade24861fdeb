//! Hexadecimal digits.

use vstd::prelude::*;

verus! {

/// The lower-case hexadecimal digit for `value`, which is below 16.
pub open spec fn hex_digit(value: int) -> char
    recommends
        0 <= value < 16,
{
    seq!['0', '1', '2', '3', '4', '5', '6', '7', '8', '9', 'a', 'b', 'c', 'd', 'e', 'f'][value]
}

} // verus!
