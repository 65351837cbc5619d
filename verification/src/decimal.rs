//! Decimal rendering of a count, for the end-of-run summary line.

use vstd::prelude::*;

use crate::hex::{hex_digit_char, spec_hex_digit_char};

verus! {

/// The decimal digit string of a number: most significant digit first, no
/// leading zeros (a single `'0'` for zero).
pub open spec fn spec_decimal(n: nat) -> Seq<char>
    decreases n,
{
    if n < 10 {
        seq![spec_hex_digit_char(n as u8)]
    } else {
        spec_decimal(n / 10) + seq![spec_hex_digit_char((n % 10) as u8)]
    }
}

/// Renders a number in decimal.
pub fn decimal_string(n: usize) -> (r: String)
    ensures
        r@ == spec_decimal(n as nat),
    decreases n,
{
    if n < 10 {
        let mut r = String::new();
        crate::hex::push_char(&mut r, hex_digit_char(n as u8));
        proof {
            assert(r@ =~= spec_decimal(n as nat));
        }
        r
    } else {
        let mut r = decimal_string(n / 10);
        crate::hex::push_char(&mut r, hex_digit_char((n % 10) as u8));
        proof {
            assert(r@ =~= spec_decimal(n as nat));
        }
        r
    }
}

} // verus!
