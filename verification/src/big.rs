//! Parity mapping for arbitrary-precision integers. The divisibility test
//! itself is delegated to an external big-integer library; everything
//! around it is verified against the digit sequence's mathematical value.

use vstd::prelude::*;
use crate::mapper::ParityMap;
use crate::parity::{Parity, lemma_parity_sign_independent};

verus! {

/// The mathematical value of a magnitude written in base 2^32 digits,
/// ordered least significant digit first.
pub open spec fn digits_value(ds: Seq<u32>) -> int
    decreases ds.len(),
{
    if ds.len() == 0 {
        0
    } else {
        ds[0] + 0x1_0000_0000 * digits_value(ds.skip(1))
    }
}

/// Relies on num::BigUint::new, which reads its argument as base 2^32
/// digits ordered least significant digit first, and on num::Integer::is_even
/// for num::BigUint, which returns whether the number is divisible by two.
#[verifier::external_body]
fn magnitude_is_even(digits: &Vec<u32>) -> (r: bool)
    ensures
        r == (digits_value(digits@) % 2 == 0),
{
    num::Integer::is_even(&num::BigUint::new(digits.clone()))
}

/// A signed arbitrary-precision integer: a magnitude written in base 2^32
/// digits, least significant digit first, and a sign. Every combination of
/// sign and digits denotes a value, so the type carries no invariant.
#[derive(Debug, Clone, PartialEq, Eq)]
pub struct BigValue {
    /// Whether the denoted value is the negation of the magnitude.
    pub negative: bool,
    /// The magnitude's base 2^32 digits, least significant first.
    pub digits: Vec<u32>,
}

impl ParityMap for BigValue {
    open spec fn value(self) -> int {
        if self.negative {
            -digits_value(self.digits@)
        } else {
            digits_value(self.digits@)
        }
    }

    fn classify(&self) -> (p: Parity) {
        let even = magnitude_is_even(&self.digits);
        proof {
            lemma_parity_sign_independent(digits_value(self.digits@));
        }
        if even {
            Parity::Even
        } else {
            Parity::Odd
        }
    }
}

} // verus!
