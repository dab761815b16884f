//! The two-valued parity classification and its basic laws.

use vstd::prelude::*;

verus! {

/// The parity of an integer: `Even` sorts before `Odd`.
#[derive(Debug, Clone, Copy, PartialEq, Eq, Structural, PartialOrd, Ord, Hash)]
pub enum Parity {
    Even,
    Odd,
}

/// The parity of a mathematical integer: `Even` exactly when it is
/// divisible by two.
pub open spec fn parity_of(n: int) -> Parity {
    if n % 2 == 0 {
        Parity::Even
    } else {
        Parity::Odd
    }
}

/// Classification is total and two-valued: every integer is `Even` exactly
/// when its remainder modulo two is zero, and `Odd` otherwise.
pub proof fn lemma_parity_total(n: int)
    ensures
        (parity_of(n) == Parity::Even) <==> (n % 2 == 0),
        (parity_of(n) == Parity::Odd) <==> (n % 2 != 0),
{
}

/// Parity does not depend on the sign of the integer.
pub proof fn lemma_parity_sign_independent(n: int)
    ensures
        parity_of(-n) == parity_of(n),
{
    assert((-n) % 2 == n % 2) by (nonlinear_arith);
}

} // verus!
