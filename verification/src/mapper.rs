//! Parity-dispatched mapping: apply one of two caller-supplied functions to
//! a value, chosen by the value's parity.

use vstd::prelude::*;
use crate::parity::{Parity, parity_of};

verus! {

/// The error of a fallible two-branch mapping: exactly one branch function
/// was invoked, and this records which branch it was and the failure it
/// returned.
#[derive(Debug, Clone, PartialEq, Eq)]
pub enum CombinedError<EvenErr, OddErr> {
    EvenBranchFailed(EvenErr),
    OddBranchFailed(OddErr),
}

/// The capability of testing parity, together with mapping operations that
/// dispatch on it. Exactly one branch function is invoked per mapping call:
/// each contract constrains the invoked branch alone and leaves the value
/// untouched by the other.
pub trait ParityMap: Sized {
    /// The mathematical integer that a value stands for.
    spec fn value(self) -> int;

    /// Classifies the value as `Even` or `Odd`.
    fn classify(&self) -> (p: Parity)
        ensures
            p == parity_of(self.value()),
    ;

    /// Applies `odd_fn` to the value if it is odd, else `even_fn`.
    fn map<Odd: FnOnce(Self) -> Self, Even: FnOnce(Self) -> Self>(
        self,
        odd_fn: Odd,
        even_fn: Even,
    ) -> (r: Self)
        requires
            parity_of(self.value()) == Parity::Odd ==> odd_fn.requires((self,)),
            parity_of(self.value()) == Parity::Even ==> even_fn.requires((self,)),
        ensures
            parity_of(self.value()) == Parity::Odd ==> odd_fn.ensures((self,), r),
            parity_of(self.value()) == Parity::Even ==> even_fn.ensures((self,), r),
    {
        if let Parity::Odd = self.classify() {
            odd_fn(self)
        } else {
            even_fn(self)
        }
    }

    /// Applies `f` to the value if it is even; an odd value is returned
    /// unchanged.
    fn map_if_even<F: FnOnce(Self) -> Self>(self, f: F) -> (r: Self)
        requires
            parity_of(self.value()) == Parity::Even ==> f.requires((self,)),
        ensures
            parity_of(self.value()) == Parity::Even ==> f.ensures((self,), r),
            parity_of(self.value()) == Parity::Odd ==> r == self,
    {
        if let Parity::Even = self.classify() {
            f(self)
        } else {
            self
        }
    }

    /// Applies `f` to the value if it is odd; an even value is returned
    /// unchanged.
    fn map_if_odd<F: FnOnce(Self) -> Self>(self, f: F) -> (r: Self)
        requires
            parity_of(self.value()) == Parity::Odd ==> f.requires((self,)),
        ensures
            parity_of(self.value()) == Parity::Odd ==> f.ensures((self,), r),
            parity_of(self.value()) == Parity::Even ==> r == self,
    {
        if let Parity::Odd = self.classify() {
            f(self)
        } else {
            self
        }
    }

    /// Post-composition: maps by parity, then applies `after` to the result.
    /// The result is `after` applied to some outcome of the parity-matched
    /// branch, exactly as a call of `after` on the result of `map` would be.
    fn map_then<
        Odd: FnOnce(Self) -> Self,
        Even: FnOnce(Self) -> Self,
        After: FnOnce(Self) -> Self,
    >(self, odd_fn: Odd, even_fn: Even, after: After) -> (r: Self)
        requires
            parity_of(self.value()) == Parity::Odd ==> odd_fn.requires((self,)),
            parity_of(self.value()) == Parity::Even ==> even_fn.requires((self,)),
            forall|m: Self|
                parity_of(self.value()) == Parity::Odd && #[trigger] odd_fn.ensures(
                    (self,),
                    m,
                ) ==> after.requires((m,)),
            forall|m: Self|
                parity_of(self.value()) == Parity::Even && #[trigger] even_fn.ensures(
                    (self,),
                    m,
                ) ==> after.requires((m,)),
        ensures
            exists|m: Self|
                #[trigger] after.ensures((m,), r) && (parity_of(self.value()) == Parity::Odd
                    ==> odd_fn.ensures((self,), m)) && (parity_of(self.value()) == Parity::Even
                    ==> even_fn.ensures((self,), m)),
    {
        let m = self.map(odd_fn, even_fn);
        after(m)
    }

    /// Fallible single-branch mapping: applies `odd_fn` to the value if it
    /// is odd, surfacing that branch's failure verbatim; an even value is
    /// returned unchanged inside `Ok`.
    fn map_odd<MapOddErr, F: FnOnce(Self) -> Result<Self, MapOddErr>>(
        self,
        odd_fn: F,
    ) -> (r: Result<Self, MapOddErr>)
        requires
            parity_of(self.value()) == Parity::Odd ==> odd_fn.requires((self,)),
        ensures
            parity_of(self.value()) == Parity::Odd ==> odd_fn.ensures((self,), r),
            parity_of(self.value()) == Parity::Even ==> r == Ok::<Self, MapOddErr>(self),
    {
        if let Parity::Odd = self.classify() {
            odd_fn(self)
        } else {
            Ok(self)
        }
    }

    /// Fallible single-branch mapping: applies `even_fn` to the value if it
    /// is even, surfacing that branch's failure verbatim; an odd value is
    /// returned unchanged inside `Ok`.
    fn map_even<MapEvenErr, F: FnOnce(Self) -> Result<Self, MapEvenErr>>(
        self,
        even_fn: F,
    ) -> (r: Result<Self, MapEvenErr>)
        requires
            parity_of(self.value()) == Parity::Even ==> even_fn.requires((self,)),
        ensures
            parity_of(self.value()) == Parity::Even ==> even_fn.ensures((self,), r),
            parity_of(self.value()) == Parity::Odd ==> r == Ok::<Self, MapEvenErr>(self),
    {
        if let Parity::Even = self.classify() {
            even_fn(self)
        } else {
            Ok(self)
        }
    }

    /// Fallible two-branch mapping: applies `even_fn` to an even value and
    /// `odd_fn` to an odd one. A failure of the invoked branch is returned
    /// wrapped in the tag that identifies the branch; the other branch's
    /// error is unreachable.
    fn parity_map<
        MapEvenErr,
        MapOddErr,
        Even: FnOnce(Self) -> Result<Self, MapEvenErr>,
        Odd: FnOnce(Self) -> Result<Self, MapOddErr>,
    >(self, even_fn: Even, odd_fn: Odd) -> (r: Result<
        Self,
        CombinedError<MapEvenErr, MapOddErr>,
    >)
        requires
            parity_of(self.value()) == Parity::Even ==> even_fn.requires((self,)),
            parity_of(self.value()) == Parity::Odd ==> odd_fn.requires((self,)),
        ensures
            parity_of(self.value()) == Parity::Even ==> (match r {
                Ok(v) => even_fn.ensures((self,), Ok(v)),
                Err(CombinedError::EvenBranchFailed(e)) => even_fn.ensures((self,), Err(e)),
                Err(CombinedError::OddBranchFailed(_)) => false,
            }),
            parity_of(self.value()) == Parity::Odd ==> (match r {
                Ok(v) => odd_fn.ensures((self,), Ok(v)),
                Err(CombinedError::OddBranchFailed(e)) => odd_fn.ensures((self,), Err(e)),
                Err(CombinedError::EvenBranchFailed(_)) => false,
            }),
    {
        if let Parity::Even = self.classify() {
            match even_fn(self) {
                Ok(v) => Ok(v),
                Err(e) => Err(CombinedError::EvenBranchFailed(e)),
            }
        } else {
            match odd_fn(self) {
                Ok(v) => Ok(v),
                Err(e) => Err(CombinedError::OddBranchFailed(e)),
            }
        }
    }
}

} // verus!
