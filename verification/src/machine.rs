//! Parity mapping for the native fixed-width integer types.

use vstd::prelude::*;
use crate::mapper::ParityMap;
use crate::parity::Parity;

verus! {

impl ParityMap for u32 {
    open spec fn value(self) -> int {
        self as int
    }

    fn classify(&self) -> (p: Parity) {
        if *self % 2 == 0 {
            Parity::Even
        } else {
            Parity::Odd
        }
    }
}

impl ParityMap for i32 {
    open spec fn value(self) -> int {
        self as int
    }

    fn classify(&self) -> (p: Parity) {
        if *self % 2 == 0 {
            Parity::Even
        } else {
            Parity::Odd
        }
    }
}

impl ParityMap for usize {
    open spec fn value(self) -> int {
        self as int
    }

    fn classify(&self) -> (p: Parity) {
        if *self % 2 == 0 {
            Parity::Even
        } else {
            Parity::Odd
        }
    }
}

impl ParityMap for isize {
    open spec fn value(self) -> int {
        self as int
    }

    fn classify(&self) -> (p: Parity) {
        if *self % 2 == 0 {
            Parity::Even
        } else {
            Parity::Odd
        }
    }
}

impl ParityMap for u64 {
    open spec fn value(self) -> int {
        self as int
    }

    fn classify(&self) -> (p: Parity) {
        if *self % 2 == 0 {
            Parity::Even
        } else {
            Parity::Odd
        }
    }
}

impl ParityMap for i64 {
    open spec fn value(self) -> int {
        self as int
    }

    fn classify(&self) -> (p: Parity) {
        if *self % 2 == 0 {
            Parity::Even
        } else {
            Parity::Odd
        }
    }
}

impl ParityMap for u128 {
    open spec fn value(self) -> int {
        self as int
    }

    fn classify(&self) -> (p: Parity) {
        if *self % 2 == 0 {
            Parity::Even
        } else {
            Parity::Odd
        }
    }
}

impl ParityMap for i128 {
    open spec fn value(self) -> int {
        self as int
    }

    fn classify(&self) -> (p: Parity) {
        if *self % 2 == 0 {
            Parity::Even
        } else {
            Parity::Odd
        }
    }
}

} // verus!
