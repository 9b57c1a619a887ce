//! A single stored 256-bit number with wrapping arithmetic.
use vstd::prelude::*;

use crate::uint::{modulus, U256};

verus! {

/// A stored number.
pub struct Counter {
    number: U256,
}

impl View for Counter {
    type V = nat;

    closed spec fn view(&self) -> nat {
        self.number.value()
    }
}

impl Counter {
    /// A counter holding zero.
    pub fn new() -> (r: Counter)
        ensures
            r@ == 0,
    {
        Counter { number: U256::zero() }
    }

    /// The stored number.
    pub fn number(&self) -> (r: U256)
        ensures
            r.value() == self@,
    {
        self.number
    }

    /// Replaces the stored number.
    pub fn set_number(&mut self, new_number: U256)
        ensures
            final(self)@ == new_number.value(),
    {
        self.number = new_number;
    }

    /// Multiplies the stored number by `new_number`, modulo 2^256.
    pub fn mul_number(&mut self, new_number: U256)
        ensures
            final(self)@ == (new_number.value() * old(self)@) % modulus(),
    {
        self.number = new_number.wrapping_mul(self.number);
    }

    /// Adds `new_number` to the stored number, modulo 2^256.
    pub fn add_number(&mut self, new_number: U256)
        ensures
            final(self)@ == (new_number.value() + old(self)@) % modulus(),
    {
        self.number = new_number.wrapping_add(self.number);
    }

    /// Adds one to the stored number, modulo 2^256.
    pub fn increment(&mut self)
        ensures
            final(self)@ == (old(self)@ + 1) % modulus(),
    {
        let number = self.number;
        self.set_number(number.wrapping_add(U256::from_u64(1)));
    }
}

} // verus!
