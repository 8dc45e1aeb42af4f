//! The wrapping arithmetic sum checksum.
use vstd::prelude::*;

use crate::Check8;

verus! {

/// The sum of `acc` and `val` modulo 256.
pub open spec fn sum8(acc: u8, val: u8) -> u8 {
    ((acc + val) % 256) as u8
}

/// A checksum whose register is the sum of its bytes modulo 256.
pub struct Check8Sum {
    accum: u8,
}

impl Check8Sum {
    /// A sum checksum whose register starts at `initial`.
    pub fn new(initial: u8) -> (r: Self)
        ensures
            r.accum() == initial,
    {
        Check8Sum { accum: initial }
    }
}

impl Check8 for Check8Sum {
    closed spec fn accum(&self) -> u8 {
        self.accum
    }

    open spec fn rule(&self) -> spec_fn(u8, u8) -> u8 {
        |acc: u8, val: u8| sum8(acc, val)
    }

    fn get_accum(&self) -> (r: u8) {
        self.accum
    }

    fn init(&mut self, val: u8) -> (r: u8) {
        self.accum = val;
        self.accum
    }

    fn add(&mut self, val: u8) -> (r: u8) {
        self.accum = self.accum.wrapping_add(val);
        self.accum
    }
}

} // verus!
