//! The XOR checksum.
use vstd::prelude::*;

use crate::fold_bytes;
use crate::Check8;

verus! {

/// A checksum whose register is the XOR of its bytes.
pub struct Check8Xor {
    accum: u8,
}

impl Check8Xor {
    /// An XOR checksum whose register starts at zero.
    pub fn new() -> (r: Self)
        ensures
            r.accum() == 0,
    {
        Check8Xor { accum: 0 }
    }
}

impl Check8 for Check8Xor {
    closed spec fn accum(&self) -> u8 {
        self.accum
    }

    open spec fn rule(&self) -> spec_fn(u8, u8) -> u8 {
        |acc: u8, val: u8| acc ^ val
    }

    fn get_accum(&self) -> (r: u8) {
        self.accum
    }

    fn init(&mut self, val: u8) -> (r: u8) {
        self.accum = val;
        self.accum
    }

    fn add(&mut self, val: u8) -> (r: u8) {
        self.accum = self.accum ^ val;
        self.accum
    }

    fn calculate_from_byte_array(&mut self, array: &[u8]) -> (r: u8) {
        let n = array.len();
        let mut i: usize = 0;
        while i < n
            invariant
                n == array@.len(),
                i <= n,
                self.accum() == fold_bytes(old(self).rule(), old(self).accum(), array@.take(
                    i as int,
                )),
            decreases n - i,
        {
            self.add(array[i]);
            assert(array@.take(i + 1).drop_last() =~= array@.take(i as int));
            i += 1;
        }
        assert(array@.take(n as int) =~= array@);
        self.accum
    }

    fn calculate_from_string(&mut self, string: &str) -> (r: u8) {
        self.calculate_from_byte_array(string.as_bytes())
    }
}

} // verus!
