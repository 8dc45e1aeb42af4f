//! A small library of interchangeable 8-bit checksums: a wrapping sum, an XOR
//! accumulator and a table-driven CRC-8, all behind the `Check8` trait.
use vstd::prelude::*;
use vstd::utf8::encode_utf8;

mod check8crc;
mod check8sum;
mod check8xor;

pub use crate::check8crc::Check8Crc;
pub use crate::check8sum::Check8Sum;
pub use crate::check8xor::Check8Xor;

verus! {

/// The register left after feeding `bytes`, first to last, into register `acc`
/// with the update rule `rule`.
pub open spec fn fold_bytes(rule: spec_fn(u8, u8) -> u8, acc: u8, bytes: Seq<u8>) -> u8
    decreases bytes.len(),
{
    if bytes.len() == 0 {
        acc
    } else {
        rule(fold_bytes(rule, acc, bytes.drop_last()), bytes.last())
    }
}

/// An 8-bit checksum: one register and an update rule applied once per byte.
///
/// `accum` is the register; `rule` maps a register and an incoming byte to the
/// next register. No operation changes the rule of a checksum.
pub trait Check8 {
    /// The current register.
    spec fn accum(&self) -> u8;

    /// The update rule: `rule()(acc, val)` is the register after `val` is fed
    /// into register `acc`.
    spec fn rule(&self) -> spec_fn(u8, u8) -> u8;

    /// Reads the register.
    fn get_accum(&self) -> (r: u8)
        ensures
            r == self.accum(),
    ;

    /// Sets the register to `val` and returns it.
    fn init(&mut self, val: u8) -> (r: u8)
        ensures
            r == val,
            final(self).accum() == val,
            final(self).rule() == old(self).rule(),
    ;

    /// Feeds one byte and returns the new register.
    fn add(&mut self, val: u8) -> (r: u8)
        ensures
            r == (old(self).rule())(old(self).accum(), val),
            final(self).accum() == r,
            final(self).rule() == old(self).rule(),
    ;

    /// Feeds every byte of `array` in order, without resetting the register
    /// first, and returns the final register.
    fn calculate_from_byte_array(&mut self, array: &[u8]) -> (r: u8)
        ensures
            r == fold_bytes(old(self).rule(), old(self).accum(), array@),
            final(self).accum() == r,
            final(self).rule() == old(self).rule(),
    {
        let n = array.len();
        let mut i: usize = 0;
        while i < n
            invariant
                n == array@.len(),
                i <= n,
                self.rule() == old(self).rule(),
                self.accum() == fold_bytes(old(self).rule(), old(self).accum(), array@.take(
                    i as int,
                )),
            decreases n - i,
        {
            self.add(array[i]);
            assert(array@.take(i + 1).drop_last() =~= array@.take(i as int));
            i += 1;
        }
        assert(array@.take(n as int) =~= array@);
        self.get_accum()
    }

    /// Feeds the UTF-8 encoding of `string`, byte by byte, and returns the
    /// final register.
    fn calculate_from_string(&mut self, string: &str) -> (r: u8)
        ensures
            r == fold_bytes(old(self).rule(), old(self).accum(), encode_utf8(string@)),
            final(self).accum() == r,
            final(self).rule() == old(self).rule(),
    {
        self.calculate_from_byte_array(string.as_bytes())
    }
}

/// Two bulk feeds compose: feeding `a` and then, from the register that left,
/// feeding `b` ends in the same register as feeding `a + b` at once.
pub proof fn lemma_fold_bytes_concat<C: Check8>(c: &C, a: Seq<u8>, b: Seq<u8>)
    ensures
        fold_bytes(c.rule(), fold_bytes(c.rule(), c.accum(), a), b) == fold_bytes(
            c.rule(),
            c.accum(),
            a + b,
        ),
    decreases b.len(),
{
    if b.len() == 0 {
        assert(a + b =~= a);
    } else {
        lemma_fold_bytes_concat(c, a, b.drop_last());
        assert((a + b).drop_last() =~= a + b.drop_last());
        assert((a + b).last() == b.last());
    }
}

/// From a zero register, feeding one byte leaves that byte as the register,
/// for the sum and for the XOR checksum.
pub proof fn lemma_zero_register_takes_byte(s: &Check8Sum, x: &Check8Xor, b: u8)
    ensures
        (s.rule())(0, b) == b,
        (x.rule())(0, b) == b,
{
    assert(0u8 ^ b == b) by (bit_vector);
}

/// XOR is its own inverse: from a zero register, feeding the same byte twice
/// brings the XOR checksum back to zero.
pub proof fn lemma_xor_twice_cancels(x: &Check8Xor, b: u8)
    ensures
        (x.rule())((x.rule())(0, b), b) == 0,
{
    assert((0u8 ^ b) ^ b == 0) by (bit_vector);
}

} // verus!
