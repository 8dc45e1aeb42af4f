//! The table-driven CRC-8 checksum: MSB first, not reflected, no final XOR.
use vstd::prelude::*;

use crate::fold_bytes;
use crate::Check8;

verus! {

/// One step of polynomial division over GF(2): shift the register left one
/// bit, and XOR in `poly` when the bit shifted out was set.
pub open spec fn crc8_shift(poly: u8, crc: u8) -> u8 {
    if crc & 0x80 != 0 {
        ((crc << 1u8) ^ poly) as u8
    } else {
        (crc << 1u8) as u8
    }
}

/// The register after `n` division steps from `crc`.
pub open spec fn crc8_shifts(poly: u8, crc: u8, n: nat) -> u8
    decreases n,
{
    if n == 0 {
        crc
    } else {
        crc8_shift(poly, crc8_shifts(poly, crc, (n - 1) as nat))
    }
}

/// The table entry for byte `b`: the register after eight division steps from `b`.
pub open spec fn crc8_table_entry(poly: u8, b: u8) -> u8 {
    crc8_shifts(poly, b, 8)
}

/// Whether `table` holds, at each index `b`, the entry for `b` under `poly`.
pub open spec fn is_crc8_table(poly: u8, table: Seq<u8>) -> bool {
    &&& table.len() == 256
    &&& forall|b: int| 0 <= b < 256 ==> #[trigger] table[b] == crc8_table_entry(poly, b as u8)
}

/// The CRC-8 update rule under `poly`: the next register is the table entry
/// for the register XOR the incoming byte.
pub open spec fn crc8_rule(poly: u8) -> spec_fn(u8, u8) -> u8 {
    |acc: u8, val: u8| crc8_table_entry(poly, acc ^ val)
}

/// A CRC-8 checksum with a lookup table built once from its polynomial.
pub struct Check8Crc {
    accum: u8,
    table: [u8; 256],
    poly: Ghost<u8>,
}

impl Check8Crc {
    #[verifier::type_invariant]
    spec fn table_matches_poly(self) -> bool {
        is_crc8_table(self.poly@, self.table@)
    }

    /// The generator polynomial this checksum was built with.
    pub closed spec fn polynomial(&self) -> u8 {
        self.poly@
    }

    /// Builds the lookup table for `poly`.
    pub fn generate_table(poly: u8) -> (table: [u8; 256])
        ensures
            is_crc8_table(poly, table@),
    {
        let mut table = [0u8; 256];
        let mut i: usize = 0;
        while i < 256
            invariant
                i <= 256,
                table@.len() == 256,
                forall|b: int| 0 <= b < i ==> #[trigger] table@[b] == crc8_table_entry(poly, b as u8),
            decreases 256 - i,
        {
            let mut crc: u8 = i as u8;
            let mut j: usize = 0;
            while j < 8
                invariant
                    j <= 8,
                    crc == crc8_shifts(poly, i as u8, j as nat),
                decreases 8 - j,
            {
                if (crc & 0x80) != 0 {
                    crc = (crc << 1u8) ^ poly;
                } else {
                    crc = crc << 1u8;
                }
                j += 1;
            }
            table[i] = crc;
            i += 1;
        }
        table
    }

    /// A CRC-8 checksum for `poly`, with its register at zero.
    pub fn new(poly: u8) -> (r: Self)
        ensures
            r.polynomial() == poly,
            r.accum() == 0,
    {
        Check8Crc { accum: 0, table: Self::generate_table(poly), poly: Ghost(poly) }
    }
}

impl Check8 for Check8Crc {
    closed spec fn accum(&self) -> u8 {
        self.accum
    }

    open spec fn rule(&self) -> spec_fn(u8, u8) -> u8 {
        crc8_rule(self.polynomial())
    }

    fn get_accum(&self) -> (r: u8) {
        self.accum
    }

    fn init(&mut self, val: u8) -> (r: u8) {
        proof {
            use_type_invariant(&*self);
        }
        self.accum = val;
        self.accum
    }

    fn add(&mut self, val: u8) -> (r: u8) {
        proof {
            use_type_invariant(&*self);
        }
        self.accum = self.table[(self.accum ^ val) as usize];
        self.accum
    }
}

/// The lookup table is a function of the polynomial alone: two tables built
/// for the same polynomial are identical.
pub proof fn lemma_table_determined_by_poly(poly: u8, t1: Seq<u8>, t2: Seq<u8>)
    requires
        is_crc8_table(poly, t1),
        is_crc8_table(poly, t2),
    ensures
        t1 == t2,
{
    assert(t1 =~= t2);
}

/// Two CRC-8 checksums with the same polynomial and the same register, fed the
/// same bytes, end in the same register.
pub proof fn lemma_crc_reproducible(e1: &Check8Crc, e2: &Check8Crc, bytes: Seq<u8>)
    requires
        e1.polynomial() == e2.polynomial(),
        e1.accum() == e2.accum(),
    ensures
        fold_bytes(e1.rule(), e1.accum(), bytes) == fold_bytes(e2.rule(), e2.accum(), bytes),
{
}

} // verus!
