//! Current Cache Size ID Register - EL1
//!
//! Provides information about the architecture of the currently selected
//! cache.  The register has two representations: one when `FEAT_CCIDX`
//! is implemented, with wider set and associativity fields, and one
//! otherwise; each gets its own handle bound to its layout.

use vstd::prelude::*;

use crate::fields::Field;
use crate::interface::{Readable, RegisterState, Writeable};

verus! {

/// The CCSIDR_EL1 handle when `FEAT_CCIDX` is implemented: a
/// software-modeled register; the platform layer owns the
/// single-instruction hardware access.
pub struct RegWithFeatCcidx {
    bits: u64,
}

impl RegWithFeatCcidx {
    /// A handle whose modeled value is `bits`.
    pub fn new(bits: u64) -> (r: RegWithFeatCcidx)
        ensures
            r.bits_spec() == bits,
    {
        RegWithFeatCcidx { bits }
    }

    /// Number of sets in cache: a value of 0 indicates 1 set, and the
    /// number does not necessarily have to be a power of 2.
    pub fn num_sets() -> (f: Field)
        ensures
            f.offset == 32,
            f.width == 24,
            f.wf(),
    {
        Field::new(32, 24)
    }

    /// Associativity of cache: a value of 0 indicates an associativity
    /// of 1, and the value does not necessarily have to be a power of 2.
    pub fn associativity() -> (f: Field)
        ensures
            f.offset == 3,
            f.width == 21,
            f.wf(),
    {
        Field::new(3, 21)
    }

    /// Log2(number of bytes in cache line) - 4: 0 means the minimum line
    /// length of 16 bytes, 1 means 32 bytes.
    pub fn line_size() -> (f: Field)
        ensures
            f.offset == 0,
            f.width == 3,
            f.wf(),
    {
        Field::new(0, 3)
    }
}

impl RegisterState for RegWithFeatCcidx {
    closed spec fn bits_spec(&self) -> u64 {
        self.bits
    }
}

impl Readable for RegWithFeatCcidx {
    fn read_raw(&self) -> u64 {
        self.bits
    }
}

impl Writeable for RegWithFeatCcidx {
    fn write_raw(&mut self, bits: u64) {
        self.bits = bits;
    }
}

/// The CCSIDR_EL1 handle when `FEAT_CCIDX` is not implemented: a
/// software-modeled register; the platform layer owns the
/// single-instruction hardware access.
pub struct Reg {
    bits: u64,
}

impl Reg {
    /// A handle whose modeled value is `bits`.
    pub fn new(bits: u64) -> (r: Reg)
        ensures
            r.bits_spec() == bits,
    {
        Reg { bits }
    }

    /// Number of sets in cache: a value of 0 indicates 1 set, and the
    /// number does not necessarily have to be a power of 2.
    pub fn num_sets() -> (f: Field)
        ensures
            f.offset == 13,
            f.width == 15,
            f.wf(),
    {
        Field::new(13, 15)
    }

    /// Associativity of cache: a value of 0 indicates an associativity
    /// of 1, and the value does not necessarily have to be a power of 2.
    pub fn associativity() -> (f: Field)
        ensures
            f.offset == 3,
            f.width == 10,
            f.wf(),
    {
        Field::new(3, 10)
    }

    /// Log2(number of bytes in cache line) - 4: 0 means the minimum line
    /// length of 16 bytes, 1 means 32 bytes.
    pub fn line_size() -> (f: Field)
        ensures
            f.offset == 0,
            f.width == 3,
            f.wf(),
    {
        Field::new(0, 3)
    }
}

impl RegisterState for Reg {
    closed spec fn bits_spec(&self) -> u64 {
        self.bits
    }
}

impl Readable for Reg {
    fn read_raw(&self) -> u64 {
        self.bits
    }
}

impl Writeable for Reg {
    fn write_raw(&mut self, bits: u64) {
        self.bits = bits;
    }
}

} // verus!
