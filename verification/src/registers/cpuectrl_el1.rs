//! CPU Extended Control Register - EL1
//!
//! Provides additional implementation-defined configuration and control
//! options for the core.

use vstd::prelude::*;

use crate::fields::Field;
use crate::interface::{Readable, RegisterState, Writeable};

verus! {

/// The CPUECTRL_EL1 handle: a software-modeled register; the platform layer
/// owns the single-instruction hardware access.
pub struct Reg {
    bits: u64,
}

impl Reg {
    /// A handle whose modeled value is `bits`.
    pub fn new(bits: u64) -> (r: Reg)
        ensures
            r.bits_spec() == bits,
    {
        Reg { bits }
    }

    /// Branch prediction structure invalidation: writing 1 invalidates all entries from branch predictors; reads as 0.
    pub fn gbpp() -> (f: Field)
        ensures
            f.offset == 63,
            f.width == 1,
            f.wf(),
    {
        Field::new(63, 1)
    }

    /// Threshold for direct stream to L4 cache on store: 512KB, 1024KB, 2048KB, or stream disabled.
    pub fn l4_stream() -> (f: Field)
        ensures
            f.offset == 22,
            f.width == 2,
            f.wf(),
    {
        Field::new(22, 2)
    }

    /// Threshold for direct stream to L3 cache on store: 64KB, 256KB, 512KB, or stream disabled.
    pub fn l3_stream() -> (f: Field)
        ensures
            f.offset == 20,
            f.width == 2,
            f.wf(),
    {
        Field::new(20, 2)
    }

    /// Threshold for direct stream to L2 cache on store: 16KB, 64KB, 128KB, or stream disabled.
    pub fn l2_stream() -> (f: Field)
        ensures
            f.offset == 18,
            f.width == 2,
            f.wf(),
    {
        Field::new(18, 2)
    }

    /// Enables L3 prefetch requests sent by the stride prefetcher.
    pub fn l3pf() -> (f: Field)
        ensures
            f.offset == 10,
            f.width == 1,
            f.wf(),
    {
        Field::new(10, 1)
    }

    /// Enables L2 prefetch requests sent by the stride prefetcher.
    pub fn l2pf() -> (f: Field)
        ensures
            f.offset == 9,
            f.width == 1,
            f.wf(),
    {
        Field::new(9, 1)
    }

    /// Enables L1 prefetch requests sent by the stride prefetcher.
    pub fn l1pf() -> (f: Field)
        ensures
            f.offset == 8,
            f.width == 1,
            f.wf(),
    {
        Field::new(8, 1)
    }

    /// Enables L2 region prefetch requests.
    pub fn rpf() -> (f: Field)
        ensures
            f.offset == 7,
            f.width == 1,
            f.wf(),
    {
        Field::new(7, 1)
    }

    /// Enables MMU prefetch requests.
    pub fn mmupf() -> (f: Field)
        ensures
            f.offset == 6,
            f.width == 1,
            f.wf(),
    {
        Field::new(6, 1)
    }

    /// L2 region prefetcher aggressiveness: 1 for a shorter learning phase.
    pub fn rpf_aggro() -> (f: Field)
        ensures
            f.offset == 5,
            f.width == 1,
            f.wf(),
    {
        Field::new(5, 1)
    }

    /// Signals Cacheable Exclusive Loads on the internal interface between the core and the DSU.
    pub fn rnsd_excl() -> (f: Field)
        ensures
            f.offset == 1,
            f.width == 1,
            f.wf(),
    {
        Field::new(1, 1)
    }

    /// External last-level cache indicator.
    pub fn extllc() -> (f: Field)
        ensures
            f.offset == 0,
            f.width == 1,
            f.wf(),
    {
        Field::new(0, 1)
    }
}

impl RegisterState for Reg {
    closed spec fn bits_spec(&self) -> u64 {
        self.bits
    }
}

impl Readable for Reg {
    fn read_raw(&self) -> u64 {
        self.bits
    }
}

impl Writeable for Reg {
    fn write_raw(&mut self, bits: u64) {
        self.bits = bits;
    }
}

} // verus!
