//! System Control Register - EL1
//!
//! Provides top level control of the system, including its memory system,
//! at EL1 and EL0.

use vstd::prelude::*;

use crate::fields::Field;
use crate::interface::{Readable, RegisterState, Writeable};

verus! {

/// The SCTLR_EL1 handle: a software-modeled register; the platform layer
/// owns the single-instruction hardware access.
pub struct Reg {
    bits: u64,
}

impl Reg {
    /// A handle whose modeled value is `bits`.
    pub fn new(bits: u64) -> (r: Reg)
        ensures
            r.bits_spec() == bits,
    {
        Reg { bits }
    }

    /// Instruction access Cacheability control, for accesses at EL0 and EL1.
    pub fn i() -> (f: Field)
        ensures
            f.offset == 12,
            f.width == 1,
            f.wf(),
    {
        Field::new(12, 1)
    }

    /// Non-aligned access: controls generation of Alignment faults at EL1 and EL0 under certain conditions.
    pub fn naa() -> (f: Field)
        ensures
            f.offset == 6,
            f.width == 1,
            f.wf(),
    {
        Field::new(6, 1)
    }

    /// SP Alignment check enable for EL0.
    pub fn sa0() -> (f: Field)
        ensures
            f.offset == 4,
            f.width == 1,
            f.wf(),
    {
        Field::new(4, 1)
    }

    /// SP Alignment check enable.
    pub fn sa() -> (f: Field)
        ensures
            f.offset == 3,
            f.width == 1,
            f.wf(),
    {
        Field::new(3, 1)
    }

    /// Cacheability control, for data accesses.
    pub fn c() -> (f: Field)
        ensures
            f.offset == 2,
            f.width == 1,
            f.wf(),
    {
        Field::new(2, 1)
    }

    /// Alignment check enable for EL1 and EL0.
    pub fn a() -> (f: Field)
        ensures
            f.offset == 1,
            f.width == 1,
            f.wf(),
    {
        Field::new(1, 1)
    }

    /// MMU enable for EL1 and EL0 stage 1 address translation.
    pub fn m() -> (f: Field)
        ensures
            f.offset == 0,
            f.width == 1,
            f.wf(),
    {
        Field::new(0, 1)
    }
}

impl RegisterState for Reg {
    closed spec fn bits_spec(&self) -> u64 {
        self.bits
    }
}

impl Readable for Reg {
    fn read_raw(&self) -> u64 {
        self.bits
    }
}

impl Writeable for Reg {
    fn write_raw(&mut self, bits: u64) {
        self.bits = bits;
    }
}

} // verus!
