//! Stack Pointer Select
//!
//! Allows the Stack Pointer to be selected between SP_EL0 and SP_ELx.

use vstd::prelude::*;

use crate::fields::Field;
use crate::interface::{Readable, RegisterState, Writeable};

verus! {

/// The SPSel handle: a software-modeled register; the platform layer
/// owns the single-instruction hardware access.
pub struct Reg {
    bits: u64,
}

impl Reg {
    /// A handle whose modeled value is `bits`.
    pub fn new(bits: u64) -> (r: Reg)
        ensures
            r.bits_spec() == bits,
    {
        Reg { bits }
    }

    /// Stack pointer to use: 0 selects SP_EL0 at all Exception levels, 1
    /// selects SP_ELx for Exception level ELx.
    pub fn sp() -> (f: Field)
        ensures
            f.offset == 0,
            f.width == 1,
            f.wf(),
    {
        Field::new(0, 1)
    }

    /// The declared variants of the SP field, in declaration order:
    /// EL0, ELx.
    pub fn sp_variants() -> (v: Vec<u64>)
        ensures
            v@ == seq![0u64, 1],
    {
        let v: Vec<u64> = vec![0u64, 1];
        proof {
            assert(v@ =~= seq![0u64, 1]);
        }
        v
    }
}

impl RegisterState for Reg {
    closed spec fn bits_spec(&self) -> u64 {
        self.bits
    }
}

impl Readable for Reg {
    fn read_raw(&self) -> u64 {
        self.bits
    }
}

impl Writeable for Reg {
    fn write_raw(&mut self, bits: u64) {
        self.bits = bits;
    }
}

} // verus!
