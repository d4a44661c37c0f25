//! Auxiliary Control Register - EL3
//!
//! Provides implementation-defined configuration and control options for
//! execution at EL3.

use vstd::prelude::*;

use crate::interface::{Readable, RegisterState, Writeable};

verus! {

/// The ACTLR_EL3 handle: a software-modeled register; the platform layer
/// owns the single-instruction hardware access.
pub struct Reg {
    bits: u64,
}

impl Reg {
    /// A handle whose modeled value is `bits`.
    pub fn new(bits: u64) -> (r: Reg)
        ensures
            r.bits_spec() == bits,
    {
        Reg { bits }
    }
}

impl RegisterState for Reg {
    closed spec fn bits_spec(&self) -> u64 {
        self.bits
    }
}

impl Readable for Reg {
    fn read_raw(&self) -> u64 {
        self.bits
    }
}

impl Writeable for Reg {
    fn write_raw(&mut self, bits: u64) {
        self.bits = bits;
    }
}

} // verus!
