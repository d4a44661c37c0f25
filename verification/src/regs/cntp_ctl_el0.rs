//! Counter-timer Physical Timer Control register - EL0
//!
//! Control register for the EL1 physical timer.

use vstd::prelude::*;

use crate::fields::Field;
use crate::interface::{Readable, RegisterState, Writeable};

verus! {

/// The CNTP_CTL_EL0 handle: a software-modeled register; the platform layer
/// owns the single-instruction hardware access.
pub struct Reg {
    bits: u64,
}

impl Reg {
    /// A handle whose modeled value is `bits`.
    pub fn new(bits: u64) -> (r: Reg)
        ensures
            r.bits_spec() == bits,
    {
        Reg { bits }
    }

    /// Enables the timer: 0 timer disabled, 1 timer enabled.
    pub fn enable() -> (f: Field)
        ensures
            f.offset == 0,
            f.width == 1,
            f.wf(),
    {
        Field::new(0, 1)
    }

    /// Timer interrupt mask bit: 1 masks the timer interrupt.
    pub fn imask() -> (f: Field)
        ensures
            f.offset == 1,
            f.width == 1,
            f.wf(),
    {
        Field::new(1, 1)
    }

    /// The status of the timer: 1 when the timer condition is met.
    pub fn istatus() -> (f: Field)
        ensures
            f.offset == 2,
            f.width == 1,
            f.wf(),
    {
        Field::new(2, 1)
    }
}

impl RegisterState for Reg {
    closed spec fn bits_spec(&self) -> u64 {
        self.bits
    }
}

impl Readable for Reg {
    fn read_raw(&self) -> u64 {
        self.bits
    }
}

impl Writeable for Reg {
    fn write_raw(&mut self, bits: u64) {
        self.bits = bits;
    }
}

} // verus!
