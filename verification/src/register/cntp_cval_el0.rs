//! Counter-timer Physical Timer CompareValue register - EL0
//!
//! Holds the compare value for the EL1 physical timer.

use vstd::prelude::*;

use crate::interface::{Readable, RegisterState, Writeable};

verus! {

/// The CNTP_CVAL_EL0 handle: a software-modeled register; the platform
/// layer owns the single-instruction hardware access.
#[allow(non_camel_case_types)]
pub struct CNTP_CVAL_EL0 {
    bits: u64,
}

impl CNTP_CVAL_EL0 {
    /// A handle whose modeled value is `bits`.
    pub fn new(bits: u64) -> (r: CNTP_CVAL_EL0)
        ensures
            r.bits_spec() == bits,
    {
        CNTP_CVAL_EL0 { bits }
    }
}

impl RegisterState for CNTP_CVAL_EL0 {
    closed spec fn bits_spec(&self) -> u64 {
        self.bits
    }
}

impl Readable for CNTP_CVAL_EL0 {
    fn read_raw(&self) -> u64 {
        self.bits
    }
}

impl Writeable for CNTP_CVAL_EL0 {
    fn write_raw(&mut self, bits: u64) {
        self.bits = bits;
    }
}

} // verus!
