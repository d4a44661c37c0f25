//! Counter-timer Physical Count register - EL0
//!
//! Holds the 64-bit physical count value.

use vstd::prelude::*;

use crate::interface::{Readable, RegisterState};

verus! {

/// The CNTPCT_EL0 handle: a software-modeled register; the platform layer
/// owns the single-instruction hardware access.
pub struct Reg {
    bits: u64,
}

impl Reg {
    /// A handle whose modeled value is `bits`.
    pub fn new(bits: u64) -> (r: Reg)
        ensures
            r.bits_spec() == bits,
    {
        Reg { bits }
    }
}

impl RegisterState for Reg {
    closed spec fn bits_spec(&self) -> u64 {
        self.bits
    }
}

impl Readable for Reg {
    fn read_raw(&self) -> u64 {
        self.bits
    }
}

} // verus!
