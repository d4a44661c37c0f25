//! Counter-timer Frequency register - EL0
//!
//! Software discovers the frequency of the system counter here.

use vstd::prelude::*;

use crate::interface::{Readable, RegisterState};

verus! {

/// The CNTFRQ_EL0 handle: a software-modeled register; the platform
/// layer owns the single-instruction hardware access.
#[allow(non_camel_case_types)]
pub struct CNTFRQ_EL0 {
    bits: u64,
}

impl CNTFRQ_EL0 {
    /// A handle whose modeled value is `bits`.
    pub fn new(bits: u64) -> (r: CNTFRQ_EL0)
        ensures
            r.bits_spec() == bits,
    {
        CNTFRQ_EL0 { bits }
    }
}

impl RegisterState for CNTFRQ_EL0 {
    closed spec fn bits_spec(&self) -> u64 {
        self.bits
    }
}

impl Readable for CNTFRQ_EL0 {
    fn read_raw(&self) -> u64 {
        self.bits
    }
}

} // verus!
