//! Multiprocessor Affinity Register - EL1
//!
//! The processor and cluster IDs, in multi-core or cluster systems.

use vstd::prelude::*;

use crate::interface::{Readable, RegisterState};

verus! {

/// The MPIDR_EL1 handle: a software-modeled register; the platform
/// layer owns the single-instruction hardware access.
#[allow(non_camel_case_types)]
pub struct MPIDR_EL1 {
    bits: u64,
}

impl MPIDR_EL1 {
    /// A handle whose modeled value is `bits`.
    pub fn new(bits: u64) -> (r: MPIDR_EL1)
        ensures
            r.bits_spec() == bits,
    {
        MPIDR_EL1 { bits }
    }

    /// Affinity level 0, the lowest level affinity field: the core
    /// number within the cluster.
    pub fn aff0(&self) -> (r: u8)
        ensures
            r == self.bits_spec() & 0xFF,
    {
        proof {
            let b = self.bits;
            assert(b & 0xFF < 256) by (bit_vector);
        }
        (self.bits & 0xFF) as u8
    }
}

impl RegisterState for MPIDR_EL1 {
    closed spec fn bits_spec(&self) -> u64 {
        self.bits
    }
}

impl Readable for MPIDR_EL1 {
    fn read_raw(&self) -> u64 {
        self.bits
    }
}

} // verus!
