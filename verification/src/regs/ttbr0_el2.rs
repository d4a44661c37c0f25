//! Translation Table Base Register 0 - EL2
//!
//! Holds the base address of the translation table for the initial lookup
//! for stage 1 of the translation of an address from the lower VA range
//! for accesses from EL2.

use vstd::prelude::*;

use crate::fields::Field;
use crate::interface::{read, Readable, RegisterState, Writeable};

verus! {

/// The TTBR0_EL2 handle: a software-modeled register; the platform layer
/// owns the single-instruction hardware access.
pub struct Reg {
    bits: u64,
}

impl Reg {
    /// A handle whose modeled value is `bits`.
    pub fn new(bits: u64) -> (r: Reg)
        ensures
            r.bits_spec() == bits,
    {
        Reg { bits }
    }

    /// Reserved.
    pub fn res0() -> (f: Field)
        ensures
            f.offset == 48,
            f.width == 16,
            f.wf(),
    {
        Field::new(48, 16)
    }

    /// Translation table base address.
    pub fn baddr() -> (f: Field)
        ensures
            f.offset == 1,
            f.width == 48,
            f.wf(),
    {
        Field::new(1, 48)
    }

    /// Common not Private.
    pub fn cnp() -> (f: Field)
        ensures
            f.offset == 0,
            f.width == 1,
            f.wf(),
    {
        Field::new(0, 1)
    }

    /// The translation table base address held in the BADDR field, as a
    /// byte address again.
    pub fn get_baddr(&self) -> (r: u64)
        ensures
            r == ((self.bits_spec() >> 1) & (u64::MAX >> 16)) << 1,
    {
        read(self, Reg::baddr()) << 1
    }

    /// Stores `addr` in the BADDR field, overwriting the whole register:
    /// the other fields become zero.
    pub fn set_baddr(&mut self, addr: u64)
        ensures
            final(self).bits_spec() == ((addr >> 1) & (u64::MAX >> 16)) << 1,
    {
        let f = Reg::baddr();
        crate::interface::write(self, f.val(addr >> 1));
    }
}

impl RegisterState for Reg {
    closed spec fn bits_spec(&self) -> u64 {
        self.bits
    }
}

impl Readable for Reg {
    fn read_raw(&self) -> u64 {
        self.bits
    }
}

impl Writeable for Reg {
    fn write_raw(&mut self, bits: u64) {
        self.bits = bits;
    }
}

} // verus!
