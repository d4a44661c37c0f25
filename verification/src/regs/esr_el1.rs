//! Exception Syndrome Register - EL1
//!
//! Holds syndrome information for an exception taken to EL1.

use vstd::prelude::*;

use crate::fields::Field;
use crate::interface::{Readable, RegisterState};

verus! {

/// The ESR_EL1 handle: a software-modeled register; the platform layer
/// owns the single-instruction hardware access.
pub struct Reg {
    bits: u64,
}

impl Reg {
    /// A handle whose modeled value is `bits`.
    pub fn new(bits: u64) -> (r: Reg)
        ensures
            r.bits_spec() == bits,
    {
        Reg { bits }
    }

    /// Exception Class: indicates the reason for the exception that this
    /// register holds information about.
    pub fn ec() -> (f: Field)
        ensures
            f.offset == 26,
            f.width == 6,
            f.wf(),
    {
        Field::new(26, 6)
    }

    /// Instruction Length for synchronous exceptions.
    pub fn il() -> (f: Field)
        ensures
            f.offset == 25,
            f.width == 1,
            f.wf(),
    {
        Field::new(25, 1)
    }

    /// Instruction Specific Syndrome.  Architecturally this field can be
    /// defined independently for each defined Exception Class.
    pub fn iss() -> (f: Field)
        ensures
            f.offset == 0,
            f.width == 25,
            f.wf(),
    {
        Field::new(0, 25)
    }

    /// The declared Exception Class encodings, in declaration order:
    /// Unknown, TrappedWFIorWFE, TrappedFP, IllegalExecutionState, SVC64,
    /// HVC64, SMC64, TrappedMsrMrs, InstrAbortLowerEL,
    /// InstrAbortCurrentEL, PCAlignmentFault, DataAbortLowerEL,
    /// DataAbortCurrentEL, SPAlignmentFault, TrappedFP64.  An incomplete
    /// listing of the architecture's table.
    pub fn ec_variants() -> (v: Vec<u64>)
        ensures
            v@ == seq![
                0x00u64,
                0x01,
                0x07,
                0x0E,
                0x15,
                0x16,
                0x17,
                0x18,
                0x20,
                0x21,
                0x22,
                0x24,
                0x25,
                0x26,
                0x2C,
            ],
    {
        let v: Vec<u64> = vec![
            0x00u64,
            0x01,
            0x07,
            0x0E,
            0x15,
            0x16,
            0x17,
            0x18,
            0x20,
            0x21,
            0x22,
            0x24,
            0x25,
            0x26,
            0x2C,
        ];
        proof {
            assert(v@ =~= seq![
                0x00u64,
                0x01,
                0x07,
                0x0E,
                0x15,
                0x16,
                0x17,
                0x18,
                0x20,
                0x21,
                0x22,
                0x24,
                0x25,
                0x26,
                0x2C,
            ]);
        }
        v
    }
}

impl RegisterState for Reg {
    closed spec fn bits_spec(&self) -> u64 {
        self.bits
    }
}

impl Readable for Reg {
    fn read_raw(&self) -> u64 {
        self.bits
    }
}

} // verus!
