//! Barrier instructions and their shareability domains.
//!
//! `DMB`, `DSB` and `ISB` constrain the order in which memory and
//! instruction effects become visible to other agents.  Each is
//! parameterized by a shareability-domain marker ([`SY`], [`ISH`],
//! [`ISHST`]); the domain is an immediate operand of the instruction,
//! selected through capability dispatch over the marker type, never a
//! runtime branch.
//!
//! The functions here compute the A64 instruction word for the requested
//! barrier; issuing it is the platform layer's task.  A barrier is
//! ordering-only: it never changes any register's readable value, see
//! [`read_after_barrier`].

use vstd::prelude::*;

use crate::interface::Readable;

verus! {

/// Full system shareability domain.
pub struct SY;

/// Inner shareable domain.
pub struct ISH;

/// Inner shareable domain, store-only.
pub struct ISHST;

/// Domains a data memory barrier can name.
pub trait Dmb {
    /// The CRm immediate that selects this domain in a `DMB`.
    spec fn dmb_domain(&self) -> u32;

    /// The A64 instruction word of `DMB` with this domain.
    fn dmb_insn(&self) -> (r: u32)
        ensures
            r == 0xD503_30BFu32 | (self.dmb_domain() << 8),
    ;
}

/// Domains a data synchronization barrier can name.
pub trait Dsb {
    /// The CRm immediate that selects this domain in a `DSB`.
    spec fn dsb_domain(&self) -> u32;

    /// The A64 instruction word of `DSB` with this domain.
    fn dsb_insn(&self) -> (r: u32)
        ensures
            r == 0xD503_309Fu32 | (self.dsb_domain() << 8),
    ;
}

/// Domains an instruction synchronization barrier can name.
pub trait Isb {
    /// The CRm immediate that selects this domain in an `ISB`.
    spec fn isb_domain(&self) -> u32;

    /// The A64 instruction word of `ISB` with this domain.
    fn isb_insn(&self) -> (r: u32)
        ensures
            r == 0xD503_30DFu32 | (self.isb_domain() << 8),
    ;
}

impl Dmb for SY {
    open spec fn dmb_domain(&self) -> u32 {
        0b1111
    }

    fn dmb_insn(&self) -> u32 {
        0xD503_30BFu32 | (0b1111u32 << 8)
    }
}

impl Dsb for SY {
    open spec fn dsb_domain(&self) -> u32 {
        0b1111
    }

    fn dsb_insn(&self) -> u32 {
        0xD503_309Fu32 | (0b1111u32 << 8)
    }
}

impl Isb for SY {
    open spec fn isb_domain(&self) -> u32 {
        0b1111
    }

    fn isb_insn(&self) -> u32 {
        0xD503_30DFu32 | (0b1111u32 << 8)
    }
}

impl Dmb for ISH {
    open spec fn dmb_domain(&self) -> u32 {
        0b1011
    }

    fn dmb_insn(&self) -> u32 {
        0xD503_30BFu32 | (0b1011u32 << 8)
    }
}

impl Dsb for ISH {
    open spec fn dsb_domain(&self) -> u32 {
        0b1011
    }

    fn dsb_insn(&self) -> u32 {
        0xD503_309Fu32 | (0b1011u32 << 8)
    }
}

impl Dmb for ISHST {
    open spec fn dmb_domain(&self) -> u32 {
        0b1010
    }

    fn dmb_insn(&self) -> u32 {
        0xD503_30BFu32 | (0b1010u32 << 8)
    }
}

impl Dsb for ISHST {
    open spec fn dsb_domain(&self) -> u32 {
        0b1010
    }

    fn dsb_insn(&self) -> u32 {
        0xD503_309Fu32 | (0b1010u32 << 8)
    }
}

/// Data Memory Barrier over the domain `arg` names: the instruction word
/// to issue.
pub fn dmb<A: Dmb>(arg: A) -> (r: u32)
    ensures
        r == 0xD503_30BFu32 | (arg.dmb_domain() << 8),
{
    arg.dmb_insn()
}

/// Data Synchronization Barrier over the domain `arg` names: the
/// instruction word to issue.
pub fn dsb<A: Dsb>(arg: A) -> (r: u32)
    ensures
        r == 0xD503_309Fu32 | (arg.dsb_domain() << 8),
{
    arg.dsb_insn()
}

/// Instruction Synchronization Barrier over the domain `arg` names: the
/// instruction word to issue.
pub fn isb<A: Isb>(arg: A) -> (r: u32)
    ensures
        r == 0xD503_30DFu32 | (arg.isb_domain() << 8),
{
    arg.isb_insn()
}

/// Barriers are ordering-only: issuing any of them between a write and a
/// read of a register never changes the register's readable value.
pub fn read_after_barrier<R: Readable>(reg: &R) -> (r: u64)
    ensures
        r == reg.bits_spec(),
{
    let _dmb = dmb(SY);
    let _dsb = dsb(ISH);
    let _isb = isb(SY);
    reg.read_raw()
}

} // verus!
