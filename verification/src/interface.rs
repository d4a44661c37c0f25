//! Access capability traits and the register interface.
//!
//! A register handle binds to [`Readable`] and/or [`Writeable`] depending
//! on whether the hardware register is read-only, write-only or
//! read-write.  Both capabilities speak about one abstract view of the
//! register's bits, [`RegisterState::bits_spec`], so that the derived
//! operations below can relate what was written to what is read back.
//!
//! [`InMemoryRegister`] is the software-backed implementation: a register
//! model living in ordinary memory, with the full interface proved.  The
//! platform layer binds the same interface to real `mrs`/`msr` accessible
//! registers; that a hardware access executes at a privilege level where
//! the register exists is its obligation, stated once there, never
//! re-checked at runtime.
//!
//! A derived [`modify`] is a read-modify-write across two separate
//! accesses; with respect to a concurrent writer of the same physical
//! register it is not atomic, and the last write wins.

use vstd::prelude::*;

use crate::fields::{spec_apply, Field, FieldValue, RegisterValue};

verus! {

/// The abstract view of a register: its current raw bits.
pub trait RegisterState {
    /// The register's bits as the model sees them.
    spec fn bits_spec(&self) -> u64;
}

/// The read capability: the register's raw bits can be fetched.
pub trait Readable: RegisterState {
    /// Reads the register's raw bits.
    fn read_raw(&self) -> (r: u64)
        ensures
            r == self.bits_spec(),
    ;
}

/// The write capability: the register's raw bits can be replaced.
pub trait Writeable: RegisterState {
    /// Writes raw bits to the register.
    fn write_raw(&mut self, bits: u64)
        ensures
            final(self).bits_spec() == bits,
    ;
}

/// Reads a register into a typed local copy.
pub fn extract<R: Readable>(reg: &R) -> (r: RegisterValue)
    ensures
        r.bits == reg.bits_spec(),
{
    RegisterValue::new(reg.read_raw())
}

/// Reads one field of a register, shifted down to start at bit zero.
pub fn read<R: Readable>(reg: &R, field: Field) -> (r: u64)
    requires
        field.wf(),
    ensures
        r == field.spec_read(reg.bits_spec()),
{
    extract(reg).read(field)
}

/// True when at least one bit of `field` is set in the register.
pub fn is_set<R: Readable>(reg: &R, field: Field) -> (r: bool)
    requires
        field.wf(),
    ensures
        r == (field.spec_read(reg.bits_spec()) != 0),
{
    extract(reg).is_set(field)
}

/// True when every field covered by `fv` holds exactly the value that
/// `fv` assigns to it.
pub fn matches_all<R: Readable>(reg: &R, fv: FieldValue) -> (r: bool)
    ensures
        r == (reg.bits_spec() & fv.mask == fv.value),
{
    extract(reg).matches_all(fv)
}

/// Overwrites the whole register with `fv`'s value: the covered fields
/// get their values, every other bit becomes zero.
pub fn write<W: Writeable>(reg: &mut W, fv: FieldValue)
    ensures
        final(reg).bits_spec() == fv.value,
{
    reg.write_raw(fv.value);
}

/// Read-modify-write: replaces the bits of `fv`'s fields and keeps every
/// other bit.  Two separate accesses; not atomic against a concurrent
/// writer of the same physical register.
pub fn modify<R: Readable + Writeable>(reg: &mut R, fv: FieldValue)
    ensures
        final(reg).bits_spec() == spec_apply(old(reg).bits_spec(), fv),
{
    let mut v = extract(reg);
    v.modify(fv);
    reg.write_raw(v.get());
}

/// Round trip: writing a register and reading it straight back yields
/// exactly the bits written, for every writable and readable register
/// model and every value.
pub fn write_then_read<R: Readable + Writeable>(reg: &mut R, bits: u64) -> (r: u64)
    ensures
        r == bits,
        final(reg).bits_spec() == bits,
{
    reg.write_raw(bits);
    reg.read_raw()
}

/// A software-backed register: the full register interface over a word of
/// ordinary memory.
pub struct InMemoryRegister {
    value: u64,
}

impl InMemoryRegister {
    /// A fresh register model holding `bits`.
    pub fn new(bits: u64) -> (r: InMemoryRegister)
        ensures
            r.bits_spec() == bits,
    {
        InMemoryRegister { value: bits }
    }
}

impl RegisterState for InMemoryRegister {
    closed spec fn bits_spec(&self) -> u64 {
        self.value
    }
}

impl Readable for InMemoryRegister {
    fn read_raw(&self) -> u64 {
        self.value
    }
}

impl Writeable for InMemoryRegister {
    fn write_raw(&mut self, bits: u64) {
        self.value = bits;
    }
}

} // verus!
