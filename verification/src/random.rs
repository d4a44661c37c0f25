//! The Arm v8.5 random-number instructions, `RNDR` and `RNDRSS`.
//!
//! The instructions themselves are single hardware reads that the
//! platform layer issues.  This module keeps the two decisions around
//! them: whether the feature exists at all, read off the `RNDR` field of
//! `ID_AA64ISAR0_EL1`, and how one issue's outcome — the data word and
//! the `NZCV` flags it set — is to be interpreted.

use vstd::prelude::*;

use crate::fields::{Field, RegisterValue};

verus! {

/// Witness that the random-number instructions are available.
///
/// A value exists only where [`ArmRng::new`] found the feature in the ID
/// register, so each later call needs no second check.
#[derive(Clone, Copy)]
pub struct ArmRng;

impl ArmRng {
    /// The `RNDR` field of `ID_AA64ISAR0_EL1`: bits 63:60, non-zero when
    /// the random-number instructions are implemented.
    pub fn rndr_field() -> (f: Field)
        ensures
            f.offset == 60,
            f.width == 4,
            f.wf(),
    {
        Field::new(60, 4)
    }

    /// Gates the feature on the value of `ID_AA64ISAR0_EL1`: a witness
    /// exactly when the `RNDR` field of `isar0` is non-zero.
    pub fn new(isar0: u64) -> (r: Option<ArmRng>)
        ensures
            r is Some <==> (isar0 >> 60) & 0xF != 0,
    {
        proof {
            assert(u64::MAX >> 60 == 0xF) by (bit_vector);
        }
        if RegisterValue::new(isar0).is_set(ArmRng::rndr_field()) {
            Some(ArmRng)
        } else {
            None
        }
    }

    /// Interprets one issue of `RNDR` or `RNDRSS`: the instruction sets
    /// the `NZCV` flags on failure (entropy exhausted, generator failed),
    /// so `data` counts only where `flags` is zero.
    pub fn interpret(&self, flags: u64, data: u64) -> (r: Option<u64>)
        ensures
            flags == 0 ==> r == Some(data),
            flags != 0 ==> r is None,
    {
        if flags != 0 {
            None
        } else {
            Some(data)
        }
    }
}

} // verus!
