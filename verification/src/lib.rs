//! Low level access to Cortex-A (ARMv8-A) processors.
//!
//! The heart of the crate is a typed bitfield register framework: a register's
//! bit layout is described once as a set of [`fields::Field`]s, and every
//! read, write and modify of that register goes through operations whose
//! bit-level behaviour is stated in contracts and proved.
//!
//! The crate models register state as plain 64-bit values.  The single-
//! instruction hardware accesses (`mrs`/`msr`, barriers, `wfi` and friends)
//! are the platform layer's task; it feeds raw bits into this framework and
//! takes raw bits back out.

pub mod barrier;
pub mod fields;
pub mod interface;
pub mod layout;
pub mod random;
pub mod register;
pub mod registers;
pub mod regs;
