//! Processor core registers, compact form
//!
//! The earliest shape of the register catalog: one handle per register
//! under the register's own name, with only the accessors that early
//! callers needed.

pub mod cntfrq_el0;
pub mod cntp_cval_el0;
pub mod mpidr_el1;
