//! Processor core and implementation-defined registers
//!
//! Registers of the later, implementation-defined catalog: auxiliary
//! control, cache identification and CPU extended control.

pub mod actlr_el3;
pub mod ccsidr_el1;
pub mod cpuectrl_el1;
pub mod tpidr_el1;
