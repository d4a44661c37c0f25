//! Processor core registers
//!
//! One module per register, each holding the register's bit layout and a
//! handle type bound to the access capabilities the hardware register
//! grants: read-only, write-only or read-write.

pub mod cntfrq_el0;
pub mod cntp_ctl_el0;
pub mod cntpct_el0;
pub mod cntv_tval_el0;
pub mod cntvct_el0;
pub mod elr_el1;
pub mod elr_el2;
pub mod elr_el3;
pub mod esr_el1;
pub mod far_el2;
pub mod lr;
pub mod midr_el1;
pub mod mpidr_el1;
pub mod sctlr_el1;
pub mod sp;
pub mod sp_el0;
pub mod sp_el1;
pub mod spsel;
pub mod tpidr_el0;
pub mod tpidr_el1;
pub mod tpidrro_el0;
pub mod ttbr0_el2;
pub mod vbar_el1;
