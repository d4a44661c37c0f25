//! The register catalog: per-register layouts and accessors.

use cortex_a::fields::RegisterValue;
use cortex_a::interface::{modify, read, write_then_read, Readable, Writeable};
use cortex_a::random::ArmRng;
use cortex_a::{register, regs, registers};

#[test]
fn ttbr0_el2_baddr_round_trip() {
    let mut reg = regs::ttbr0_el2::Reg::new(0);
    reg.set_baddr(0x8000);
    assert_eq!(reg.get_baddr(), 0x8000);
    // BADDR starts at bit 1: bit 0 of the address cannot be stored.
    reg.set_baddr(0x8001);
    assert_eq!(reg.get_baddr(), 0x8000);
}

#[test]
fn ttbr0_el2_set_baddr_overwrites() {
    // set_baddr writes the whole register: CnP is cleared by it.
    let mut reg = regs::ttbr0_el2::Reg::new(1);
    assert_eq!(read(&reg, regs::ttbr0_el2::Reg::cnp()), 1);
    reg.set_baddr(0x4000);
    assert_eq!(read(&reg, regs::ttbr0_el2::Reg::cnp()), 0);
}

#[test]
fn cntp_ctl_el0_fields() {
    let mut reg = regs::cntp_ctl_el0::Reg::new(0);
    modify(&mut reg, regs::cntp_ctl_el0::Reg::enable().val(1));
    assert_eq!(reg.read_raw(), 0b001);
    modify(&mut reg, regs::cntp_ctl_el0::Reg::imask().val(1));
    assert_eq!(reg.read_raw(), 0b011);
    assert_eq!(read(&reg, regs::cntp_ctl_el0::Reg::istatus()), 0);
}

#[test]
fn sctlr_el1_mmu_enable_is_bit_zero() {
    let mut reg = regs::sctlr_el1::Reg::new(0);
    modify(&mut reg, regs::sctlr_el1::Reg::m().val(1));
    assert_eq!(reg.read_raw(), 1);
    modify(&mut reg, regs::sctlr_el1::Reg::i().val(1));
    assert_eq!(reg.read_raw(), (1 << 12) | 1);
}

#[test]
fn spsel_variants_decode() {
    let reg = regs::spsel::Reg::new(1);
    let v = RegisterValue::new(reg.read_raw());
    // 1 is the ELx variant, declared second.
    assert_eq!(
        v.read_as_enum(regs::spsel::Reg::sp(), &regs::spsel::Reg::sp_variants()),
        Some(1)
    );
}

#[test]
fn esr_el1_exception_class_decode() {
    // EC = 0b01_0101 is SVC64, the fifth declared variant.
    let reg = regs::esr_el1::Reg::new(0x15 << 26);
    let v = RegisterValue::new(reg.read_raw());
    let variants = regs::esr_el1::Reg::ec_variants();
    assert_eq!(v.read_as_enum(regs::esr_el1::Reg::ec(), &variants), Some(4));
    // A reserved encoding decodes to nothing.
    let reserved = RegisterValue::new(0x3F << 26);
    assert_eq!(reserved.read_as_enum(regs::esr_el1::Reg::ec(), &variants), None);
}

#[test]
fn plain_registers_read_and_write() {
    let mut elr = regs::elr_el2::Reg::new(0);
    assert_eq!(write_then_read(&mut elr, 0x8_0000), 0x8_0000);
    let midr = regs::midr_el1::Reg::new(0x410F_D083);
    assert_eq!(midr.read_raw(), 0x410F_D083);
}

#[test]
fn mpidr_el1_aff0_is_low_byte() {
    let reg = register::mpidr_el1::MPIDR_EL1::new(0x0000_0301);
    assert_eq!(reg.aff0(), 0x01);
    let reg2 = register::mpidr_el1::MPIDR_EL1::new(0xFFFF_FFFF);
    assert_eq!(reg2.aff0(), 0xFF);
}

#[test]
fn compact_catalog_handles() {
    let frq = register::cntfrq_el0::CNTFRQ_EL0::new(62_500_000);
    assert_eq!(frq.read_raw(), 62_500_000);
    let mut cval = register::cntp_cval_el0::CNTP_CVAL_EL0::new(0);
    cval.write_raw(123_456_789);
    assert_eq!(cval.read_raw(), 123_456_789);
}

#[test]
fn ccsidr_el1_layout_pair() {
    // The same raw value decodes differently under the two layouts.
    let bits = (7u64 << 32) | (3 << 13) | (2 << 3) | 1;
    let with_ccidx = registers::ccsidr_el1::RegWithFeatCcidx::new(bits);
    assert_eq!(
        read(&with_ccidx, registers::ccsidr_el1::RegWithFeatCcidx::num_sets()),
        7
    );
    let plain = registers::ccsidr_el1::Reg::new(bits);
    assert_eq!(read(&plain, registers::ccsidr_el1::Reg::num_sets()), 3);
    assert_eq!(read(&plain, registers::ccsidr_el1::Reg::line_size()), 1);
}

#[test]
fn cpuectrl_el1_stream_thresholds() {
    let mut reg = registers::cpuectrl_el1::Reg::new(0);
    modify(&mut reg, registers::cpuectrl_el1::Reg::l4_stream().val(0b11));
    assert_eq!(read(&reg, registers::cpuectrl_el1::Reg::l4_stream()), 0b11);
    assert_eq!(read(&reg, registers::cpuectrl_el1::Reg::l3_stream()), 0);
    assert_eq!(reg.read_raw(), 0b11 << 22);
}

#[test]
fn arm_rng_feature_gate() {
    // The RNDR field is bits 63:60 of ID_AA64ISAR0_EL1.
    assert!(ArmRng::new(1u64 << 60).is_some());
    assert!(ArmRng::new(0).is_none());
    // Bits below the field do not count as the feature.
    assert!(ArmRng::new(0x0FFF_FFFF_FFFF_FFFF).is_none());
}

#[test]
fn arm_rng_outcome_interpretation() {
    let rng = ArmRng::new(1u64 << 60).unwrap();
    // Zero flags: the data word is a valid random number.
    assert_eq!(rng.interpret(0, 42), Some(42));
    // Non-zero flags: the instruction failed, no number is produced.
    assert_eq!(rng.interpret(0x4000_0000, 42), None);
}
