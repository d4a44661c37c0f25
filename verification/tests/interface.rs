//! The register interface over the software-backed register, and the
//! barrier encodings.

use cortex_a::barrier::{dmb, dsb, isb, read_after_barrier, ISH, ISHST, SY};
use cortex_a::fields::Field;
use cortex_a::interface::{
    extract, is_set, matches_all, modify, read, write_then_read, InMemoryRegister,
};

#[test]
fn register_round_trip() {
    // set(v); get() == v, for a handful of values across the range.
    let mut reg = InMemoryRegister::new(0);
    for v in [0u64, 1, 0xFF, 0xDEAD_BEEF, u64::MAX] {
        assert_eq!(write_then_read(&mut reg, v), v);
        assert_eq!(reg.read_raw(), v);
    }
}

// Bring the trait for `read_raw` into scope.
use cortex_a::interface::Readable;

#[test]
fn write_overwrites_whole_register() {
    let f = Field::new(4, 4);
    let mut reg = InMemoryRegister::new(u64::MAX);
    cortex_a::interface::write(&mut reg, f.val(0xA));
    // The covered field holds its value, every other bit is zero.
    assert_eq!(reg.read_raw(), 0xA0);
}

#[test]
fn modify_keeps_unrelated_bits() {
    let f = Field::new(4, 4);
    let mut reg = InMemoryRegister::new(0xFFFF);
    modify(&mut reg, f.val(0xA));
    assert_eq!(reg.read_raw(), 0xFFAF);
}

#[test]
fn read_and_is_set_and_matches_all() {
    let enable = Field::new(0, 1);
    let mode = Field::new(8, 2);
    let mut reg = InMemoryRegister::new(0);
    modify(&mut reg, enable.val(1).or(mode.val(0b10)));
    assert_eq!(read(&reg, mode), 0b10);
    assert!(is_set(&reg, enable));
    assert!(matches_all(&reg, enable.val(1)));
    assert!(!matches_all(&reg, mode.val(0b01)));
    assert_eq!(extract(&reg).get(), reg.read_raw());
}

#[test]
fn barrier_instruction_words() {
    // The A64 encodings: DMB, DSB and ISB with the domain's CRm
    // immediate in bits 11:8.
    assert_eq!(dmb(SY), 0xD503_3FBF);
    assert_eq!(dmb(ISH), 0xD503_3BBF);
    assert_eq!(dmb(ISHST), 0xD503_3ABF);
    assert_eq!(dsb(SY), 0xD503_3F9F);
    assert_eq!(dsb(ISH), 0xD503_3B9F);
    assert_eq!(dsb(ISHST), 0xD503_3A9F);
    assert_eq!(isb(SY), 0xD503_3FDF);
}

#[test]
fn barriers_leave_register_values_alone() {
    // Barriers only order accesses: a register read after issuing them
    // sees exactly the value written before.
    let mut reg = InMemoryRegister::new(0);
    let written = write_then_read(&mut reg, 0xC0FFEE);
    assert_eq!(written, 0xC0FFEE);
    let _ = dmb(SY);
    let _ = dsb(ISHST);
    let _ = isb(SY);
    assert_eq!(reg.read_raw(), 0xC0FFEE);
    assert_eq!(read_after_barrier(&reg), 0xC0FFEE);
}
