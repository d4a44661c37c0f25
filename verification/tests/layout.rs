//! Layout construction and its rejection of unsound descriptions.

use cortex_a::fields::Field;
use cortex_a::layout::{check_enum_table, Layout, LayoutError};
use cortex_a::regs::{cntp_ctl_el0, esr_el1, ttbr0_el2};

#[test]
fn disjoint_layout_is_accepted() {
    let fields = vec![Field::new(0, 1), Field::new(1, 1), Field::new(2, 1), Field::new(26, 6)];
    let layout = Layout::new(fields).expect("disjoint fields form a layout");
    assert_eq!(layout.len(), 4);
    assert_eq!(layout.field(3), Field::new(26, 6));
}

#[test]
fn overlapping_fields_are_rejected() {
    // Bits 4..8 and 6..10 share bit positions 6 and 7.
    let fields = vec![Field::new(4, 4), Field::new(6, 4)];
    assert!(matches!(Layout::new(fields), Err(LayoutError::OverlappingFields)));
}

#[test]
fn malformed_field_is_rejected() {
    // A field reaching past bit 63 cannot describe a 64-bit register.
    let fields = vec![Field::new(0, 1), Field { offset: 60, width: 8 }];
    assert!(matches!(Layout::new(fields), Err(LayoutError::MalformedField)));
    // Width zero describes nothing.
    let fields = vec![Field { offset: 0, width: 0 }];
    assert!(matches!(Layout::new(fields), Err(LayoutError::MalformedField)));
}

#[test]
fn empty_layout_is_a_layout() {
    let layout = Layout::new(Vec::new()).expect("no fields, nothing overlaps");
    assert_eq!(layout.len(), 0);
}

#[test]
fn ambiguous_enum_table_is_rejected() {
    // 7 maps to two symbols: decoding would be ambiguous.
    let variants: Vec<u64> = vec![0, 7, 3, 7];
    assert_eq!(check_enum_table(&variants), Err(LayoutError::AmbiguousEnumValue));
}

#[test]
fn catalog_layouts_are_disjoint() {
    let ctl = vec![cntp_ctl_el0::Reg::enable(), cntp_ctl_el0::Reg::imask(), cntp_ctl_el0::Reg::istatus()];
    assert!(Layout::new(ctl).is_ok());
    // The TTBR0_EL2 declaration is a counterexample: its RES0 field,
    // bits 63:48, and its 48-bit BADDR field starting at bit 1 both
    // claim bit 48, and the checker catches it.
    let ttbr = vec![ttbr0_el2::Reg::res0(), ttbr0_el2::Reg::baddr(), ttbr0_el2::Reg::cnp()];
    assert!(matches!(Layout::new(ttbr), Err(LayoutError::OverlappingFields)));
    let esr = vec![esr_el1::Reg::ec(), esr_el1::Reg::il(), esr_el1::Reg::iss()];
    assert!(Layout::new(esr).is_ok());
    assert_eq!(check_enum_table(&esr_el1::Reg::ec_variants()), Ok(()));
}

#[test]
fn distinct_enum_table_is_accepted() {
    let variants: Vec<u64> = vec![0, 1, 2];
    assert_eq!(check_enum_table(&variants), Ok(()));
    let empty: Vec<u64> = Vec::new();
    assert_eq!(check_enum_table(&empty), Ok(()));
}
