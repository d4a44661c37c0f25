//! Value-level behaviour of fields, field values and register values.

use cortex_a::fields::{Field, FieldValue, RegisterValue};

#[test]
fn masking_truncates_to_width() {
    // A 2-bit field: raw 0b110 keeps only its low two bits, 0b10.
    let f = Field::new(0, 2);
    assert_eq!(f.val(0b110).value, 0b10);
    assert_eq!(f.val(0b110).mask, 0b11);
}

#[test]
fn masking_boundary_values() {
    // Largest valid raw value for a 2-bit field is 2^2 - 1 = 3 ...
    let f = Field::new(4, 2);
    assert_eq!(f.val(3).value, 3 << 4);
    // ... and 2^2 = 4 is the first invalid one: it truncates to 0.
    assert_eq!(f.val(4).value, 0);
}

#[test]
fn try_val_rejects_overwide_values() {
    let f = Field::new(4, 2);
    let ok = f.try_val(3).expect("3 fits in two bits");
    assert_eq!(ok.value, 3 << 4);
    assert_eq!(ok.mask, 0b11 << 4);
    // The first invalid value is reported instead of silently truncated.
    assert!(f.try_val(4).is_none());
    assert!(f.try_val(u64::MAX).is_none());
}

#[test]
fn field_mask_matches_offset_and_width() {
    let f = Field::new(8, 4);
    assert_eq!(f.mask(), 0xF00);
    let whole = Field::new(0, 64);
    assert_eq!(whole.mask(), u64::MAX);
    let top = Field::new(63, 1);
    assert_eq!(top.mask(), 1 << 63);
}

#[test]
fn read_extracts_field_bits() {
    let v = RegisterValue::new(0xABCD);
    assert_eq!(v.read(Field::new(0, 4)), 0xD);
    assert_eq!(v.read(Field::new(4, 8)), 0xBC);
    assert_eq!(v.read(Field::new(12, 4)), 0xA);
}

#[test]
fn modify_writes_field_and_reads_back() {
    // Round trip at the value level: store a raw value in a field, read
    // the field again.
    let f = Field::new(3, 5);
    let mut v = RegisterValue::new(0);
    v.modify(f.val(0b10110));
    assert_eq!(v.read(f), 0b10110);
}

#[test]
fn field_isolation_three_one_bit_fields() {
    // A 3-field layout with one-bit fields at offsets 0, 1 and 2:
    // setting the field at offset 1 leaves offsets 0 and 2 unchanged.
    let f0 = Field::new(0, 1);
    let f1 = Field::new(1, 1);
    let f2 = Field::new(2, 1);
    let mut v = RegisterValue::new(0b101);
    assert_eq!(v.read(f0), 1);
    assert_eq!(v.read(f1), 0);
    assert_eq!(v.read(f2), 1);
    v.modify(f1.val(1));
    assert_eq!(v.read(f0), 1);
    assert_eq!(v.read(f1), 1);
    assert_eq!(v.read(f2), 1);
}

#[test]
fn combine_is_commutative() {
    // FieldValue(A=1) | FieldValue(B=1) == FieldValue(B=1) | FieldValue(A=1)
    // for the disjoint fields A and B.
    let a = Field::new(0, 1);
    let b = Field::new(5, 3);
    let left: FieldValue = a.val(1).or(b.val(1));
    let right: FieldValue = b.val(1).or(a.val(1));
    assert_eq!(left, right);
    assert_eq!(left.value, 0b100001);
    assert_eq!(left.mask, 0b11100001);
}

#[test]
fn combined_write_stores_both_fields() {
    let a = Field::new(0, 4);
    let b = Field::new(8, 4);
    let mut v = RegisterValue::new(u64::MAX);
    v.modify(a.val(0x5).or(b.val(0xA)));
    assert_eq!(v.read(a), 0x5);
    assert_eq!(v.read(b), 0xA);
    // Bits of neither field keep their old value.
    assert_eq!(v.get(), u64::MAX & !0xF & !0xF00 | 0x5 | 0xA00);
}

#[test]
fn matches_all_and_is_set() {
    let enable = Field::new(0, 1);
    let mode = Field::new(4, 2);
    let mut v = RegisterValue::new(0);
    v.modify(enable.val(1).or(mode.val(2)));
    assert!(v.matches_all(enable.val(1).or(mode.val(2))));
    assert!(!v.matches_all(mode.val(1)));
    assert!(v.is_set(enable));
    assert!(!v.is_set(Field::new(1, 1)));
}

#[test]
fn enum_round_trip() {
    // A field with declared variants {A=0, B=1, C=2}: value 1 decodes to
    // B, the undeclared value 3 decodes to nothing.
    let f = Field::new(2, 2);
    let variants: Vec<u64> = vec![0, 1, 2];
    let v = RegisterValue::new(f.val(1).value);
    assert_eq!(v.read_as_enum(f, &variants), Some(1));
    let undeclared = RegisterValue::new(f.val(3).value);
    assert_eq!(undeclared.read_as_enum(f, &variants), None);
}

#[test]
fn enum_decode_picks_first_match() {
    // With a duplicated value in the table, the first declaration wins,
    // deterministically.
    let f = Field::new(0, 4);
    let variants: Vec<u64> = vec![7, 3, 7];
    let v = RegisterValue::new(7);
    assert_eq!(v.read_as_enum(f, &variants), Some(0));
}

#[test]
fn matches_variant_compares_field_bits() {
    let f = Field::new(0, 2);
    let variants: Vec<u64> = vec![0, 1, 2];
    let v = RegisterValue::new(2);
    assert!(v.matches_variant(f, &variants, 2));
    assert!(!v.matches_variant(f, &variants, 1));
}
