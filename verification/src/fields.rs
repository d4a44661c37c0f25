//! Bitfield descriptions and typed register values.
//!
//! A [`Field`] names a contiguous bit range of a 64-bit register.  A
//! [`FieldValue`] is a value for one or more fields, already shifted into
//! place and paired with the mask of the bits it covers.  A
//! [`RegisterValue`] is a local copy of a register's raw bits, offering
//! field extraction, enum decoding and read-combine-write at the value
//! level.

use vstd::prelude::*;

verus! {

/// All-ones in the low `width` bits of a 64-bit word.
pub open spec fn low_mask(width: u64) -> u64
    recommends
        1 <= width <= 64,
{
    u64::MAX >> ((64 - width) as u64)
}

/// One contiguous bitfield of a 64-bit register: `width` bits starting at
/// bit `offset`.
#[derive(Clone, Copy, Debug, PartialEq, Eq, Structural)]
pub struct Field {
    pub offset: u64,
    pub width: u64,
}

impl Field {
    /// A field is well formed when it is at least one bit wide and lies
    /// entirely inside the 64-bit backing word.
    pub open spec fn wf(self) -> bool {
        1 <= self.width && self.offset + self.width <= 64
    }

    /// The bits of the backing word that belong to this field.
    pub open spec fn spec_mask(self) -> u64 {
        low_mask(self.width) << self.offset
    }

    /// The field's bits of `bits`, shifted down to start at bit zero.
    pub open spec fn spec_read(self, bits: u64) -> u64 {
        (bits >> self.offset) & low_mask(self.width)
    }

    /// The field/value pair that `val` produces: `raw` truncated to the
    /// field's width and shifted into place.
    pub open spec fn spec_val(self, raw: u64) -> FieldValue {
        FieldValue {
            mask: self.spec_mask(),
            value: (raw & low_mask(self.width)) << self.offset,
        }
    }

    /// Describes the field of `width` bits starting at bit `offset`.
    ///
    /// A zero-width field describes nothing and is rejected here, as is one
    /// reaching past bit 63.
    pub fn new(offset: u64, width: u64) -> (f: Field)
        requires
            1 <= width,
            offset + width <= 64,
        ensures
            f.offset == offset,
            f.width == width,
            f.wf(),
    {
        Field { offset, width }
    }

    /// The field's mask: its bits within the backing word.
    pub fn mask(self) -> (m: u64)
        requires
            self.wf(),
        ensures
            m == self.spec_mask(),
    {
        (u64::MAX >> (64 - self.width)) << self.offset
    }

    /// A value for this field.  `raw` is truncated to the field's width
    /// before it is shifted into place; this silent masking is the
    /// documented policy here, [`Field::try_val`] is the strict variant.
    pub fn val(self, raw: u64) -> (fv: FieldValue)
        requires
            self.wf(),
        ensures
            fv == self.spec_val(raw),
            fv.wf(),
    {
        let m: u64 = u64::MAX >> (64 - self.width);
        let fv = FieldValue {
            mask: m << self.offset,
            value: (raw & m) << self.offset,
        };
        proof {
            let off = self.offset;
            assert(((raw & m) << off) & (m << off) == (raw & m) << off) by (bit_vector);
        }
        fv
    }

    /// The strict companion of [`Field::val`]: accepts `raw` exactly when
    /// it fits in the field's width, and reports the overflow otherwise.
    pub fn try_val(self, raw: u64) -> (r: Option<FieldValue>)
        requires
            self.wf(),
        ensures
            raw <= low_mask(self.width) ==> r == Some(self.spec_val(raw)),
            raw > low_mask(self.width) ==> r is None,
    {
        let m: u64 = u64::MAX >> (64 - self.width);
        if raw <= m {
            Some(self.val(raw))
        } else {
            None
        }
    }
}

/// A value for one or more fields of a register: `value` holds the bits
/// already shifted into place, `mask` the bits of the register they cover.
#[derive(Clone, Copy, Debug, PartialEq, Eq, Structural)]
pub struct FieldValue {
    pub mask: u64,
    pub value: u64,
}

/// The result of read-combine-write at the value level: the bits of `fv`'s
/// fields are replaced in `bits`, every other bit is kept.
pub open spec fn spec_apply(bits: u64, fv: FieldValue) -> u64 {
    (bits & !fv.mask) | fv.value
}

impl FieldValue {
    /// A field/value pair is well formed when the value stays inside the
    /// mask's bits.
    pub open spec fn wf(self) -> bool {
        self.value & self.mask == self.value
    }

    /// The combination of two field/value pairs of one layout.
    pub open spec fn spec_or(self, other: FieldValue) -> FieldValue {
        FieldValue {
            mask: self.mask | other.mask,
            value: self.value | other.value,
        }
    }

    /// Combines the settings of `self` and `other` into one value covering
    /// the fields of both.
    pub fn or(self, other: FieldValue) -> (r: FieldValue)
        ensures
            r == self.spec_or(other),
            self.wf() && other.wf() ==> r.wf(),
    {
        proof {
            let (m1, v1, m2, v2) = (self.mask, self.value, other.mask, other.value);
            assert((v1 & m1 == v1 && v2 & m2 == v2) ==> ((v1 | v2) & (m1 | m2) == (v1 | v2)))
                by (bit_vector);
        }
        FieldValue { mask: self.mask | other.mask, value: self.value | other.value }
    }
}

/// A local, typed copy of a register's raw bits.
///
/// All operations are pure value computations; committing the bits to a
/// hardware register is a separate step (see [`crate::interface`]).
#[derive(Clone, Copy, Debug, PartialEq, Eq, Structural)]
pub struct RegisterValue {
    pub bits: u64,
}

impl RegisterValue {
    /// Wraps raw register bits.
    pub fn new(bits: u64) -> (r: RegisterValue)
        ensures
            r.bits == bits,
    {
        RegisterValue { bits }
    }

    /// The raw bits.
    pub fn get(self) -> (r: u64)
        ensures
            r == self.bits,
    {
        self.bits
    }

    /// Replaces the raw bits.
    pub fn set(&mut self, bits: u64)
        ensures
            final(self).bits == bits,
    {
        self.bits = bits;
    }

    /// Extracts `field`'s bits, shifted down to start at bit zero.
    pub fn read(self, field: Field) -> (r: u64)
        requires
            field.wf(),
        ensures
            r == field.spec_read(self.bits),
            r <= low_mask(field.width),
    {
        let m: u64 = u64::MAX >> (64 - field.width);
        let r = (self.bits >> field.offset) & m;
        proof {
            let b = self.bits;
            let off = field.offset;
            assert((b >> off) & m <= m) by (bit_vector);
        }
        r
    }

    /// True when at least one bit of `field` is set.
    pub fn is_set(self, field: Field) -> (r: bool)
        requires
            field.wf(),
        ensures
            r == (field.spec_read(self.bits) != 0),
    {
        self.read(field) != 0
    }

    /// True when every field covered by `fv` holds exactly the value that
    /// `fv` assigns to it.
    pub fn matches_all(self, fv: FieldValue) -> (r: bool)
        ensures
            r == (self.bits & fv.mask == fv.value),
    {
        self.bits & fv.mask == fv.value
    }

    /// Replaces the bits of `fv`'s fields and keeps every other bit:
    /// read-combine-write at the value level, not yet committed to
    /// hardware.
    pub fn modify(&mut self, fv: FieldValue)
        ensures
            final(self).bits == spec_apply(old(self).bits, fv),
    {
        self.bits = (self.bits & !fv.mask) | fv.value;
    }

    /// True when `field` currently holds the declared variant value
    /// `variants[idx]`.
    pub fn matches_variant(self, field: Field, variants: &Vec<u64>, idx: usize) -> (r: bool)
        requires
            field.wf(),
            idx < variants.len(),
        ensures
            r == (field.spec_read(self.bits) == variants@[idx as int]),
    {
        self.read(field) == variants[idx]
    }

    /// Decodes `field` against the table of declared variant values: the
    /// index of the first variant whose value the field holds, or nothing
    /// when the bits encode a reserved combination.
    pub fn read_as_enum(self, field: Field, variants: &Vec<u64>) -> (r: Option<usize>)
        requires
            field.wf(),
        ensures
            (match r {
                Some(i) => spec_enum_index(variants@, field.spec_read(self.bits)) == Some(i as int),
                None => spec_enum_index(variants@, field.spec_read(self.bits)) is None,
            }),
    {
        let x = self.read(field);
        let mut i: usize = 0;
        while i < variants.len()
            invariant
                i <= variants.len(),
                x == field.spec_read(self.bits),
                forall|j: int| 0 <= j < i ==> variants@[j] != x,
            decreases variants.len() - i,
        {
            if variants[i] == x {
                proof {
                    lemma_enum_index_first_match(variants@, x, i as int);
                }
                return Some(i);
            }
            i += 1;
        }
        proof {
            lemma_enum_index_absent(variants@, x);
        }
        None
    }
}

/// The index of the first entry of `variants` that holds `x`, if any.
pub open spec fn spec_enum_index(variants: Seq<u64>, x: u64) -> Option<int>
    decreases variants.len(),
{
    if variants.len() == 0 {
        None
    } else if variants[0] == x {
        Some(0int)
    } else {
        match spec_enum_index(variants.drop_first(), x) {
            Some(i) => Some(i + 1),
            None => None,
        }
    }
}

/// The first occurrence of `x` in `variants` is where `spec_enum_index`
/// points.
pub proof fn lemma_enum_index_first_match(variants: Seq<u64>, x: u64, i: int)
    requires
        0 <= i < variants.len(),
        variants[i] == x,
        forall|j: int| 0 <= j < i ==> variants[j] != x,
    ensures
        spec_enum_index(variants, x) == Some(i),
    decreases variants.len(),
{
    if i > 0 {
        lemma_enum_index_first_match(variants.drop_first(), x, i - 1);
    }
}

/// A value that occurs nowhere in `variants` has no index.
pub proof fn lemma_enum_index_absent(variants: Seq<u64>, x: u64)
    requires
        forall|j: int| 0 <= j < variants.len() ==> variants[j] != x,
    ensures
        spec_enum_index(variants, x) is None,
    decreases variants.len(),
{
    if variants.len() > 0 {
        lemma_enum_index_absent(variants.drop_first(), x);
    }
}

/// Enum round trip: a field written with a declared variant's value
/// decodes to exactly that variant again, provided the table maps no
/// numeric value to two symbols.
pub proof fn lemma_enum_round_trip(field: Field, variants: Seq<u64>, bits: u64, i: int)
    requires
        field.wf(),
        0 <= i < variants.len(),
        variants[i] <= low_mask(field.width),
        crate::layout::variants_distinct(variants),
    ensures
        spec_enum_index(variants, field.spec_read(spec_apply(bits, field.spec_val(variants[i]))))
            == Some(i),
{
    lemma_field_round_trip(field, bits, variants[i]);
    assert(forall|j: int| 0 <= j < i ==> variants[j] != variants[i]);
    lemma_enum_index_first_match(variants, variants[i], i);
}

/// Decoding reserved bits: a field written with a value the table does
/// not declare decodes to nothing.
pub proof fn lemma_enum_decode_none(field: Field, variants: Seq<u64>, bits: u64, raw: u64)
    requires
        field.wf(),
        raw <= low_mask(field.width),
        !variants.contains(raw),
    ensures
        spec_enum_index(variants, field.spec_read(spec_apply(bits, field.spec_val(raw)))) is None,
{
    lemma_field_round_trip(field, bits, raw);
    assert(forall|j: int| 0 <= j < variants.len() ==> variants[j] != raw);
    lemma_enum_index_absent(variants, raw);
}

proof fn lemma_bv_round_trip(off: u64, w: u64, bits: u64, raw: u64)
    by (bit_vector)
    requires
        1 <= w,
        w <= 64,
        off + w <= 64,
    ensures
        (((bits & !((u64::MAX >> ((64 - w) as u64)) << off)) | ((raw & (u64::MAX >> ((64 - w)
            as u64))) << off)) >> off) & (u64::MAX >> ((64 - w) as u64)) == raw & (u64::MAX >> ((64
            - w) as u64)),
{
}

/// Round trip for one field: storing `raw` in `field` over any prior
/// register bits and extracting the field again yields `raw` truncated to
/// the field's width; a `raw` within the declared width comes back
/// unchanged.
pub proof fn lemma_field_round_trip(field: Field, bits: u64, raw: u64)
    requires
        field.wf(),
    ensures
        field.spec_read(spec_apply(bits, field.spec_val(raw))) == raw & low_mask(field.width),
        raw <= low_mask(field.width) ==> field.spec_read(spec_apply(bits, field.spec_val(raw)))
            == raw,
{
    lemma_bv_round_trip(field.offset, field.width, bits, raw);
    let w = field.width;
    assert(raw <= (u64::MAX >> ((64 - w) as u64)) ==> raw & (u64::MAX >> ((64 - w) as u64)) == raw)
        by (bit_vector)
        requires
            1 <= w <= 64,
    ;
}

proof fn lemma_bv_isolation(oa: u64, wa: u64, ob: u64, wb: u64, bits: u64, v: u64)
    by (bit_vector)
    requires
        1 <= wa,
        wa <= 64,
        oa + wa <= 64,
        1 <= wb,
        wb <= 64,
        ob + wb <= 64,
        ((u64::MAX >> ((64 - wa) as u64)) << oa) & ((u64::MAX >> ((64 - wb) as u64)) << ob) == 0,
        v & ((u64::MAX >> ((64 - wa) as u64)) << oa) == v,
    ensures
        (((bits & !((u64::MAX >> ((64 - wa) as u64)) << oa)) | v) >> ob) & (u64::MAX >> ((64 - wb)
            as u64)) == (bits >> ob) & (u64::MAX >> ((64 - wb) as u64)),
{
}

/// Field isolation: writing field `a` never perturbs the stored bits of a
/// field `b` that shares no bit position with it.
pub proof fn lemma_field_isolation(a: Field, b: Field, bits: u64, raw: u64)
    requires
        a.wf(),
        b.wf(),
        a.spec_mask() & b.spec_mask() == 0,
    ensures
        b.spec_read(spec_apply(bits, a.spec_val(raw))) == b.spec_read(bits),
{
    let v = a.spec_val(raw).value;
    let oa = a.offset;
    let wa = a.width;
    assert(((raw & (u64::MAX >> ((64 - wa) as u64))) << oa) & ((u64::MAX >> ((64 - wa) as u64))
        << oa) == ((raw & (u64::MAX >> ((64 - wa) as u64))) << oa)) by (bit_vector);
    lemma_bv_isolation(a.offset, a.width, b.offset, b.width, bits, v);
}

/// Combining field/value pairs is commutative: the order in which two
/// settings are OR-ed together does not matter.
pub proof fn lemma_or_commutative(a: FieldValue, b: FieldValue)
    ensures
        a.spec_or(b) == b.spec_or(a),
{
    let (m1, v1, m2, v2) = (a.mask, a.value, b.mask, b.value);
    assert(m1 | m2 == m2 | m1) by (bit_vector);
    assert(v1 | v2 == v2 | v1) by (bit_vector);
}

/// Round trip for a combination of two disjoint fields: writing both in
/// one step stores each field's value, truncated to its width, without
/// the two perturbing each other.
pub proof fn lemma_combined_round_trip(a: Field, b: Field, bits: u64, raw_a: u64, raw_b: u64)
    requires
        a.wf(),
        b.wf(),
        a.spec_mask() & b.spec_mask() == 0,
    ensures
        a.spec_read(spec_apply(bits, a.spec_val(raw_a).spec_or(b.spec_val(raw_b)))) == raw_a
            & low_mask(a.width),
        b.spec_read(spec_apply(bits, a.spec_val(raw_a).spec_or(b.spec_val(raw_b)))) == raw_b
            & low_mask(b.width),
{
    let combined = a.spec_val(raw_a).spec_or(b.spec_val(raw_b));
    let inner = spec_apply(bits, b.spec_val(raw_b));
    let outer = spec_apply(inner, a.spec_val(raw_a));
    assert(spec_apply(bits, combined) == outer) by {
        lemma_bv_apply_split(a.offset, a.width, b.offset, b.width, bits, raw_a, raw_b);
    };
    lemma_field_round_trip(a, inner, raw_a);
    lemma_field_round_trip(b, bits, raw_b);
    lemma_field_isolation(a, b, inner, raw_a);
}

proof fn lemma_bv_apply_split(oa: u64, wa: u64, ob: u64, wb: u64, bits: u64, ra: u64, rb: u64)
    by (bit_vector)
    requires
        1 <= wa,
        wa <= 64,
        oa + wa <= 64,
        1 <= wb,
        wb <= 64,
        ob + wb <= 64,
        ((u64::MAX >> ((64 - wa) as u64)) << oa) & ((u64::MAX >> ((64 - wb) as u64)) << ob) == 0,
    ensures
        (bits & !(((u64::MAX >> ((64 - wa) as u64)) << oa) | ((u64::MAX >> ((64 - wb) as u64))
            << ob))) | (((ra & (u64::MAX >> ((64 - wa) as u64))) << oa) | ((rb & (u64::MAX >> ((64
            - wb) as u64))) << ob)) == (((bits & !((u64::MAX >> ((64 - wb) as u64)) << ob)) | ((rb
            & (u64::MAX >> ((64 - wb) as u64))) << ob)) & !((u64::MAX >> ((64 - wa) as u64)) << oa))
            | ((ra & (u64::MAX >> ((64 - wa) as u64))) << oa),
{
}

} // verus!
