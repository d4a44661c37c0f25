//! Register layout descriptions.
//!
//! A [`Layout`] is the complete field decomposition of one register: an
//! ordered set of [`Field`]s over the 64-bit backing word.  Two fields of
//! one layout must never claim a common bit position — a violation would
//! silently corrupt adjacent fields on write — so construction checks for
//! overlap and rejects it, instead of documenting a precondition callers
//! could miss.  Enum tables are checked here too: one numeric value
//! mapping to two symbols would make decoding ambiguous.

use vstd::prelude::*;

use crate::fields::Field;

verus! {

/// Why a layout or an enum table was rejected at construction.
#[derive(Clone, Copy, Debug, PartialEq, Eq, Structural)]
pub enum LayoutError {
    /// A field has zero width or reaches past the backing word.
    MalformedField,
    /// Two fields of the layout claim a common bit position.
    OverlappingFields,
    /// Two enum table entries map one numeric value to two symbols.
    AmbiguousEnumValue,
}

/// Every field lies inside the backing word and is at least one bit wide.
pub open spec fn all_fields_wf(fields: Seq<Field>) -> bool {
    forall|i: int| 0 <= i < fields.len() ==> (#[trigger] fields[i]).wf()
}

/// No two fields claim a common bit position.
pub open spec fn fields_disjoint(fields: Seq<Field>) -> bool {
    forall|i: int, j: int|
        0 <= i < j < fields.len() ==> (#[trigger] fields[i]).spec_mask() & (
        #[trigger] fields[j]).spec_mask() == 0
}

/// No numeric value occurs twice in the variant table.
pub open spec fn variants_distinct(variants: Seq<u64>) -> bool {
    forall|i: int, j: int| 0 <= i < j < variants.len() ==> variants[i] != variants[j]
}

/// The field decomposition of one register: an ordered set of
/// non-overlapping fields over the 64-bit backing word.
pub struct Layout {
    fields: Vec<Field>,
}

impl Layout {
    /// The layout's fields, in declaration order.
    pub closed spec fn fields_spec(&self) -> Seq<Field> {
        self.fields@
    }

    /// Builds the layout, rejecting a malformed field and, fields all
    /// well formed, any pair of overlapping fields.
    pub fn new(fields: Vec<Field>) -> (r: Result<Layout, LayoutError>)
        ensures
            (r matches Ok(l) ==> l.fields_spec() == fields@ && all_fields_wf(fields@)
                && fields_disjoint(fields@)),
            r == Err::<Layout, LayoutError>(LayoutError::MalformedField) <==> !all_fields_wf(
                fields@),
            r == Err::<Layout, LayoutError>(LayoutError::OverlappingFields) <==> (all_fields_wf(
                fields@) && !fields_disjoint(fields@)),
    {
        let n = fields.len();
        let mut i: usize = 0;
        while i < n
            invariant
                n == fields.len(),
                i <= n,
                forall|k: int| 0 <= k < i ==> (#[trigger] fields@[k]).wf(),
            decreases n - i,
        {
            let f = fields[i];
            if f.width < 1 || f.width > 64 || f.offset > 64 - f.width {
                assert(!fields@[i as int].wf());
                return Err(LayoutError::MalformedField);
            }
            i += 1;
        }
        let mut i: usize = 0;
        while i < n
            invariant
                n == fields.len(),
                i <= n,
                all_fields_wf(fields@),
                forall|k: int, l: int|
                    0 <= k < l < fields@.len() && k < i ==> (#[trigger] fields@[k]).spec_mask() & (
                    #[trigger] fields@[l]).spec_mask() == 0,
            decreases n - i,
        {
            let mut j: usize = i + 1;
            while j < n
                invariant
                    n == fields.len(),
                    i < n,
                    i < j <= n,
                    all_fields_wf(fields@),
                    forall|l: int|
                        i < l < j ==> fields@[i as int].spec_mask() & (
                        #[trigger] fields@[l]).spec_mask() == 0,
                decreases n - j,
            {
                if fields[i].mask() & fields[j].mask() != 0 {
                    assert(fields@[i as int].spec_mask() & fields@[j as int].spec_mask() != 0);
                    assert(!fields_disjoint(fields@));
                    return Err(LayoutError::OverlappingFields);
                }
                j += 1;
            }
            i += 1;
        }
        Ok(Layout { fields })
    }

    /// How many fields the layout declares.
    pub fn len(&self) -> (r: usize)
        ensures
            r == self.fields_spec().len(),
    {
        self.fields.len()
    }

    /// The `i`-th declared field.
    pub fn field(&self, i: usize) -> (r: Field)
        requires
            i < self.fields_spec().len(),
        ensures
            r == self.fields_spec()[i as int],
    {
        self.fields[i]
    }
}

/// Checks an enum variant table for ambiguity: accepted exactly when no
/// numeric value maps to two symbols.
pub fn check_enum_table(variants: &Vec<u64>) -> (r: Result<(), LayoutError>)
    ensures
        r is Ok <==> variants_distinct(variants@),
        r is Err ==> r == Err::<(), LayoutError>(LayoutError::AmbiguousEnumValue),
{
    let n = variants.len();
    let mut i: usize = 0;
    while i < n
        invariant
            n == variants.len(),
            i <= n,
            forall|k: int, l: int| 0 <= k < l < n && k < i ==> variants@[k] != variants@[l],
        decreases n - i,
    {
        let mut j: usize = i + 1;
        while j < n
            invariant
                n == variants.len(),
                i < n,
                i < j <= n,
                forall|l: int| i < l < j ==> variants@[i as int] != variants@[l],
            decreases n - j,
        {
            if variants[i] == variants[j] {
                return Err(LayoutError::AmbiguousEnumValue);
            }
            j += 1;
        }
        i += 1;
    }
    Ok(())
}

} // verus!
