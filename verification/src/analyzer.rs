//! Shape analysis: walking a record type's declared field list and deciding
//! whether every field is an optional slot.

use vstd::prelude::*;

verus! {

/// The part of a field's declared type that the analyzer reads: for a path
/// type applied to angle-bracketed arguments, the final path-segment name of
/// the wrapper and the number of type arguments supplied to it. A
/// fully-qualified spelling of a wrapper and its short form carry the same
/// final segment, so the two are indistinguishable here, by design.
#[derive(Debug)]
pub enum TypeShape {
    /// A path type whose final segment is `name`, applied to `type_args`
    /// generic type arguments in angle brackets.
    Generic { name: String, type_args: usize },
    /// Any other declared type: a non-path type, or a path without
    /// angle-bracketed arguments.
    Other,
}

/// One declared field: its name and the shape of its declared type.
#[derive(Debug)]
pub struct FieldDecl {
    pub name: String,
    pub ty: TypeShape,
}

/// The declared structure of one record type, as far as the analyzer looks:
/// its data kind, and for a named-field record the fields in declaration
/// order.
#[derive(Debug)]
pub enum RecordShape {
    /// A single record with named fields, in declaration order.
    NamedFieldRecord(Vec<FieldDecl>),
    /// A record with positional or no named fields (a tuple or unit struct).
    UnnamedFieldRecord,
    /// A union or variant type: not a record at all.
    NotARecord,
}

/// Why a record type's shape was rejected. Structural rejections are
/// definition-time failures: no checker exists for a rejected type.
#[derive(Debug, PartialEq, Eq)]
pub enum StructuralRejection {
    /// The type is not a single record with named fields.
    NotANamedFieldRecord,
    /// The record declares no fields at all.
    NoEligibleFields,
    /// The named field's declared type is not optional-of-T. The first
    /// offending field in declaration order is the one reported.
    NonOptionalField(String),
}

/// A field recognized as an optional slot. Holding one is the proof that the
/// analyzer accepted the field's declared type as optional-of-T.
#[derive(Debug)]
pub struct OptionalSlotField {
    pub name: String,
}

/// The name of the recognized optional wrapper.
pub open spec fn option_marker() -> Seq<char> {
    "Option"@
}

/// A declared type is an optional slot when it is the recognized optional
/// wrapper applied to exactly one type argument.
pub open spec fn is_optional_slot(t: TypeShape) -> bool {
    match t {
        TypeShape::Generic { name, type_args } => name@ == option_marker() && type_args == 1,
        TypeShape::Other => false,
    }
}

/// Every declared field is an optional slot.
pub open spec fn all_optional(fields: Seq<FieldDecl>) -> bool {
    forall|i: int| 0 <= i < fields.len() ==> #[trigger] is_optional_slot(fields[i].ty)
}

/// Field `i` is the first one, in declaration order, that is not an optional
/// slot.
pub open spec fn first_offender(fields: Seq<FieldDecl>, i: int) -> bool {
    &&& 0 <= i < fields.len()
    &&& !is_optional_slot(fields[i].ty)
    &&& forall|j: int| 0 <= j < i ==> #[trigger] is_optional_slot(fields[j].ty)
}

/// What `analyze` promises of its result: the accepted shapes are exactly the
/// named-field records with at least one field, all of them optional slots,
/// and then the slots carry the field names in declaration order; an empty
/// named-field record, a shape without named fields, and a record with a
/// non-optional field each draw their own rejection, the last one naming the
/// first offending field.
pub open spec fn analyze_post(
    shape: RecordShape,
    r: Result<Vec<OptionalSlotField>, StructuralRejection>,
) -> bool {
    match shape {
        RecordShape::NamedFieldRecord(fields) => {
            &&& (fields@.len() == 0 ==> (r matches Err(rej) && rej is NoEligibleFields))
            &&& (fields@.len() > 0 && all_optional(fields@) ==> (r matches Ok(slots)
                && slots@.len() == fields@.len()
                && (forall|i: int|
                    0 <= i < fields@.len() ==> #[trigger] slots@[i].name@ == fields@[i].name@)))
            &&& (!all_optional(fields@) ==> (r matches Err(rej)
                && rej matches StructuralRejection::NonOptionalField(n)
                && (exists|i: int| #[trigger] first_offender(fields@, i) && n@ == fields@[i].name@)))
        },
        RecordShape::UnnamedFieldRecord => r matches Err(rej) && rej is NotANamedFieldRecord,
        RecordShape::NotARecord => r matches Err(rej) && rej is NotANamedFieldRecord,
    }
}

/// Decides whether one declared type is an optional slot.
pub fn field_is_optional(t: &TypeShape) -> (b: bool)
    ensures
        b == is_optional_slot(*t),
{
    match t {
        TypeShape::Generic { name, type_args } => {
            let marker: String = "Option".to_owned();
            *type_args == 1 && name.eq(&marker)
        },
        TypeShape::Other => false,
    }
}

/// Analyzes a record type's declared shape. Accepts exactly the shapes that
/// are a named-field record with at least one field, every field an optional
/// slot, and then returns the full field list as optional slots, names in
/// declaration order. Rejects a non-record or positional shape outright, an
/// empty field list, and otherwise the first field, left to right, whose
/// declared type is not optional-of-T, naming that field.
#[verifier::loop_isolation(false)]
pub fn analyze(shape: &RecordShape) -> (r: Result<Vec<OptionalSlotField>, StructuralRejection>)
    ensures
        analyze_post(*shape, r),
{
    match shape {
        RecordShape::NamedFieldRecord(fields) => {
            if fields.len() == 0 {
                return Err(StructuralRejection::NoEligibleFields);
            }
            let mut slots: Vec<OptionalSlotField> = Vec::new();
            let mut i: usize = 0;
            while i < fields.len()
                invariant
                    i <= fields@.len(),
                    slots@.len() == i,
                    forall|j: int| 0 <= j < i ==> #[trigger] is_optional_slot(fields@[j].ty),
                    forall|j: int| 0 <= j < i ==> #[trigger] slots@[j].name@ == fields@[j].name@,
                decreases fields@.len() - i,
            {
                let f = &fields[i];
                if !field_is_optional(&f.ty) {
                    proof {
                        assert(first_offender(fields@, i as int));
                    }
                    return Err(StructuralRejection::NonOptionalField(f.name.clone()));
                }
                slots.push(OptionalSlotField { name: f.name.clone() });
                i = i + 1;
            }
            Ok(slots)
        },
        RecordShape::UnnamedFieldRecord => Err(StructuralRejection::NotANamedFieldRecord),
        RecordShape::NotARecord => Err(StructuralRejection::NotANamedFieldRecord),
    }
}

} // verus!
