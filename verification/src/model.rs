//! The shape of a struct declaration, reduced to exactly what field
//! selection and accessor emission read.

use vstd::prelude::*;

verus! {

/// Classification of a field's declared type: a plain (non-reference) type,
/// a shared (immutable) reference, or an exclusive (mutable) reference.
#[derive(Clone, Copy, PartialEq, Eq, Structural, Debug)]
pub enum TyShape {
    Plain,
    SharedRef,
    ExclusiveRef,
}

/// One field, reduced to what delegation needs: its name if it has one (a
/// tuple field is addressed by its position instead), whether it carries a
/// bare `#[target]` marker, the text of the type delegated to, and the shape
/// of its declared type. For a reference-typed field, `ty_text` holds the
/// referent's text, since delegation passes the reference itself through.
pub struct FieldModel {
    pub name: Option<String>,
    pub marked: bool,
    pub ty_text: String,
    pub shape: TyShape,
}

/// A struct declaration, reduced to what the two derivations read: its name,
/// the three printed parts of its generics clause (kept unchanged in the
/// emitted implementation), and its fields in declaration order.
pub struct StructModel {
    pub name: String,
    pub impl_generics: String,
    pub type_generics: String,
    pub where_clause: String,
    pub fields: Vec<FieldModel>,
}

/// Which of the two delegation capabilities is being derived.
#[derive(Clone, Copy, PartialEq, Eq, Structural, Debug)]
pub enum Capability {
    Read,
    Write,
}

/// Why no field could be selected.
#[derive(Clone, Copy, PartialEq, Eq, Structural, Debug)]
pub enum SelectError {
    /// The struct has no fields, so the capability cannot apply.
    NoFields,
    /// Among two or more fields, zero or several carry the marker.
    MarkerCardinality,
}

/// Field `i` is the one and only field of `fs` that carries the marker.
pub open spec fn is_unique_marked(fs: Seq<FieldModel>, i: int) -> bool {
    &&& 0 <= i < fs.len()
    &&& fs[i].marked
    &&& forall|j: int| 0 <= j < fs.len() && fs[j].marked ==> j == i
}

/// How many fields of `fs` carry the marker.
pub open spec fn marked_count(fs: Seq<FieldModel>) -> nat
    decreases fs.len(),
{
    if fs.len() == 0 {
        0
    } else {
        marked_count(fs.drop_last()) + if fs.last().marked {
            1nat
        } else {
            0nat
        }
    }
}

/// The two fields describe the same declaration: same name or same position,
/// same marker, same type text, same shape.
pub open spec fn field_models_match(a: FieldModel, b: FieldModel) -> bool {
    &&& (match (a.name, b.name) {
        (Some(x), Some(y)) => x@ == y@,
        (None, None) => true,
        _ => false,
    })
    &&& a.marked == b.marked
    &&& a.ty_text@ == b.ty_text@
    &&& a.shape == b.shape
}

/// The two models describe the same struct: same texts and, field for field,
/// the same fields.
pub open spec fn models_match(a: &StructModel, b: &StructModel) -> bool {
    &&& a.name@ == b.name@
    &&& a.impl_generics@ == b.impl_generics@
    &&& a.type_generics@ == b.type_generics@
    &&& a.where_clause@ == b.where_clause@
    &&& a.fields@.len() == b.fields@.len()
    &&& forall|i: int|
        0 <= i < a.fields@.len() ==> field_models_match(#[trigger] a.fields@[i], b.fields@[i])
}

/// The selection rule: a lone field is always the target; among two or more
/// fields, the single marked one; no fields, no selection.
pub open spec fn spec_select(fs: Seq<FieldModel>) -> Result<int, SelectError> {
    if fs.len() == 0 {
        Err(SelectError::NoFields)
    } else if fs.len() == 1 {
        Ok(0)
    } else if exists|i: int| is_unique_marked(fs, i) {
        Ok(choose|i: int| is_unique_marked(fs, i))
    } else {
        Err(SelectError::MarkerCardinality)
    }
}

} // verus!
