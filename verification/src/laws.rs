//! The laws of field selection and accessor emission, stated over the
//! spec-level model and proved once for every struct shape.

use vstd::prelude::*;

use crate::emit::{
    field_ref_text, immut_ref_diag, no_fields_diag, read_impl_text, read_ref_text, spec_derive,
    cardinality_diag,
};
use crate::model::{
    field_models_match, is_unique_marked, marked_count, models_match, spec_select, Capability,
    FieldModel, SelectError, StructModel,
};

verus! {

/// A marked field means at least one field is marked.
proof fn lemma_marked_count_positive(fs: Seq<FieldModel>, i: int)
    requires
        0 <= i < fs.len(),
        fs[i].marked,
    ensures
        marked_count(fs) >= 1,
    decreases fs.len(),
{
    if i < fs.len() - 1 {
        lemma_marked_count_positive(fs.drop_last(), i);
    }
}

/// Two distinct marked fields mean at least two fields are marked.
proof fn lemma_marked_count_two(fs: Seq<FieldModel>, i: int, j: int)
    requires
        0 <= i < fs.len(),
        0 <= j < fs.len(),
        i != j,
        fs[i].marked,
        fs[j].marked,
    ensures
        marked_count(fs) >= 2,
    decreases fs.len(),
{
    if i < fs.len() - 1 && j < fs.len() - 1 {
        lemma_marked_count_two(fs.drop_last(), i, j);
    } else if i < fs.len() - 1 {
        lemma_marked_count_positive(fs.drop_last(), i);
    } else {
        lemma_marked_count_positive(fs.drop_last(), j);
    }
}

/// A uniquely marked field is the same thing as a marker count of one.
pub proof fn lemma_unique_marked_iff_count_one(fs: Seq<FieldModel>)
    ensures
        (exists|i: int| is_unique_marked(fs, i)) <==> marked_count(fs) == 1,
    decreases fs.len(),
{
    if exists|i: int| is_unique_marked(fs, i) {
        let i = choose|i: int| is_unique_marked(fs, i);
        lemma_marked_count_positive(fs, i);
        if marked_count(fs) >= 2 {
            lemma_count_two_witnesses(fs);
        }
    }
    if marked_count(fs) == 1 {
        lemma_count_one_witness(fs);
    }
}

/// A marker count of one exhibits the uniquely marked field.
proof fn lemma_count_one_witness(fs: Seq<FieldModel>)
    requires
        marked_count(fs) == 1,
    ensures
        exists|i: int| is_unique_marked(fs, i),
    decreases fs.len(),
{
    if fs.last().marked {
        lemma_marked_count_none_converse(fs.drop_last());
        assert forall|j: int| 0 <= j < fs.len() && fs[j].marked implies j == fs.len() - 1 by {
            if j < fs.len() - 1 {
                assert(fs.drop_last()[j] == fs[j]);
            }
        }
        assert(is_unique_marked(fs, fs.len() - 1));
    } else {
        lemma_count_one_witness(fs.drop_last());
        let i = choose|i: int| is_unique_marked(fs.drop_last(), i);
        assert(fs.drop_last()[i] == fs[i]);
        assert forall|j: int| 0 <= j < fs.len() && fs[j].marked implies j == i by {
            if j < fs.len() - 1 {
                assert(fs.drop_last()[j] == fs[j]);
            } else {
                assert(fs.last() == fs[j]);
            }
        }
        assert(is_unique_marked(fs, i));
    }
}

/// A marker count of zero means no field is marked.
proof fn lemma_marked_count_none_converse(fs: Seq<FieldModel>)
    requires
        marked_count(fs) == 0,
    ensures
        forall|j: int| 0 <= j < fs.len() ==> !fs[j].marked,
    decreases fs.len(),
{
    if fs.len() > 0 {
        lemma_marked_count_none_converse(fs.drop_last());
        assert forall|j: int| 0 <= j < fs.len() implies !fs[j].marked by {
            if j < fs.len() - 1 {
                assert(fs.drop_last()[j] == fs[j]);
            }
        }
    }
}

/// A marker count of two or more exhibits two distinct marked fields.
proof fn lemma_count_two_witnesses(fs: Seq<FieldModel>)
    requires
        marked_count(fs) >= 2,
    ensures
        exists|i: int, j: int|
            0 <= i < fs.len() && 0 <= j < fs.len() && i != j && fs[i].marked && fs[j].marked,
        !(exists|i: int| is_unique_marked(fs, i)),
    decreases fs.len(),
{
    if fs.last().marked {
        lemma_count_one_or_more_witness(fs.drop_last());
        let i = choose|i: int| 0 <= i < fs.drop_last().len() && fs.drop_last()[i].marked;
        assert(fs[i].marked);
        assert(fs[fs.len() - 1].marked);
        assert(0 <= i < fs.len() && 0 <= fs.len() - 1 < fs.len() && i != fs.len() - 1
            && fs[i].marked && fs[fs.len() - 1].marked);
    } else {
        lemma_count_two_witnesses(fs.drop_last());
        let (i, j) = choose|i: int, j: int|
            0 <= i < fs.drop_last().len() && 0 <= j < fs.drop_last().len() && i != j
                && fs.drop_last()[i].marked && fs.drop_last()[j].marked;
        assert(0 <= i < fs.len() && 0 <= j < fs.len() && i != j && fs[i].marked && fs[j].marked);
    }
}

/// A marker count of one or more exhibits a marked field.
proof fn lemma_count_one_or_more_witness(fs: Seq<FieldModel>)
    requires
        marked_count(fs) >= 1,
    ensures
        exists|i: int| 0 <= i < fs.len() && fs[i].marked,
    decreases fs.len(),
{
    if fs.last().marked {
        assert(fs[fs.len() - 1].marked);
    } else {
        lemma_count_one_or_more_witness(fs.drop_last());
        let i = choose|i: int| 0 <= i < fs.drop_last().len() && fs.drop_last()[i].marked;
        assert(fs[i].marked);
    }
}

/// A structure with a single field selects that field, whether or not it
/// carries the marker.
pub proof fn lemma_single_field_selected(fs: Seq<FieldModel>)
    requires
        fs.len() == 1,
    ensures
        spec_select(fs) == Ok::<int, SelectError>(0),
{
}

/// Among two or more fields, the single marked field is the selection.
pub proof fn lemma_unique_marker_selected(fs: Seq<FieldModel>, i: int)
    requires
        fs.len() > 1,
        marked_count(fs) == 1,
        0 <= i < fs.len(),
        fs[i].marked,
    ensures
        spec_select(fs) == Ok::<int, SelectError>(i),
{
    lemma_unique_marked_iff_count_one(fs);
    let w = choose|u: int| is_unique_marked(fs, u);
    assert(is_unique_marked(fs, w));
    assert(w == i);
}

/// Among two or more fields, a marker count other than one is rejected with
/// the cardinality diagnostic.
pub proof fn lemma_marker_cardinality_rejected(fs: Seq<FieldModel>)
    requires
        fs.len() > 1,
        marked_count(fs) != 1,
    ensures
        spec_select(fs) == Err::<int, SelectError>(SelectError::MarkerCardinality),
{
    lemma_unique_marked_iff_count_one(fs);
}

/// A field-less structure is rejected by both capabilities with the
/// capability-cannot-apply diagnostic.
pub proof fn lemma_no_fields_rejected(m: &StructModel, cap: Capability)
    requires
        m.fields@.len() == 0,
    ensures
        spec_derive(m, cap) == no_fields_diag(cap),
{
}

/// Among two or more fields, zero or several markers leave both derivations
/// with the cardinality diagnostic.
pub proof fn lemma_cardinality_diagnosed(m: &StructModel, cap: Capability)
    requires
        m.fields@.len() > 1,
        marked_count(m.fields@) != 1,
    ensures
        spec_derive(m, cap) == cardinality_diag(),
{
    lemma_marker_cardinality_rejected(m.fields@);
}

/// When the selected field's own type is a reference, the emitted read
/// accessor returns that reference itself: its body puts nothing before
/// `self.<field>`, and its target type is the field's referent.
pub proof fn lemma_reference_passed_through(m: &StructModel, i: int)
    requires
        spec_select(m.fields@) == Ok::<int, SelectError>(i),
        !(m.fields@[i].shape is Plain),
    ensures
        read_ref_text(m.fields@[i].shape) == Seq::<char>::empty(),
        spec_derive(m, Capability::Read) == read_impl_text(
            m.name@,
            m.impl_generics@,
            m.type_generics@,
            m.where_clause@,
            field_ref_text(m.fields@, i),
            m.fields@[i].ty_text@,
            m.fields@[i].shape,
        ),
{
}

/// Two matching models — same texts, same markers, same shapes, field for
/// field — derive the same text, for either capability.
pub proof fn lemma_derive_respects_match(a: StructModel, b: StructModel, cap: Capability)
    requires
        models_match(&a, &b),
    ensures
        spec_derive(&a, cap) == spec_derive(&b, cap),
{
    let fa = a.fields@;
    let fb = b.fields@;
    assert forall|i: int| is_unique_marked(fa, i) implies is_unique_marked(fb, i) by {
        assert(field_models_match(fa[i], fb[i]));
        assert forall|j: int| 0 <= j < fb.len() && fb[j].marked implies j == i by {
            assert(field_models_match(fa[j], fb[j]));
        }
    }
    assert forall|i: int| is_unique_marked(fb, i) implies is_unique_marked(fa, i) by {
        assert(field_models_match(fa[i], fb[i]));
        assert forall|j: int| 0 <= j < fa.len() && fa[j].marked implies j == i by {
            assert(field_models_match(fa[j], fb[j]));
        }
    }
    if fa.len() > 1 && (exists|i: int| is_unique_marked(fa, i)) {
        let wa = choose|i: int| is_unique_marked(fa, i);
        let wb = choose|i: int| is_unique_marked(fb, i);
        assert(is_unique_marked(fb, wa));
        assert(wa == wb);
        assert(spec_select(fa) == Ok::<int, SelectError>(wa));
        assert(spec_select(fb) == Ok::<int, SelectError>(wa));
    }
    assert(spec_select(fa) == spec_select(fb));
    match spec_select(fa) {
        Ok(i) => {
            assert(field_models_match(fa[i], fb[i]));
            assert(field_ref_text(fa, i) == field_ref_text(fb, i));
        },
        Err(_) => {},
    }
}

/// Requesting the write capability where the selected field is of
/// shared-reference type fails with the type-incompatibility diagnostic,
/// whatever the rest of the structure looks like.
pub proof fn lemma_write_over_shared_ref_rejected(m: &StructModel, i: int)
    requires
        spec_select(m.fields@) == Ok::<int, SelectError>(i),
        m.fields@[i].shape is SharedRef,
    ensures
        spec_derive(m, Capability::Write) == immut_ref_diag(),
{
}

} // verus!
