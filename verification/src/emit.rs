//! Emission of the accessor implementations and of the diagnostics, verified
//! character for character against spec-level templates.

use vstd::prelude::*;
use vstd::string::StringExecFns;

use crate::decimal::{dec_str, index_text};
use crate::model::{spec_select, Capability, FieldModel, SelectError, StructModel, TyShape};
use crate::select::get_field;

verus! {

/// The diagnostic emitted when the struct has no fields, naming the
/// capability that was being derived.
pub open spec fn no_fields_diag(cap: Capability) -> Seq<char> {
    match cap {
        Capability::Read => "compile_error!(\"unable to implement `Deref` trait for struct of no fields\");"@,
        Capability::Write => "compile_error!(\"unable to implement `DerefMut` trait for struct of no fields\");"@,
    }
}

/// The diagnostic emitted when, among two or more fields, zero or several
/// carry the marker.
pub open spec fn cardinality_diag() -> Seq<char> {
    "compile_error!(\"`#[target]` is required for one field\");"@
}

/// The diagnostic emitted when the write capability is requested over a
/// field of shared-reference type.
pub open spec fn immut_ref_diag() -> Seq<char> {
    "compile_error!(\"`#[target]` is unable to be of an immutable reference\");"@
}

/// What the read accessor's body puts before `self.<field>`: a borrow for a
/// plain-typed field, nothing for a field that is already a reference.
pub open spec fn read_ref_text(shape: TyShape) -> Seq<char> {
    if shape is Plain {
        "&"@
    } else {
        Seq::<char>::empty()
    }
}

/// What the write accessor's body puts before `self.<field>`: an exclusive
/// borrow for a plain-typed field, nothing for a field that is already an
/// exclusive reference.
pub open spec fn write_ref_text(shape: TyShape) -> Seq<char> {
    if shape is Plain {
        "&mut "@
    } else {
        Seq::<char>::empty()
    }
}

/// How the selected field is addressed: by its name, or by its position.
pub open spec fn field_ref_text(fs: Seq<FieldModel>, i: int) -> Seq<char> {
    match fs[i].name {
        Some(n) => n@,
        None => dec_str(i as nat),
    }
}

/// The text of the read-accessor implementation.
pub open spec fn read_impl_text(
    name: Seq<char>,
    impl_generics: Seq<char>,
    type_generics: Seq<char>,
    where_clause: Seq<char>,
    field_ref: Seq<char>,
    field_type: Seq<char>,
    shape: TyShape,
) -> Seq<char> {
    "impl "@ + impl_generics + " core::ops::Deref for "@ + name + type_generics + " "@
        + where_clause + " { type Target = "@ + field_type
        + "; fn deref(&self) -> &Self::Target { "@ + read_ref_text(shape) + "self."@ + field_ref
        + " } }"@
}

/// The text of the write-accessor implementation; its target type is the one
/// the read accessor declared.
pub open spec fn write_impl_text(
    name: Seq<char>,
    impl_generics: Seq<char>,
    type_generics: Seq<char>,
    where_clause: Seq<char>,
    field_ref: Seq<char>,
    shape: TyShape,
) -> Seq<char> {
    "impl "@ + impl_generics + " core::ops::DerefMut for "@ + name + type_generics + " "@
        + where_clause + " { fn deref_mut(&mut self) -> &mut Self::Target { "@
        + write_ref_text(shape) + "self."@ + field_ref + " } }"@
}

/// The whole derivation, as one spec-level function of the struct's shape:
/// either the text of one accessor implementation or the text of one
/// diagnostic.
pub open spec fn spec_derive(m: &StructModel, cap: Capability) -> Seq<char> {
    match spec_select(m.fields@) {
        Ok(i) => {
            if cap is Write && m.fields@[i].shape is SharedRef {
                immut_ref_diag()
            } else {
                match cap {
                    Capability::Read => read_impl_text(
                        m.name@,
                        m.impl_generics@,
                        m.type_generics@,
                        m.where_clause@,
                        field_ref_text(m.fields@, i),
                        m.fields@[i].ty_text@,
                        m.fields@[i].shape,
                    ),
                    Capability::Write => write_impl_text(
                        m.name@,
                        m.impl_generics@,
                        m.type_generics@,
                        m.where_clause@,
                        field_ref_text(m.fields@, i),
                        m.fields@[i].shape,
                    ),
                }
            }
        },
        Err(e) => match e {
            SelectError::NoFields => no_fields_diag(cap),
            SelectError::MarkerCardinality => cardinality_diag(),
        },
    }
}

fn no_fields_diag_text(cap: Capability) -> (r: String)
    ensures
        r@ == no_fields_diag(cap),
{
    match cap {
        Capability::Read => "compile_error!(\"unable to implement `Deref` trait for struct of no fields\");".to_owned(),
        Capability::Write => "compile_error!(\"unable to implement `DerefMut` trait for struct of no fields\");".to_owned(),
    }
}

fn cardinality_diag_text() -> (r: String)
    ensures
        r@ == cardinality_diag(),
{
    "compile_error!(\"`#[target]` is required for one field\");".to_owned()
}

fn immut_ref_diag_text() -> (r: String)
    ensures
        r@ == immut_ref_diag(),
{
    "compile_error!(\"`#[target]` is unable to be of an immutable reference\");".to_owned()
}

fn read_ref_str(shape: TyShape) -> (r: &'static str)
    ensures
        r@ == read_ref_text(shape),
{
    proof {
        reveal_strlit("");
        assert(""@ =~= Seq::<char>::empty());
    }
    if let TyShape::Plain = shape {
        "&"
    } else {
        ""
    }
}

fn write_ref_str(shape: TyShape) -> (r: &'static str)
    ensures
        r@ == write_ref_text(shape),
{
    proof {
        reveal_strlit("");
        assert(""@ =~= Seq::<char>::empty());
    }
    if let TyShape::Plain = shape {
        "&mut "
    } else {
        ""
    }
}

/// Finds the selected field's reference text, delegated-to type text and
/// type shape, or the diagnostic text when no field can be selected.
pub fn extract_field_parameters(fields: &Vec<FieldModel>, cap: Capability) -> (r: Result<
    (String, String, TyShape),
    String,
>)
    ensures
        match r {
            Ok(p) => {
                &&& spec_select(fields@) is Ok
                &&& p.0@ == field_ref_text(fields@, spec_select(fields@)->Ok_0)
                &&& p.1@ == fields@[spec_select(fields@)->Ok_0].ty_text@
                &&& p.2 == fields@[spec_select(fields@)->Ok_0].shape
            },
            Err(d) => match spec_select(fields@) {
                Ok(_) => false,
                Err(SelectError::NoFields) => d@ == no_fields_diag(cap),
                Err(SelectError::MarkerCardinality) => d@ == cardinality_diag(),
            },
        },
{
    match get_field(fields) {
        Ok(i) => {
            let f = &fields[i];
            let fr = match &f.name {
                Some(nm) => nm.clone(),
                None => index_text(i),
            };
            Ok((fr, f.ty_text.clone(), f.shape))
        },
        Err(SelectError::NoFields) => Err(no_fields_diag_text(cap)),
        Err(SelectError::MarkerCardinality) => Err(cardinality_diag_text()),
    }
}

/// Builds the accessor implementation for the selected field, or the
/// type-incompatibility diagnostic when the write capability is requested
/// over a field of shared-reference type.
pub fn impl_deref(
    struct_name: &str,
    impl_generics: &str,
    type_generics: &str,
    where_clause: &str,
    field_ref: &str,
    field_type: &str,
    shape: TyShape,
    cap: Capability,
) -> (r: String)
    ensures
        r@ == (match cap {
            Capability::Read => read_impl_text(
                struct_name@,
                impl_generics@,
                type_generics@,
                where_clause@,
                field_ref@,
                field_type@,
                shape,
            ),
            Capability::Write => if shape is SharedRef {
                immut_ref_diag()
            } else {
                write_impl_text(
                    struct_name@,
                    impl_generics@,
                    type_generics@,
                    where_clause@,
                    field_ref@,
                    shape,
                )
            },
        }),
{
    match cap {
        Capability::Read => {
            let mut s = String::new();
            s.append("impl ");
            s.append(impl_generics);
            s.append(" core::ops::Deref for ");
            s.append(struct_name);
            s.append(type_generics);
            s.append(" ");
            s.append(where_clause);
            s.append(" { type Target = ");
            s.append(field_type);
            s.append("; fn deref(&self) -> &Self::Target { ");
            s.append(read_ref_str(shape));
            s.append("self.");
            s.append(field_ref);
            s.append(" } }");
            proof {
                assert(s@ =~= read_impl_text(
                    struct_name@,
                    impl_generics@,
                    type_generics@,
                    where_clause@,
                    field_ref@,
                    field_type@,
                    shape,
                ));
            }
            s
        },
        Capability::Write => {
            if let TyShape::SharedRef = shape {
                return immut_ref_diag_text();
            }
            let mut s = String::new();
            s.append("impl ");
            s.append(impl_generics);
            s.append(" core::ops::DerefMut for ");
            s.append(struct_name);
            s.append(type_generics);
            s.append(" ");
            s.append(where_clause);
            s.append(" { fn deref_mut(&mut self) -> &mut Self::Target { ");
            s.append(write_ref_str(shape));
            s.append("self.");
            s.append(field_ref);
            s.append(" } }");
            proof {
                assert(s@ =~= write_impl_text(
                    struct_name@,
                    impl_generics@,
                    type_generics@,
                    where_clause@,
                    field_ref@,
                    shape,
                ));
            }
            s
        },
    }
}

/// One whole derivation over the struct's shape: the text of the requested
/// accessor implementation, or of the diagnostic that explains why none can
/// be produced.
pub fn derive_capability(m: &StructModel, cap: Capability) -> (r: String)
    ensures
        r@ == spec_derive(m, cap),
{
    match extract_field_parameters(&m.fields, cap) {
        Ok(p) => impl_deref(
            m.name.as_str(),
            m.impl_generics.as_str(),
            m.type_generics.as_str(),
            m.where_clause.as_str(),
            p.0.as_str(),
            p.1.as_str(),
            p.2,
            cap,
        ),
        Err(d) => d,
    }
}

} // verus!
