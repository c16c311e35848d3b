//! The boundary to the host language's syntax: parsing a struct declaration
//! and reducing it to the model the verified logic works on.
//!
//! Which token texts lex, how a parse failure is worded, and how tokens are
//! printed back all depend on the process environment — inside a proc-macro
//! host the compiler's own lexer and printer serve, elsewhere the bundled
//! ones — so nothing here ties the parse outcome to the input text. What is
//! fixed is the declaration the parser yielded: `model_of` names what the
//! library reads of it, the trusted accessors below each state one piece of
//! that, a verified loop assembles the pieces, and the public derivations
//! promise the exact derivation text over that model, whatever the parser
//! returned.

use vstd::prelude::*;

use quote::ToTokens;

use crate::emit::{derive_capability, spec_derive};
use crate::laws::lemma_derive_respects_match;
use crate::model::{field_models_match, models_match, Capability, FieldModel, StructModel, TyShape};

verus! {

#[verifier::external_type_specification]
#[verifier::external_body]
pub struct ExItemStruct(syn::ItemStruct);

/// What the library reads of one parsed struct declaration: its name, the
/// printed parts of its generics clause, and its fields.
pub uninterp spec fn model_of(item: syn::ItemStruct) -> StructModel;

/// Relies on `syn::parse_str::<syn::ItemStruct>` and
/// `syn::Error::to_compile_error`: parses `input` as one struct declaration,
/// or renders the parse error as the text of a `compile_error!` invocation.
/// Whether a given text lexes, and how a failure is worded, depend on the
/// process environment, so nothing ties the outcome to the text; of the
/// failure text only what every rendering of the error's tokens shows is
/// stated — the `compile_error` ident printed contiguously.
#[verifier::external_body]
fn parse_item_struct(input: &str) -> (r: Result<syn::ItemStruct, String>)
    ensures
        r matches Err(d) ==> exists|a: Seq<char>, b: Seq<char>| d@ == a + "compile_error"@ + b,
{
    match syn::parse_str::<syn::ItemStruct>(input) {
        Ok(item) => Ok(item),
        Err(e) => Err(e.to_compile_error().to_string()),
    }
}

/// Relies on `proc_macro2::Ident`'s `Display`: the struct's name as text.
#[verifier::external_body]
fn struct_name_text(item: &syn::ItemStruct) -> (r: String)
    ensures
        r@ == model_of(*item).name@,
{
    item.ident.to_string()
}

/// Relies on `syn::Generics::split_for_impl` and `quote`'s `ToTokens`: the
/// three printed parts of the generics clause, in the order an impl uses
/// them, kept unchanged in the emitted implementation.
#[verifier::external_body]
fn generics_texts(item: &syn::ItemStruct) -> (r: (String, String, String))
    ensures
        r.0@ == model_of(*item).impl_generics@,
        r.1@ == model_of(*item).type_generics@,
        r.2@ == model_of(*item).where_clause@,
{
    let (impl_generics, type_generics, where_clause) = item.generics.split_for_impl();
    (
        impl_generics.to_token_stream().to_string(),
        type_generics.to_token_stream().to_string(),
        where_clause.to_token_stream().to_string(),
    )
}

/// Relies on `syn::Fields::len`: how many fields the declaration has, unit
/// structs counting as having none.
#[verifier::external_body]
fn field_count(item: &syn::ItemStruct) -> (r: usize)
    ensures
        r == model_of(*item).fields@.len(),
{
    item.fields.len()
}

/// Relies on `syn::Fields::iter` and `proc_macro2::Ident`'s `Display`: the
/// name of the field at position `i`, or nothing for a tuple field.
#[verifier::external_body]
fn field_name_text(item: &syn::ItemStruct, i: usize) -> (r: Option<String>)
    ensures
        i < model_of(*item).fields@.len() ==> (match r {
            Some(n) => model_of(*item).fields@[i as int].name matches Some(m) && n@ == m@,
            None => model_of(*item).fields@[i as int].name is None,
        }),
{
    match item.fields.iter().nth(i) {
        Some(f) => f.ident.as_ref().map(|ident| ident.to_string()),
        None => None,
    }
}

/// Relies on `syn::Meta::require_path_only` and `syn::Path::is_ident`:
/// whether some attribute of the field at position `i` is exactly the bare
/// path `target` — an attribute with arguments does not count.
#[verifier::external_body]
fn field_marked(item: &syn::ItemStruct, i: usize) -> (r: bool)
    ensures
        i < model_of(*item).fields@.len() ==> r == model_of(*item).fields@[i as int].marked,
{
    match item.fields.iter().nth(i) {
        Some(f) => f.attrs.iter().any(|attribute| {
            attribute.meta.require_path_only().is_ok_and(|path| path.is_ident("target"))
        }),
        None => false,
    }
}

/// Relies on `quote`'s `ToTokens` for `syn::Type`: the declared type of the
/// field at position `i`, split into its reference shape and the text of the
/// type delegated to (the referent's text for a reference, the whole type's
/// text otherwise).
#[verifier::external_body]
fn field_type_parts(item: &syn::ItemStruct, i: usize) -> (r: (TyShape, String))
    ensures
        i < model_of(*item).fields@.len() ==> r.0 == model_of(*item).fields@[i as int].shape
            && r.1@ == model_of(*item).fields@[i as int].ty_text@,
{
    match item.fields.iter().nth(i) {
        Some(f) => match &f.ty {
            syn::Type::Reference(reference_type) => {
                let shape = if reference_type.mutability.is_some() {
                    TyShape::ExclusiveRef
                } else {
                    TyShape::SharedRef
                };
                (shape, reference_type.elem.to_token_stream().to_string())
            },
            other => (TyShape::Plain, other.to_token_stream().to_string()),
        },
        None => (TyShape::Plain, String::new()),
    }
}

/// Assembles the model of a parsed struct declaration from the trusted
/// accessors, piece by piece.
fn model_of_item(item: &syn::ItemStruct) -> (m: StructModel)
    ensures
        models_match(&m, &model_of(*item)),
{
    let (impl_generics, type_generics, where_clause) = generics_texts(item);
    let n = field_count(item);
    let mut fields: Vec<FieldModel> = Vec::new();
    let mut i: usize = 0;
    while i < n
        invariant
            n == model_of(*item).fields@.len(),
            i <= n,
            fields@.len() == i,
            forall|j: int|
                0 <= j < i ==> field_models_match(
                    #[trigger] fields@[j],
                    model_of(*item).fields@[j],
                ),
        decreases n - i,
    {
        let name = field_name_text(item, i);
        let marked = field_marked(item, i);
        let (shape, ty_text) = field_type_parts(item, i);
        fields.push(FieldModel { name, marked, ty_text, shape });
        i += 1;
    }
    StructModel {
        name: struct_name_text(item),
        impl_generics,
        type_generics,
        where_clause,
        fields,
    }
}

/// Derives the read accessor (`Deref`) for the struct declared by `input`:
/// when the text parses as one struct declaration, the derivation over that
/// declaration's model — the text of one trait implementation delegating
/// through the selected field, or of a diagnostic; otherwise the rendered
/// parse error. Which texts parse depends on the process environment, so the
/// contract promises the derivation of some model; the exact, total
/// statement lives on `derive_capability`.
pub fn derive_deref(input: &str) -> (r: String)
    ensures
        (exists|m: StructModel| r@ == spec_derive(&m, Capability::Read)) || (exists|
            a: Seq<char>,
            b: Seq<char>,
        | r@ == a + "compile_error"@ + b),
{
    match parse_item_struct(input) {
        Ok(item) => {
            let m = model_of_item(&item);
            let out = derive_capability(&m, Capability::Read);
            proof {
                lemma_derive_respects_match(m, model_of(item), Capability::Read);
                assert(out@ == spec_derive(&model_of(item), Capability::Read));
            }
            out
        },
        Err(d) => d,
    }
}

/// Derives the write accessor (`DerefMut`) for the struct declared by
/// `input`; the emitted implementation reuses the target type the read
/// accessor declared.
pub fn derive_deref_mut(input: &str) -> (r: String)
    ensures
        (exists|m: StructModel| r@ == spec_derive(&m, Capability::Write)) || (exists|
            a: Seq<char>,
            b: Seq<char>,
        | r@ == a + "compile_error"@ + b),
{
    match parse_item_struct(input) {
        Ok(item) => {
            let m = model_of_item(&item);
            let out = derive_capability(&m, Capability::Write);
            proof {
                lemma_derive_respects_match(m, model_of(item), Capability::Write);
                assert(out@ == spec_derive(&model_of(item), Capability::Write));
            }
            out
        },
        Err(d) => d,
    }
}

} // verus!
