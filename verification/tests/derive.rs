//! The concrete derivation scenarios, end to end through the parsing
//! frontend as well as directly over the struct model.

use derived_deref::{derive_capability, derive_deref, derive_deref_mut};
use derived_deref::{Capability, FieldModel, StructModel, TyShape};

fn named_field(name: &str, marked: bool, ty_text: &str, shape: TyShape) -> FieldModel {
    FieldModel { name: Some(name.to_string()), marked, ty_text: ty_text.to_string(), shape }
}

fn tuple_field(marked: bool, ty_text: &str, shape: TyShape) -> FieldModel {
    FieldModel { name: None, marked, ty_text: ty_text.to_string(), shape }
}

fn plain_struct(name: &str, fields: Vec<FieldModel>) -> StructModel {
    StructModel {
        name: name.to_string(),
        impl_generics: String::new(),
        type_generics: String::new(),
        where_clause: String::new(),
        fields,
    }
}

#[test]
fn marked_field_among_two_read() {
    let out = derive_deref("struct StringWithCount { #[target] inner: String, count: usize }");
    assert_eq!(
        out,
        "impl  core::ops::Deref for StringWithCount  { type Target = String; \
         fn deref(&self) -> &Self::Target { &self.inner } }"
    );
}

#[test]
fn marked_field_among_two_write() {
    let out = derive_deref_mut("struct StringWithCount { #[target] inner: String, count: usize }");
    assert_eq!(
        out,
        "impl  core::ops::DerefMut for StringWithCount  \
         { fn deref_mut(&mut self) -> &mut Self::Target { &mut self.inner } }"
    );
}

#[test]
fn single_tuple_field_needs_no_marker() {
    let read = derive_deref("struct StringWrapper(String);");
    assert_eq!(
        read,
        "impl  core::ops::Deref for StringWrapper  { type Target = String; \
         fn deref(&self) -> &Self::Target { &self.0 } }"
    );
    let write = derive_deref_mut("struct StringWrapper(String);");
    assert_eq!(
        write,
        "impl  core::ops::DerefMut for StringWrapper  \
         { fn deref_mut(&mut self) -> &mut Self::Target { &mut self.0 } }"
    );
}

#[test]
fn single_tuple_field_with_marker_still_selected() {
    let read = derive_deref("struct CountWrapper(#[target] usize);");
    assert_eq!(
        read,
        "impl  core::ops::Deref for CountWrapper  { type Target = usize; \
         fn deref(&self) -> &Self::Target { &self.0 } }"
    );
}

#[test]
fn two_fields_without_marker_rejected() {
    let expected = "compile_error!(\"`#[target]` is required for one field\");";
    assert_eq!(derive_deref("struct P { a: i32, b: i32 }"), expected);
    assert_eq!(derive_deref_mut("struct P { a: i32, b: i32 }"), expected);
}

#[test]
fn two_markers_rejected() {
    let expected = "compile_error!(\"`#[target]` is required for one field\");";
    assert_eq!(derive_deref("struct P { #[target] a: i32, #[target] b: i32 }"), expected);
    assert_eq!(derive_deref_mut("struct P { #[target] a: i32, #[target] b: i32 }"), expected);
}

#[test]
fn marker_with_arguments_does_not_count() {
    let expected = "compile_error!(\"`#[target]` is required for one field\");";
    assert_eq!(derive_deref("struct P { #[target(1)] a: i32, b: i32 }"), expected);
    assert_eq!(derive_deref("struct P { #[target = \"a\"] a: i32, b: i32 }"), expected);
}

#[test]
fn mutable_reference_field_passed_through() {
    let write = derive_deref_mut("struct M<'a>(&'a mut i32);");
    assert!(write.contains("core::ops::DerefMut for M"), "{}", write);
    assert!(write.contains("{ self.0 }"), "{}", write);
    let read = derive_deref("struct M<'a>(&'a mut i32);");
    assert!(read.contains("type Target = i32;"), "{}", read);
    assert!(read.contains("{ self.0 }"), "{}", read);
}

#[test]
fn shared_reference_field_rejects_write() {
    let out = derive_deref_mut("struct R<'a>(&'a i32);");
    assert_eq!(out, "compile_error!(\"`#[target]` is unable to be of an immutable reference\");");
}

#[test]
fn shared_reference_field_read_passed_through() {
    let out = derive_deref("struct R<'a> { #[target] text: &'a str, count: usize }");
    assert!(out.contains("type Target = str;"), "{}", out);
    assert!(out.contains("{ self.text }"), "{}", out);
}

#[test]
fn field_less_struct_rejected() {
    assert_eq!(
        derive_deref("struct U;"),
        "compile_error!(\"unable to implement `Deref` trait for struct of no fields\");"
    );
    assert_eq!(
        derive_deref_mut("struct U;"),
        "compile_error!(\"unable to implement `DerefMut` trait for struct of no fields\");"
    );
}

#[test]
fn empty_field_list_rejected_as_field_less() {
    assert_eq!(
        derive_deref("struct U {}"),
        "compile_error!(\"unable to implement `Deref` trait for struct of no fields\");"
    );
    assert_eq!(
        derive_deref_mut("struct U();"),
        "compile_error!(\"unable to implement `DerefMut` trait for struct of no fields\");"
    );
}

#[test]
fn generics_and_where_clause_preserved() {
    let out = derive_deref("struct W<T: Clone> where T: Default { #[target] inner: T, tag: u8 }");
    assert!(out.contains("core::ops::Deref for W"), "{}", out);
    assert!(out.contains("T : Clone") || out.contains("T: Clone"), "{}", out);
    assert!(out.contains("where"), "{}", out);
    assert!(out.contains("type Target = T;"), "{}", out);
}

#[test]
fn input_that_is_no_struct_reports_parse_error() {
    let out = derive_deref("fn not_a_struct() {}");
    assert!(out.contains("compile_error"), "{}", out);
    let out = derive_deref_mut("enum E { A }");
    assert!(out.contains("compile_error"), "{}", out);
}

#[test]
fn marked_tuple_field_beyond_ninth_addressed_by_two_digit_position() {
    let out = derive_deref(
        "struct Wide(u8, u8, u8, u8, u8, u8, u8, u8, u8, u8, #[target] u16);",
    );
    assert_eq!(
        out,
        "impl  core::ops::Deref for Wide  { type Target = u16; \
         fn deref(&self) -> &Self::Target { &self.10 } }"
    );
}

#[test]
fn empty_marker_list_counts_as_no_marker() {
    let read = derive_deref("struct Q(#[target()] String);");
    assert_eq!(
        read,
        "impl  core::ops::Deref for Q  { type Target = String; \
         fn deref(&self) -> &Self::Target { &self.0 } }"
    );
    let out = derive_deref("struct P { #[target] a: i32, #[target()] b: i32 }");
    assert_eq!(
        out,
        "impl  core::ops::Deref for P  { type Target = i32; \
         fn deref(&self) -> &Self::Target { &self.a } }"
    );
}

#[test]
fn parse_diagnostic_is_the_same_for_both_capabilities() {
    let read = derive_deref("not a struct at all");
    let write = derive_deref_mut("not a struct at all");
    assert_eq!(read, write);
    assert!(read.contains("compile_error"), "{}", read);
}

#[test]
fn model_level_marked_field_selected() {
    let m = plain_struct(
        "StringWithCount",
        vec![
            named_field("inner", true, "String", TyShape::Plain),
            named_field("count", false, "usize", TyShape::Plain),
        ],
    );
    let out = derive_capability(&m, Capability::Read);
    assert_eq!(
        out,
        "impl  core::ops::Deref for StringWithCount  { type Target = String; \
         fn deref(&self) -> &Self::Target { &self.inner } }"
    );
}

#[test]
fn model_level_generics_spliced_unchanged() {
    let m = StructModel {
        name: "Holder".to_string(),
        impl_generics: "<'a, T>".to_string(),
        type_generics: "<'a, T>".to_string(),
        where_clause: "where T: Clone".to_string(),
        fields: vec![tuple_field(false, "T", TyShape::Plain)],
    };
    let out = derive_capability(&m, Capability::Write);
    assert_eq!(
        out,
        "impl <'a, T> core::ops::DerefMut for Holder<'a, T> where T: Clone \
         { fn deref_mut(&mut self) -> &mut Self::Target { &mut self.0 } }"
    );
}

#[test]
fn model_level_exclusive_reference_write_passed_through() {
    let m = plain_struct("M", vec![tuple_field(false, "i32", TyShape::ExclusiveRef)]);
    let out = derive_capability(&m, Capability::Write);
    assert_eq!(
        out,
        "impl  core::ops::DerefMut for M  \
         { fn deref_mut(&mut self) -> &mut Self::Target { self.0 } }"
    );
}

#[test]
fn model_level_shared_reference_write_rejected() {
    let m = plain_struct(
        "R",
        vec![
            named_field("a", false, "i32", TyShape::SharedRef),
            named_field("b", true, "i32", TyShape::SharedRef),
            named_field("c", false, "i32", TyShape::Plain),
        ],
    );
    let out = derive_capability(&m, Capability::Write);
    assert_eq!(out, "compile_error!(\"`#[target]` is unable to be of an immutable reference\");");
}

#[test]
fn model_level_no_fields_rejected() {
    let m = plain_struct("U", vec![]);
    assert_eq!(
        derive_capability(&m, Capability::Read),
        "compile_error!(\"unable to implement `Deref` trait for struct of no fields\");"
    );
    assert_eq!(
        derive_capability(&m, Capability::Write),
        "compile_error!(\"unable to implement `DerefMut` trait for struct of no fields\");"
    );
}
