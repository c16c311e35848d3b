//! Direct tests of field selection and of the decimal rendering of tuple
//! field positions.

use derived_deref::decimal::index_text;
use derived_deref::select::get_field;
use derived_deref::{FieldModel, SelectError, TyShape};

fn field(marked: bool) -> FieldModel {
    FieldModel {
        name: None,
        marked,
        ty_text: "u32".to_string(),
        shape: TyShape::Plain,
    }
}

#[test]
fn lone_field_selected_without_marker() {
    assert_eq!(get_field(&vec![field(false)]), Ok(0));
}

#[test]
fn lone_field_selected_with_marker() {
    assert_eq!(get_field(&vec![field(true)]), Ok(0));
}

#[test]
fn marked_field_among_three_selected() {
    assert_eq!(get_field(&vec![field(false), field(true), field(false)]), Ok(1));
    assert_eq!(get_field(&vec![field(true), field(false), field(false)]), Ok(0));
    assert_eq!(get_field(&vec![field(false), field(false), field(true)]), Ok(2));
}

#[test]
fn no_marker_among_many_rejected() {
    assert_eq!(
        get_field(&vec![field(false), field(false)]),
        Err(SelectError::MarkerCardinality)
    );
}

#[test]
fn several_markers_rejected() {
    assert_eq!(
        get_field(&vec![field(true), field(false), field(true)]),
        Err(SelectError::MarkerCardinality)
    );
    assert_eq!(
        get_field(&vec![field(true), field(true)]),
        Err(SelectError::MarkerCardinality)
    );
}

#[test]
fn no_fields_rejected() {
    assert_eq!(get_field(&vec![]), Err(SelectError::NoFields));
}

#[test]
fn index_text_renders_decimals() {
    assert_eq!(index_text(0), "0");
    assert_eq!(index_text(7), "7");
    assert_eq!(index_text(10), "10");
    assert_eq!(index_text(123), "123");
    assert_eq!(index_text(9000), "9000");
}
