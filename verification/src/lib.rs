//! Derivation of the two standard delegation capabilities — a read accessor
//! (`Deref`) and a write accessor (`DerefMut`) — for a struct, through one
//! designated field.
//!
//! A struct with a single field delegates through that field, marker or no
//! marker. A struct with two or more fields must carry the `#[target]`
//! marker on exactly one field; zero or several markers are rejected with a
//! diagnostic, as is a struct with no fields at all. Only a bare `#[target]`
//! counts as a marker: an attribute with arguments, `#[target(...)]` or
//! `#[target = ...]`, is ignored rather than rejected.
//!
//! A field whose declared type is itself a reference is passed through
//! directly — the emitted accessor returns that reference rather than a
//! reference to it — and a field of shared-reference type can never back the
//! write accessor, since no exclusive path to the referent exists.
//!
//! Each derivation either emits the text of one trait implementation or the
//! text of a `compile_error!` invocation describing what went wrong; it never
//! guesses a field.

pub mod model;
pub mod decimal;
pub mod select;
pub mod emit;
pub mod laws;
pub mod frontend;

pub use emit::derive_capability;
pub use frontend::{derive_deref, derive_deref_mut};
pub use model::{Capability, FieldModel, SelectError, StructModel, TyShape};
