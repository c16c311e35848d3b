//! Selection of the delegation target among a struct's fields.

use vstd::prelude::*;

use crate::model::{is_unique_marked, spec_select, FieldModel, SelectError};

verus! {

/// Picks the delegation target: the lone field when there is exactly one,
/// otherwise the single field carrying the marker. Zero fields, or two or
/// more fields with zero or several markers, are rejected.
pub fn get_field(fields: &Vec<FieldModel>) -> (r: Result<usize, SelectError>)
    ensures
        match r {
            Ok(i) => i < fields@.len() && spec_select(fields@) == Ok::<int, SelectError>(i as int),
            Err(e) => spec_select(fields@) == Err::<int, SelectError>(e),
        },
{
    let n = fields.len();
    if n == 0 {
        return Err(SelectError::NoFields);
    }
    if n == 1 {
        return Ok(0);
    }
    let mut found: Option<usize> = None;
    let mut i: usize = 0;
    while i < n
        invariant
            n == fields@.len(),
            n > 1,
            i <= n,
            match found {
                Some(k) => k < i && fields@[k as int].marked && (forall|j: int|
                    0 <= j < i && j != k as int ==> !fields@[j].marked),
                None => forall|j: int| 0 <= j < i ==> !fields@[j].marked,
            },
        decreases n - i,
    {
        if fields[i].marked {
            match found {
                Some(k) => {
                    // A second marked field: no field is uniquely marked.
                    proof {
                        assert forall|u: int| !is_unique_marked(fields@, u) by {
                            if is_unique_marked(fields@, u) {
                                assert(u == k as int);
                                assert(u == i as int);
                            }
                        }
                    }
                    return Err(SelectError::MarkerCardinality);
                },
                None => {
                    found = Some(i);
                },
            }
        }
        i += 1;
    }
    match found {
        Some(k) => {
            proof {
                assert(is_unique_marked(fields@, k as int));
                let w = choose|u: int| is_unique_marked(fields@, u);
                assert(is_unique_marked(fields@, w));
                assert(w == k as int);
            }
            Ok(k)
        },
        None => {
            proof {
                assert forall|u: int| !is_unique_marked(fields@, u) by {
                    if is_unique_marked(fields@, u) {
                        assert(fields@[u].marked);
                    }
                }
            }
            Err(SelectError::MarkerCardinality)
        },
    }
}

} // verus!
