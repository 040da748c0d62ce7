//! Views of values that may be absent.

use vstd::prelude::*;

verus! {

/// The view of an optional value: the view of what is there, or nothing.
pub open spec fn optional<T: View>(value: Option<T>) -> Option<T::V> {
    match value {
        Some(inner) => Some(inner@),
        None => None,
    }
}

} // verus!
