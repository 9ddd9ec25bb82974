//! Views of optional values and of results, member by member.

use vstd::prelude::*;

verus! {

/// The view of what an optional value holds.
pub open spec fn option_view<A: View>(value: Option<A>) -> Option<A::V> {
    match value {
        Some(inner) => Some(inner@),
        None => None,
    }
}

/// The view of what a result holds, on either side.
pub open spec fn result_view<A: View, B: View>(value: Result<A, B>) -> Result<A::V, B::V> {
    match value {
        Ok(inner) => Ok(inner@),
        Err(inner) => Err(inner@),
    }
}

} // verus!
