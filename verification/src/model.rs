//! Helpers for speaking of results by their plain values.

use vstd::prelude::*;

verus! {

/// A result with its success value taken by its view; the error stays as it
/// is.
pub open spec fn ok_view<T: DeepView, E>(r: Result<T, E>) -> Result<T::V, E> {
    match r {
        Ok(value) => Ok(value.deep_view()),
        Err(e) => Err(e),
    }
}

} // verus!
