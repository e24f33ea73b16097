//! Optional formatting of values: a value's own rendering where its type formats itself,
//! and otherwise a rendering built from its type's name (and, for sequences, their length).

pub mod backend;
pub mod laws;
pub mod repr;
pub mod text;

pub use backend::{maybe_debug, Backend, Subject};
pub use repr::{MaybeDebug, MaybeDebugSlice};

use vstd::prelude::*;

verus! {

/// The capability cast on a value of a type that nothing is statically known of: without
/// specialization no formatting of it can be seen, so nothing comes back.
pub fn cast_debug<T: ?Sized>(val: &T) -> (r: Option<String>)
    ensures
        r is None,
{
    Backend::Baseline.cast_debug(None)
}

} // verus!
