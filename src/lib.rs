//! An in-process request router: per-method route tables, request-context
//! assembly, handler dispatch and content-negotiated body extraction.
use vstd::prelude::*;

pub mod extractors;
pub mod http;
pub mod matcher;
pub mod query;
pub mod router;
pub mod text;

verus! {

/// Sum of two sizes.
pub fn add(left: usize, right: usize) -> (r: usize)
    requires
        left + right <= usize::MAX,
    ensures
        r == left + right,
{
    left + right
}

} // verus!
