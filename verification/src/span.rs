//! Source locations.

use vstd::prelude::*;

verus! {

/// Handle of a source location. The front end that read the input chooses the
/// handles; a diagnostic carries the handle of the place it points at.
#[derive(Clone, Copy, Debug, PartialEq, Eq, Structural)]
pub struct Span {
    pub id: u64,
}

impl Span {
    /// The span with the given handle.
    pub fn new(id: u64) -> (span: Span)
        ensures
            span.id == id,
    {
        Span { id }
    }
}

} // verus!
