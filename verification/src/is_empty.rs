//! Telling a payload that carries nothing from one that carries a resource.

use vstd::prelude::*;

verus! {

/// A payload that can stand for "nothing found".
///
/// The server answers some requests for a resource that does not exist with
/// a well-formed but blank object, so each payload type says when a value of
/// it is such a blank.
pub trait IsEmpty {
    /// Whether the payload carries nothing.
    spec fn is_empty_spec(&self) -> bool;

    /// Decides whether the payload carries nothing.
    fn is_empty(&self) -> (b: bool)
        ensures
            b == self.is_empty_spec(),
    ;
}

} // verus!
