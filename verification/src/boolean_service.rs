//! A service without collaborators.
//!
//! It needs no seam: there is nothing behind it to replace, so it is used as
//! the concrete type it is.

use vstd::prelude::*;
use crate::values::Boolean;

verus! {

/// Reads truth values of the application.
pub struct BooleanService;

impl BooleanService {
    /// The truth value that `boolean` wraps.
    pub fn is_true(&self, boolean: Boolean) -> (truth: bool)
        ensures
            truth == boolean.0,
    {
        boolean.0
    }
}

} // verus!
