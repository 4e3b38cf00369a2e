//! Error codes of the relational store that the classifier looks at.

use vstd::prelude::*;

verus! {

/// The code that the store reports when an insert or update would refer to a
/// row that does not exist.
pub const FOREIGN_KEY_VIOLATION: &'static str = "23503";

} // verus!
