//! Classification of store failures into the errors of this crate.

use crate::models::{DBError, DBErrorView, StoreFailure, StoreFailureView};
use crate::postgres_error_codes::FOREIGN_KEY_VIOLATION;
use vstd::prelude::*;
use vstd::string::StringExecFns;

verus! {

/// Whether the store reported that a referenced row does not exist. Only the
/// store's error code decides, never the diagnostic text.
pub open spec fn is_foreign_key_violation(failure: StoreFailureView) -> bool {
    failure.code == Some(FOREIGN_KEY_VIOLATION@)
}

/// The error that a store failure stands for, given the identifier that the
/// caller supplied for the referenced row, where the operation has one.
pub open spec fn classification(failure: StoreFailureView, referenced: Option<Seq<char>>)
    -> DBErrorView {
    match referenced {
        Some(value) if is_foreign_key_violation(failure) => DBErrorView::InvalidUUID(value),
        _ => DBErrorView::Other(failure),
    }
}

/// The classification goes by the store's code and by nothing else of the
/// failure: two failures with the same code are classified alike, whatever
/// their diagnostic texts.
pub proof fn lemma_classification_by_code(
    first: StoreFailureView,
    second: StoreFailureView,
    referenced: Option<Seq<char>>,
)
    requires
        first.code == second.code,
    ensures
        classification(first, referenced) is InvalidUUID <==> classification(
            second,
            referenced,
        ) is InvalidUUID,
        classification(first, referenced) is InvalidUUID ==> classification(first, referenced)
            == classification(second, referenced),
        classification(first, referenced) is Other ==> classification(first, referenced)
            == DBErrorView::Other(first),
{
}

/// Tells whether `failure` carries the store's code for a missing referenced
/// row.
pub fn has_foreign_key_code(failure: &StoreFailure) -> (found: bool)
    ensures
        found == is_foreign_key_violation(failure@),
{
    match &failure.code {
        Some(code) => {
            let expected = String::from_str(FOREIGN_KEY_VIOLATION);
            *code == expected
        },
        None => false,
    }
}

/// Turns a store failure into an error of this crate. A missing referenced
/// row becomes `InvalidUUID` with the identifier that the caller supplied;
/// every other failure, and every failure of an operation that refers to no
/// other row, is passed on as `Other`.
pub fn classify(failure: StoreFailure, referenced: Option<String>) -> (error: DBError)
    ensures
        error@ == classification(
            failure@,
            match referenced {
                Some(value) => Some(value@),
                None => None,
            },
        ),
{
    match referenced {
        Some(value) => {
            if has_foreign_key_code(&failure) {
                DBError::InvalidUUID(value)
            } else {
                DBError::Other(failure)
            }
        },
        None => DBError::Other(failure),
    }
}

} // verus!
