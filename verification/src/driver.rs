//! What the library reads of a failure of the database driver.

use crate::models::StoreFailure;
use vstd::prelude::*;

verus! {

/// `sqlx::Error`, the error of the database driver. It is carried as it is:
/// nothing is known of what a value holds.
#[verifier::external_type_specification]
#[verifier::external_body]
pub struct ExDriverError(sqlx::Error);

/// `sqlx::Error::as_database_error`, and `code` of the database error where
/// there is one. Trusted without any claim: the code is whatever the store
/// reported, and there is none where the failure does not come from the
/// store.
#[verifier::external_body]
fn database_error_code(error: &sqlx::Error) -> (code: Option<String>) {
    match error.as_database_error() {
        Some(database_error) => match database_error.code() {
            Some(code) => Some(code.into_owned()),
            None => None,
        },
        None => None,
    }
}

/// `to_string` of `sqlx::Error`. Trusted without any claim: the text is for
/// a reader, and nothing in the library depends on it.
#[verifier::external_body]
fn error_text(error: &sqlx::Error) -> (text: String) {
    error.to_string()
}

/// The library's account of a failure of the driver: the store's code, where
/// the failure comes from the store and has one, and the failure's text.
/// What the driver reports is not known before it does, so nothing is said
/// of the two fields; what is made of them is said where they are read.
pub fn store_failure(error: &sqlx::Error) -> (failure: StoreFailure) {
    StoreFailure { code: database_error_code(error), detail: error_text(error) }
}

} // verus!
