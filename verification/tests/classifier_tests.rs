use qa_store::classifier::has_foreign_key_code;
use qa_store::postgres_error_codes::FOREIGN_KEY_VIOLATION;
use qa_store::{classify, DBError, StoreFailure};

fn failure(code: Option<&str>, detail: &str) -> StoreFailure {
    StoreFailure { code: code.map(|c| c.to_string()), detail: detail.to_string() }
}

#[test]
fn the_code_of_a_missing_referenced_row() {
    assert_eq!(FOREIGN_KEY_VIOLATION, "23503");
    assert!(has_foreign_key_code(&failure(Some("23503"), "")));
    assert!(!has_foreign_key_code(&failure(Some("23505"), "")));
    assert!(!has_foreign_key_code(&failure(Some("2350"), "")));
    assert!(!has_foreign_key_code(&failure(Some("235033"), "")));
    assert!(!has_foreign_key_code(&failure(Some(""), "23503")));
    assert!(!has_foreign_key_code(&failure(None, "23503")));
}

#[test]
fn a_missing_referenced_row_is_an_invalid_identifier() {
    let error = classify(
        failure(Some("23503"), "violates foreign key constraint"),
        Some("9b1deb4d-3b7d-4bad-9bdd-2b0d7b3dcb6d".to_string()),
    );
    match error {
        DBError::InvalidUUID(value) => assert_eq!(value, "9b1deb4d-3b7d-4bad-9bdd-2b0d7b3dcb6d"),
        other => panic!("{:?}", other),
    }
}

#[test]
fn the_identifier_is_passed_on_as_it_was_written() {
    let error = classify(
        failure(Some("23503"), "x"),
        Some("9B1DEB4D-3B7D-4BAD-9BDD-2B0D7B3DCB6D".to_string()),
    );
    match error {
        DBError::InvalidUUID(value) => assert_eq!(value, "9B1DEB4D-3B7D-4BAD-9BDD-2B0D7B3DCB6D"),
        other => panic!("{:?}", other),
    }
}

#[test]
fn any_other_failure_is_passed_on() {
    for code in [None, Some("23505"), Some("08006"), Some("")] {
        let cause = failure(code, "connection reset");
        match classify(cause.clone(), Some("abc".to_string())) {
            DBError::Other(kept) => assert_eq!(kept, cause),
            other => panic!("{:?}", other),
        }
    }
}

#[test]
fn without_a_referenced_identifier_every_failure_is_passed_on() {
    let cause = failure(Some("23503"), "still referenced");
    match classify(cause.clone(), None) {
        DBError::Other(kept) => assert_eq!(kept, cause),
        other => panic!("{:?}", other),
    }
}

#[test]
fn the_diagnostic_text_plays_no_part() {
    let first = classify(failure(Some("23503"), "one"), Some("id".to_string()));
    let second = classify(failure(Some("23503"), "another 23505"), Some("id".to_string()));
    assert!(matches!(first, DBError::InvalidUUID(ref v) if v == "id"));
    assert!(matches!(second, DBError::InvalidUUID(ref v) if v == "id"));
    let third = classify(failure(Some("42P01"), "23503"), Some("id".to_string()));
    assert!(matches!(third, DBError::Other(_)));
    let again = classify(failure(Some("23503"), "one"), Some("id".to_string()));
    assert!(matches!(again, DBError::InvalidUUID(ref v) if v == "id"));
}

#[test]
fn the_messages_of_the_errors() {
    assert_eq!(
        DBError::InvalidUUID("abc".to_string()).message(),
        "Invalid UUID provided: abc"
    );
    assert_eq!(DBError::InvalidUUID(String::new()).message(), "Invalid UUID provided: ");
    assert_eq!(
        DBError::Other(failure(Some("08006"), "connection reset")).message(),
        "Database error occured"
    );
}
