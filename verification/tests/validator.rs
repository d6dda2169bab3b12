use movie_night::errors::ServiceError;
use movie_night::ident::extract_catalog_id;

#[test]
fn extracts_id_embedded_in_text() {
    let r = extract_catalog_id("tt1234567 (suggested)");
    assert_eq!(r.unwrap(), "tt1234567".to_string());
}

#[test]
fn extracts_id_with_leading_text() {
    let r = extract_catalog_id("please watch tt0133093!");
    assert_eq!(r.unwrap(), "tt0133093".to_string());
}

#[test]
fn extracts_leftmost_match() {
    let r = extract_catalog_id("xx1 tt0133093");
    assert_eq!(r.unwrap(), "xx1".to_string());
}

#[test]
fn digits_run_as_far_as_they_go() {
    let r = extract_catalog_id("ab123456789x");
    assert_eq!(r.unwrap(), "ab123456789".to_string());
}

#[test]
fn bare_id_is_returned_whole() {
    let r = extract_catalog_id("tt42");
    assert_eq!(r.unwrap(), "tt42".to_string());
}

#[test]
fn uppercase_input_fails_validation() {
    let r = extract_catalog_id("ABC");
    assert!(matches!(r, Err(ServiceError::Validation)));
}

#[test]
fn empty_input_fails_validation() {
    let r = extract_catalog_id("");
    assert!(matches!(r, Err(ServiceError::Validation)));
}

#[test]
fn letters_without_digits_fail_validation() {
    let r = extract_catalog_id("justwords here");
    assert!(matches!(r, Err(ServiceError::Validation)));
}

#[test]
fn one_letter_before_digits_fails_validation() {
    let r = extract_catalog_id("a1234");
    assert!(matches!(r, Err(ServiceError::Validation)));
}

#[test]
fn validation_is_a_client_error() {
    assert!(ServiceError::Validation.is_client_error());
    assert!(ServiceError::Conflict.is_client_error());
    assert!(ServiceError::NotFound.is_client_error());
    assert!(!ServiceError::Upstream.is_client_error());
    assert!(!ServiceError::Store.is_client_error());
}
