use api_core::errors::ApiError;
use api_core::password::{check_password_strength, hash_password, verify_password};

#[test]
fn password_verifies_against_its_own_hash() {
    let h = hash_password("s3cret horse", 99).unwrap();
    assert_eq!(verify_password("s3cret horse", &h), Ok(true));
    let h2 = hash_password("s3cret horse", 12345678901234567).unwrap();
    assert_eq!(verify_password("s3cret horse", &h2), Ok(true));
}

#[test]
fn wrong_password_is_rejected_not_errored() {
    let h = hash_password("s3cret horse", 99).unwrap();
    assert_eq!(verify_password("s3cret h0rse", &h), Ok(false));
    assert_eq!(verify_password("", &h), Ok(false));
}

#[test]
fn hash_is_salted_and_one_way() {
    let a = hash_password("s3cret horse", 1).unwrap();
    let b = hash_password("s3cret horse", 2).unwrap();
    assert_ne!(a, b);
    assert!(!a.contains("s3cret"));
    assert_eq!(a.len(), 33);
}

#[test]
fn unreadable_hash_is_a_distinct_error() {
    assert_eq!(verify_password("s3cret horse", "garbage"), Err(ApiError::UnreadableHash));
    let wrong_separator = "0000000000000063x0000000000000000";
    assert_eq!(verify_password("s3cret horse", wrong_separator), Err(ApiError::UnreadableHash));
    let bad_digit = "000000000000006g$0000000000000000";
    assert_eq!(verify_password("s3cret horse", bad_digit), Err(ApiError::UnreadableHash));
}

#[test]
fn empty_password_still_round_trips_through_the_hash() {
    let h = hash_password("", 7).unwrap();
    assert_eq!(verify_password("", &h), Ok(true));
    assert_eq!(verify_password("x", &h), Ok(false));
}

#[test]
fn policy_wants_length_letter_and_digit() {
    assert_eq!(check_password_strength("weak"), Err(ApiError::Policy));
    assert_eq!(check_password_strength("allletters"), Err(ApiError::Policy));
    assert_eq!(check_password_strength("12345678"), Err(ApiError::Policy));
    assert_eq!(check_password_strength("abcd123"), Err(ApiError::Policy));
    assert_eq!(check_password_strength("passw0rd"), Ok(()));
    assert_eq!(check_password_strength("1A345678"), Ok(()));
}
