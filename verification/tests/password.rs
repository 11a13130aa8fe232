use novel_api::errors::AppError;
use novel_api::utils::password::PasswordService;

#[test]
fn a_password_matches_its_own_hash() {
    let hash = PasswordService::hash_password("correct horse battery staple").unwrap();
    assert!(hash.starts_with("$argon2"));
    assert_ne!(hash, "correct horse battery staple");
    assert_eq!(PasswordService::verify_password("correct horse battery staple", &hash), Ok(true));
}

#[test]
fn another_password_does_not_match() {
    let hash = PasswordService::hash_password("correct horse battery staple").unwrap();
    assert_eq!(PasswordService::verify_password("Correct horse battery staple", &hash), Ok(false));
    assert_eq!(PasswordService::verify_password("", &hash), Ok(false));
}

#[test]
fn hashes_are_salted() {
    let a = PasswordService::hash_password("same").unwrap();
    let b = PasswordService::hash_password("same").unwrap();
    assert_ne!(a, b);
    assert_eq!(PasswordService::verify_password("same", &a), Ok(true));
    assert_eq!(PasswordService::verify_password("same", &b), Ok(true));
}

#[test]
fn a_text_that_is_no_hash_is_an_error() {
    assert!(matches!(PasswordService::verify_password("x", "not a hash"), Err(AppError::PasswordHash(_))));
    assert!(matches!(PasswordService::verify_password("x", ""), Err(AppError::PasswordHash(_))));
    assert!(matches!(PasswordService::verify_password("x", "x"), Err(AppError::PasswordHash(_))));
}

#[test]
fn the_empty_password_can_be_hashed() {
    let hash = PasswordService::hash_password("").unwrap();
    assert_eq!(PasswordService::verify_password("", &hash), Ok(true));
    assert_eq!(PasswordService::verify_password(" ", &hash), Ok(false));
}
