use auth_service::domain::{Password, User, UserStoreError};
use auth_service::services::data_stores::postgres_user_store::{
    check_password, credentials_outcome, new_user_row, row_with_hash, user_from_row, UserRow,
};

fn row(email: &str, hash: &str, requires_2fa: bool) -> UserRow {
    UserRow {
        email: email.to_string(),
        password_hash: hash.to_string(),
        requires_2fa,
    }
}

#[test]
fn missing_row_is_user_not_found() {
    assert_eq!(user_from_row(None), Err(UserStoreError::UserNotFound));
}

#[test]
fn row_reads_as_its_user() {
    let user = user_from_row(Some(row(" test@example.com ", "$argon2id$v=19$abc", true))).unwrap();
    assert_eq!(user.email, "test@example.com");
    assert_eq!(user.password, "$argon2id$v=19$abc");
    assert!(user.requires_2fa);
}

#[test]
fn row_with_bad_address_is_unexpected() {
    assert_eq!(
        user_from_row(Some(row("not-an-address", "$argon2id$v=19$abc", false))),
        Err(UserStoreError::UnexpectedError)
    );
}

#[test]
fn row_with_short_hash_is_unexpected() {
    assert_eq!(
        user_from_row(Some(row("test@example.com", "1234567", false))),
        Err(UserStoreError::UnexpectedError)
    );
}

#[test]
fn registered_address_gets_no_row() {
    let user = User::new("a@b.com".to_string(), "Password123!".to_string(), false);
    assert_eq!(new_user_row(&user, true).unwrap_err(), UserStoreError::UserAlreadyExists);
}

#[test]
fn failed_hashing_is_unexpected() {
    let user = User::new("a@b.com".to_string(), "Password123!".to_string(), false);
    assert_eq!(row_with_hash(&user, None).unwrap_err(), UserStoreError::UnexpectedError);
    let made = row_with_hash(&user, Some("$argon2id$xyz".to_string())).unwrap();
    assert_eq!(made.email, "a@b.com");
    assert_eq!(made.password_hash, "$argon2id$xyz");
    assert!(!made.requires_2fa);
}

#[test]
fn stored_hash_accepts_the_password_and_nothing_else() {
    let user = User::new("a@b.com".to_string(), "Password123!".to_string(), true);
    let made = new_user_row(&user, false).unwrap();
    assert_eq!(made.email, "a@b.com");
    assert!(made.requires_2fa);
    assert_ne!(made.password_hash, "Password123!");
    assert!(made.password_hash.starts_with("$argon2id$v=19$m=15000,t=2,p=1$"));
    let stored = user_from_row(Some(made)).unwrap();
    let right = Password::parse("Password123!".to_string()).unwrap();
    let wrong = Password::parse("Password124!".to_string()).unwrap();
    assert_eq!(check_password(&stored, &right), Ok(true));
    assert_eq!(check_password(&stored, &wrong), Err(UserStoreError::InvalidCredentials));
}

#[test]
fn unparsable_hash_verifies_nothing() {
    let stored = User::new("a@b.com".to_string(), "not a phc string".to_string(), false);
    let candidate = Password::parse("Password123!".to_string()).unwrap();
    assert_eq!(check_password(&stored, &candidate), Err(UserStoreError::InvalidCredentials));
}

#[test]
fn credentials_outcome_follows_the_check() {
    assert_eq!(credentials_outcome(true), Ok(true));
    assert_eq!(credentials_outcome(false), Err(UserStoreError::InvalidCredentials));
}
