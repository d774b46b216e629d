use auth_service::domain::{
    BannedTokenStore, Email, LoginAttemptId, Password, TwoFACode, TwoFACodeStore,
    TwoFACodeStoreError, User, UserStore, UserStoreError,
};
use auth_service::services::{HashmapTwoFACodeStore, HashmapUserStore, HashsetBannedTokenStore};

#[test]
fn hashmap_user_store_test_add_user() {
    let mut hash: HashmapUserStore = HashmapUserStore::new();
    let user = User::new_without_2fa("existing_user@example.com".into(), "Password123!".into());
    let existing_user = user.clone();

    let result_new = hash.add_user(user);
    assert_eq!(result_new, Ok(()));

    let result_duplicate = hash.add_user(existing_user);
    assert_eq!(result_duplicate, Err(UserStoreError::UserAlreadyExists));
}

#[test]
fn hashmap_user_store_test_get_user() {
    let mut hash = HashmapUserStore::new();
    let user = User::new_without_2fa("test_user@example.com".into(), "Password123!".into());

    hash.add_user(user.clone()).unwrap();
    let retrieved_user = hash.get_user(" test_user@example.com");
    assert_eq!(retrieved_user, Ok(user));
    let non_existent_user = hash.get_user("non_existent_user@example.com");
    assert_eq!(non_existent_user, Err(UserStoreError::UserNotFound));
}

#[test]
fn hashmap_user_store_test_validate_user() {
    let mut hash = HashmapUserStore::new();
    let user = User::new_without_2fa("test_user@example.com".into(), "Password123!".into());

    hash.add_user(user.clone()).unwrap();

    let valid_credentials = hash.validate_credentials("test_user@example.com", "Password123!");
    assert_eq!(valid_credentials, Ok(true));

    let invalid_credentials = hash.validate_credentials("test_user@example.com", "WrongPassword!");
    assert_eq!(invalid_credentials, Err(UserStoreError::InvalidCredentials));

    let non_existent_user =
        hash.validate_credentials("non_existent_user@example.com", "Password123!");
    assert_eq!(non_existent_user, Err(UserStoreError::UserNotFound));
}

#[test]
fn hashmap_user_store_refuses_bad_users() {
    let mut hash = HashmapUserStore::default();
    let bad_email = User::new_without_2fa("not-an-email".into(), "Password123!".into());
    assert_eq!(hash.add_user(bad_email), Err(UserStoreError::InvalidCredentials));
    let weak = User::new_without_2fa("weak@example.com".into(), "password".into());
    assert_eq!(hash.add_user(weak), Err(UserStoreError::InvalidCredentials));
    assert_eq!(hash.get_user("weak@example.com"), Err(UserStoreError::UserNotFound));
}

#[test]
fn hashmap_user_store_through_its_interface() {
    let mut hash = HashmapUserStore::new();
    let user = User::new_with_2fa("two@example.com".into(), "Password123!".into());
    UserStore::add_user(&mut hash, user.clone()).unwrap();
    let email = Email::parse("two@example.com".into()).unwrap();
    let fetched = UserStore::get_user(&hash, &email).unwrap();
    assert!(fetched.requires_2fa);
    let password = Password::parse("Password123!".into()).unwrap();
    assert_eq!(UserStore::validate_credentials(&hash, &email, &password), Ok(true));
    let wrong = Password::parse("Password124!".into()).unwrap();
    assert_eq!(
        UserStore::validate_credentials(&hash, &email, &wrong),
        Err(UserStoreError::InvalidCredentials)
    );
}

#[test]
fn test_add_and_get_code() {
    let mut store = HashmapTwoFACodeStore::default();
    let email = Email::parse("test@example.com".to_string()).unwrap();
    let login_attempt_id = LoginAttemptId::default();
    let code = TwoFACode::default();

    store.add_code(email.clone(), login_attempt_id.clone(), code.clone()).unwrap();

    let (retrieved_login_attempt_id, retrieved_code) = store.get_code(&email).unwrap();
    assert_eq!(retrieved_login_attempt_id, login_attempt_id);
    assert_eq!(retrieved_code, code);
}

#[test]
fn test_remove_code() {
    let mut store = HashmapTwoFACodeStore::default();
    let email = Email::parse("test@example.com".to_string()).unwrap();
    let login_attempt_id = LoginAttemptId::default();
    let code = TwoFACode::default();

    store.add_code(email.clone(), login_attempt_id, code).unwrap();
    store.remove_code(&email).unwrap();

    assert!(store.get_code(&email).is_err());
}

#[test]
fn code_store_replaces_and_reports_missing() {
    let mut store = HashmapTwoFACodeStore::new();
    let email = Email::parse("test@example.com".to_string()).unwrap();
    let other = Email::parse("other@example.com".to_string()).unwrap();
    assert_eq!(store.remove_code(&email), Err(TwoFACodeStoreError::LoginAttemptIdNotFound));
    assert_eq!(store.get_code(&email), Err(TwoFACodeStoreError::LoginAttemptIdNotFound));

    let first_id = LoginAttemptId::default();
    let second_id = LoginAttemptId::default();
    let code = TwoFACode::parse("000111".into()).unwrap();
    store.add_code(email.clone(), first_id, code.clone()).unwrap();
    store.add_code(email.clone(), second_id.clone(), code.clone()).unwrap();
    let (id, _) = store.get_code(&email).unwrap();
    assert_eq!(id, second_id);
    assert!(store.get_code(&other).is_err());
    store.remove_code(&email).unwrap();
    assert_eq!(store.remove_code(&email), Err(TwoFACodeStoreError::LoginAttemptIdNotFound));
}

#[test]
fn test_add_token() {
    let mut store = HashsetBannedTokenStore::default();
    let token = "test_token".to_owned();

    let result = store.ban_token(token.clone());

    assert!(result.is_ok());
    assert_eq!(store.is_token_banned(&token), Ok(true));
}

#[test]
fn test_contains_token() {
    let mut store = HashsetBannedTokenStore::default();
    let token = "test_token".to_owned();
    store.ban_token(token.clone()).unwrap();

    let result = store.is_token_banned(&token);

    assert!(result.unwrap());
    assert_eq!(store.is_token_banned("other_token"), Ok(false));
}
