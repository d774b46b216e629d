use auth_service::domain::data_stores::two_fa_store::{LoginAttemptId, TwoFACode};
use auth_service::domain::password::{validate_password, HashedPasswordError};
use auth_service::domain::{AuthAPIError, Email, Password, User};
use auth_service::text::trimmed;
use rand::{seq::SliceRandom, Rng};

fn is_ok<T, E>(res: &Result<T, E>) -> bool {
    matches!(res, Ok(_))
}

fn is_err<T, E>(res: &Result<T, E>) -> bool {
    matches!(res, Err(_))
}

#[test]
fn test_two_fa_code_parse_valid() {
    let code_str = "123456".to_string();
    let code = TwoFACode::parse(code_str.clone());

    assert!(is_ok(&code));
    assert_eq!(code.unwrap().as_str(), code_str);
}

#[test]
fn test_two_fa_code_parse_invalid() {
    let code_str = "12345a".to_string();
    let code = TwoFACode::parse(code_str.clone());
    assert!(is_err(&code));
    assert_eq!(code.unwrap_err(), "Invalid 2FA code");
}

#[test]
fn test_two_fa_code_default() {
    let code = TwoFACode::default();
    assert_eq!(code.as_str().len(), 6);
    assert!(TwoFACode::parse(code.as_str().to_string()).is_ok());
}

#[test]
fn test_login_attempt_id_parse_valid() {
    let id_str = uuid::Uuid::new_v4().to_string();
    let id = LoginAttemptId::parse(id_str.clone());
    assert!(is_ok(&id));
    assert_eq!(id.unwrap().as_str(), id_str);
}

#[test]
fn test_login_attempt_id_parse_invalid() {
    let id_str = "invalid-uuid".to_string();
    let id = LoginAttemptId::parse(id_str.clone());
    assert!(is_err(&id));
    assert_eq!(id.unwrap_err(), "Invalid login attempt id");
}

#[test]
fn test_login_attempt_id_default() {
    let id = LoginAttemptId::default();
    assert!(uuid::Uuid::parse_str(id.as_str()).is_ok());
    assert!(LoginAttemptId::parse(id.as_str().to_string()).is_ok());
}

#[test]
fn login_attempt_id_accepts_every_uuid_shape() {
    let accepted = [
        "67e55044-10b1-426f-9247-bb680e5fe0c8",
        "67e5504410b1426f9247bb680e5fe0c8",
        "urn:uuid:67e55044-10b1-426f-9247-bb680e5fe0c8",
        "URN:UUID:67e55044-10b1-426f-9247-bb680e5fe0c8",
        "{6d93bade-bd9f-4e13-8914-9474e1e3567b}",
        "F9168C5E-CEB2-4faa-B6BF-329BF39FA1E4",
    ];
    for text in accepted {
        assert!(LoginAttemptId::parse(text.to_string()).is_ok(), "{}", text);
    }
    let refused = [
        "",
        "67e55044-10b1-426f-9247-bb680e5fe0c",
        "67e55044x10b1-426f-9247-bb680e5fe0c8",
        "67e55044-10b1-426f-9247-bb680e5fe0cg",
        "(6d93bade-bd9f-4e13-8914-9474e1e3567b)",
        "urn:uuix:67e55044-10b1-426f-9247-bb680e5fe0c8",
    ];
    for text in refused {
        assert!(LoginAttemptId::parse(text.to_string()).is_err(), "{}", text);
    }
}

#[test]
fn empty_string_is_rejected() {
    let password = "".to_string();
    assert!(Password::parse(password).is_err());
}

#[test]
fn string_less_than_8_characters_is_rejected() {
    let password = "1234567".to_string();
    assert!(Password::parse(password).is_err());
}

fn generate_valid_password<R: Rng + ?Sized>(rng: &mut R) -> String {
    const SPECIAL_CHARS: &[u8] = b"!@#$%^&*";
    const CHARSET: &[u8] =
        b"abcdefghijklmnopqrstuvwxyzABCDEFGHIJKLMNOPQRSTUVWXYZ0123456789!@#$%^&*";

    let len = rng.gen_range(8..=30);
    let mut bytes = Vec::with_capacity(len);

    bytes.push(*SPECIAL_CHARS.choose(rng).expect("special chars not empty"));
    bytes.push(b'0' + rng.gen_range(0..10));

    while bytes.len() < len {
        bytes.push(*CHARSET.choose(rng).expect("charset not empty"));
    }

    bytes.shuffle(rng);
    String::from_utf8(bytes).expect("generated password should be valid UTF-8")
}

#[test]
fn valid_passwords_are_parsed_successfully() {
    let mut rng = rand::thread_rng();
    for _ in 0..100 {
        let valid_password = generate_valid_password(&mut rng);
        assert!(validate_password(&valid_password));
    }
}

#[test]
fn password_rules_each_matter() {
    assert!(validate_password("password123@"));
    assert!(!validate_password("password123"));
    assert!(!validate_password("pass@12"));
    assert!(!validate_password("password@abc"));
    assert!(!validate_password("pass word123@"));
    let refused = Password::parse("password123".to_string()).unwrap_err();
    assert_eq!(refused, "Failed to parse string to a Passwrord type");
    assert_eq!(Password::parse("password123@".to_string()).unwrap().as_str(), "password123@");
}

#[test]
fn hashed_password_needs_eight_characters() {
    assert_eq!(Password::hashed("1234567".to_string()).unwrap_err(), HashedPasswordError::TooShort);
    assert_eq!(Password::hashed("12345678".to_string()).unwrap().as_str(), "12345678");
}

#[test]
fn email_parse_trims_and_checks_shape() {
    let email = Email::parse("  test@example.com \n".to_string()).unwrap();
    assert_eq!(email.as_str(), "test@example.com");
    for bad in ["", "email", "email@email", "email.email", "@email.email", "a b@c.d"] {
        let refused = Email::parse(bad.to_string()).unwrap_err();
        assert_eq!(refused, format!("Invalid email format: {}", bad.trim()));
    }
    assert_eq!(Email::parse(" x ".to_string()).unwrap_err(), "Invalid email format: x");
}

#[test]
fn email_reparses_to_itself() {
    let email = Email::parse("  first.last-name@sub.example.org ".to_string()).unwrap();
    let again = Email::parse(email.as_str().to_string()).unwrap();
    assert_eq!(email, again);
}

#[test]
fn user_constructors_trim_fields() {
    let user = User::new(" a@b.co ".to_string(), "\tpass word1! ".to_string(), true);
    assert_eq!(user.email, "a@b.co");
    assert_eq!(user.password, "pass word1!");
    assert!(user.requires_2fa);
    assert!(User::new_with_2fa("a@b.co".into(), "x".into()).requires_2fa);
    assert!(!User::new_without_2fa("a@b.co".into(), "x".into()).requires_2fa);
}

#[test]
fn trimming_uses_unicode_white_space() {
    assert_eq!(trimmed("\u{3000}\u{a0} abc \u{2029}\u{85}"), "abc");
    assert_eq!(trimmed(" a b "), "a b");
    assert_eq!(trimmed(""), "");
}

#[test]
fn error_statuses_and_messages() {
    let cases = [
        (AuthAPIError::InvalidCredentials, 400, "Invalid credentials"),
        (AuthAPIError::WrongEmailOrPassword, 401, "Wrong email or password"),
        (AuthAPIError::UserAlreadyExists, 409, "User already exists"),
        (AuthAPIError::UserNotFound, 404, "User not found"),
        (AuthAPIError::InternalServerError, 500, "Unexpected error"),
        (AuthAPIError::MissingToken, 400, "Missing token"),
        (AuthAPIError::InvalidToken, 401, "Invalid token"),
    ];
    for (error, status, message) in cases {
        assert_eq!(error.status_code(), status);
        assert_eq!(error.message(), message);
        let (s, body) = auth_service::error_response(error);
        assert_eq!(s, status);
        assert_eq!(body.error, message);
    }
}
