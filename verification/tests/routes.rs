use auth_service::domain::{LoginAttemptId, TwoFACode, TwoFACodeStoreError};
use auth_service::routes::verify_2fa::attempt_check_outcome;
use auth_service::domain::BannedTokenStoreError;
use auth_service::utils::auth::{ban_outcome, token_verdict_for, TokenRejection};
use auth_service::routes::login::two_fa_login_outcome;
use auth_service::domain::{AuthAPIError, BannedTokenStore, Email, TwoFACodeStore, UserStore};
use auth_service::routes::login::{login, LoginRequest, LoginResponse};
use auth_service::routes::logout::logout;
use auth_service::routes::signup::{signup, SignupRequest, SignupResponse};
use auth_service::routes::verify_2fa::{verify_2fa_check, verify_2fa_finish, Verify2FARequest};
use auth_service::routes::verify_token::{verify_token, VerifyTokenRequest};
use auth_service::services::{
    HashmapTwoFACodeStore, HashmapUserStore, HashsetBannedTokenStore, MockEmailClient,
};
use auth_service::utils::auth::{
    claims_at, create_auth_cookie, create_token, generate_auth_cookie, generate_auth_token,
    generate_auth_token_at, token_claims, validate_token, Claims, GenerateTokenError, SameSite,
    TOKEN_TTL_SECONDS,
};
use auth_service::utils::constants::JWT_COOKIE_NAME;

fn signup_request(email: &str, password: &str, requires_2fa: bool) -> SignupRequest {
    SignupRequest { email: email.to_string(), password: password.to_string(), requires_2fa }
}

fn random_email() -> String {
    format!("{}@example.com", uuid::Uuid::new_v4())
}

#[test]
fn should_return_201_if_valid_input() {
    let mut users = HashmapUserStore::new();
    let email = random_email();
    let expected_response =
        SignupResponse { message: format!("User {} created successfully", email) };
    let response = signup(&mut users, signup_request(&email, "password123@", false)).unwrap();
    assert_eq!(response.status_code(), 201);
    assert_eq!(response, expected_response);
}

#[test]
fn signup_should_return_400_if_invalid_input() {
    let mut users = HashmapUserStore::new();
    let email = random_email();
    let test_cases = [
        signup_request(&email, "password123", true),
        signup_request(&email, "pass@12", false),
        signup_request("", "password123@", true),
        signup_request("email", "password123@", true),
        signup_request("email@email", "password123@", true),
        signup_request("email.email", "password123@", true),
        signup_request("@email.email", "password123@", true),
    ];
    for test_case in test_cases {
        let error = signup(&mut users, test_case).unwrap_err();
        assert_eq!(error.status_code(), 400);
        assert_eq!(error.message(), "Invalid credentials".to_string());
    }
}

#[test]
fn should_return_409_if_user_already_exists() {
    let mut users = HashmapUserStore::new();
    let email = random_email();
    let first = signup(&mut users, signup_request(&email, "password123@", true)).unwrap();
    assert_eq!(first.status_code(), 201);
    let second = signup(&mut users, signup_request(&email, "password123@", true)).unwrap_err();
    assert_eq!(second.status_code(), 409);
    assert_eq!(second.message(), "User already exists".to_string());
}

fn signed_up(email: &str, password: &str, requires_2fa: bool) -> HashmapUserStore {
    let mut users = HashmapUserStore::new();
    signup(&mut users, signup_request(email, password, requires_2fa)).unwrap();
    users
}

#[test]
fn login_without_second_factor_completes() {
    let email = random_email();
    let users = signed_up(&email, "password123@", false);
    let mut codes = HashmapTwoFACodeStore::new();
    let (who, response) = login(
        &users,
        &mut codes,
        &MockEmailClient,
        LoginRequest { email: email.clone(), password: "password123@".into() },
    )
    .unwrap();
    assert_eq!(who.as_str(), email);
    assert_eq!(response.status_code(), 200);
    match response {
        LoginResponse::RegularAuth(r) => {
            assert_eq!(r.message, format!("User {} logged in successfully", email))
        }
        LoginResponse::TwoFactorAuth(_) => panic!("unexpected second factor"),
    }
    assert!(codes.get_code(&who).is_err());
}

#[test]
fn login_refusals() {
    let email = random_email();
    let users = signed_up(&email, "password123@", false);
    let mut codes = HashmapTwoFACodeStore::new();
    let refused = |users: &HashmapUserStore, codes: &mut HashmapTwoFACodeStore, e: &str, p: &str| {
        login(users, codes, &MockEmailClient, LoginRequest { email: e.into(), password: p.into() }).unwrap_err()
    };
    assert_eq!(refused(&users, &mut codes, "email@email", "password123@"), AuthAPIError::InvalidCredentials);
    assert_eq!(refused(&users, &mut codes, &email, "pass@12"), AuthAPIError::InvalidCredentials);
    let unknown = refused(&users, &mut codes, "valid.email@example.com", "validPassword123@");
    assert_eq!(unknown.status_code(), 401);
    let wrong = refused(&users, &mut codes, &email, "invalidPassword123@");
    assert_eq!(wrong, AuthAPIError::WrongEmailOrPassword);
}

#[test]
fn should_return_200_if_valid_2fa_code() {
    let email = random_email();
    let users = signed_up(&email, "P@ssword123!", true);
    let mut codes = HashmapTwoFACodeStore::new();
    let (who, response) = login(
        &users,
        &mut codes,
        &MockEmailClient,
        LoginRequest { email: email.clone(), password: "P@ssword123!".into() },
    )
    .unwrap();
    assert_eq!(response.status_code(), 206);
    let attempt = match response {
        LoginResponse::TwoFactorAuth(t) => t,
        LoginResponse::RegularAuth(_) => panic!("second factor expected"),
    };
    assert_eq!(attempt.message, "2FA required");
    let (stored_id, stored_code) = codes.get_code(&who).unwrap();
    assert_eq!(stored_id.as_str(), attempt.login_attempt_id);

    let request = Verify2FARequest {
        email: email.clone(),
        login_attempt_id: stored_id.as_str().to_string(),
        two_fa_code: stored_code.as_str().to_string(),
    };
    let checked = verify_2fa_check(&codes, request).unwrap();
    let finished = verify_2fa_finish(&mut codes, &checked).unwrap();
    assert_eq!(finished.status_code(), 200);
    assert_eq!(finished.message, format!("User {} logged in successfully", email));
}

#[test]
fn should_return_401_if_same_code_twice() {
    let email = random_email();
    let users = signed_up(&email, "P@ssword123!", true);
    let mut codes = HashmapTwoFACodeStore::new();
    let (who, _) = login(
        &users,
        &mut codes,
        &MockEmailClient,
        LoginRequest { email: email.clone(), password: "P@ssword123!".into() },
    )
    .unwrap();
    let (stored_id, stored_code) = codes.get_code(&who).unwrap();
    let request = Verify2FARequest {
        email: email.clone(),
        login_attempt_id: stored_id.as_str().to_string(),
        two_fa_code: stored_code.as_str().to_string(),
    };
    let checked = verify_2fa_check(&codes, request.clone()).unwrap();
    verify_2fa_finish(&mut codes, &checked).unwrap();
    let again = verify_2fa_check(&codes, request).unwrap_err();
    assert_eq!(again.status_code(), 401);
}

#[test]
fn verify_2fa_should_return_400_if_invalid_input() {
    let codes = HashmapTwoFACodeStore::new();
    let id = auth_service::domain::LoginAttemptId::default().as_str().to_string();
    let code = auth_service::domain::TwoFACode::default().as_str().to_string();
    let requests = [
        Verify2FARequest { email: "not-an-email".into(), login_attempt_id: id.clone(), two_fa_code: code.clone() },
        Verify2FARequest { email: random_email(), login_attempt_id: "not-a-uuid".into(), two_fa_code: code.clone() },
        Verify2FARequest { email: random_email(), login_attempt_id: id.clone(), two_fa_code: "not-a-6-digit-code".into() },
    ];
    for request in requests {
        assert_eq!(verify_2fa_check(&codes, request).unwrap_err().status_code(), 400);
    }
}

#[test]
fn verify_2fa_mismatch_is_invalid_credentials() {
    let email = random_email();
    let users = signed_up(&email, "P@ssword123!", true);
    let mut codes = HashmapTwoFACodeStore::new();
    let (who, _) = login(
        &users,
        &mut codes,
        &MockEmailClient,
        LoginRequest { email: email.clone(), password: "P@ssword123!".into() },
    )
    .unwrap();
    let (stored_id, stored_code) = codes.get_code(&who).unwrap();
    let other_code = if stored_code.as_str() == "000000" { "111111" } else { "000000" };
    let request = Verify2FARequest {
        email: email.clone(),
        login_attempt_id: stored_id.as_str().to_string(),
        two_fa_code: other_code.to_string(),
    };
    assert_eq!(verify_2fa_check(&codes, request).unwrap_err(), AuthAPIError::InvalidCredentials);
    assert!(codes.get_code(&who).is_ok());
}

#[test]
fn test_create_auth_cookie() {
    let token = "test_token".to_string();
    let cookie = create_auth_cookie(token.clone());
    assert_eq!(cookie.name, JWT_COOKIE_NAME);
    assert_eq!(cookie.value, token);
    assert_eq!(cookie.path, "/");
    assert!(cookie.http_only);
    assert_eq!(cookie.same_site, SameSite::Lax);
}

#[test]
fn claims_expire_after_the_token_lifetime() {
    let email = Email::parse("test@example.com".to_owned()).unwrap();
    let claims = claims_at(&email, 1_000).unwrap();
    assert_eq!(claims.sub, "test@example.com");
    assert_eq!(claims.exp(), 1_000 + TOKEN_TTL_SECONDS as usize);
    assert_eq!(claims_at(&email, -601), Err(GenerateTokenError::UnexpectedError));
    assert_eq!(claims_at(&email, i64::MAX), Err(GenerateTokenError::UnexpectedError));
    let now = token_claims(&email).unwrap();
    assert_eq!(now.sub, "test@example.com");
    assert!(now.exp() > 1_600_000_000 + TOKEN_TTL_SECONDS as usize);
}

const SECRET: &str = "test-secret";

#[test]
fn logout_bans_the_token_once() {
    let mut banned = HashsetBannedTokenStore::new();
    let email = Email::parse("a@b.co".to_owned()).unwrap();
    let token = generate_auth_token(&email, SECRET).unwrap();
    assert_eq!(logout(&mut banned, None, SECRET), Err(AuthAPIError::MissingToken));
    assert_eq!(
        logout(&mut banned, Some("bad".into()), SECRET),
        Err(AuthAPIError::InvalidToken)
    );
    assert_eq!(
        logout(&mut banned, Some(token.clone()), "another-secret"),
        Err(AuthAPIError::InvalidToken)
    );
    let fresh = VerifyTokenRequest { token: token.clone() };
    assert_eq!(verify_token(&banned, &fresh, SECRET), Ok(()));
    assert_eq!(logout(&mut banned, Some(token.clone()), SECRET), Ok(()));
    assert_eq!(banned.is_token_banned(&token), Ok(true));
    assert_eq!(
        logout(&mut banned, Some(token.clone()), SECRET),
        Err(AuthAPIError::InvalidToken)
    );
    let request = VerifyTokenRequest { token };
    assert_eq!(verify_token(&banned, &request, SECRET), Err(AuthAPIError::InvalidToken));
}

#[test]
fn test_generate_auth_token() {
    let email = Email::parse("test@example.com".to_owned()).unwrap();
    let cookie = generate_auth_cookie(&email, SECRET).unwrap();
    assert_eq!(cookie.name, JWT_COOKIE_NAME);
    assert_eq!(cookie.value.split('.').count(), 3);
    assert_eq!(cookie.path, "/");
    assert!(cookie.http_only);
    assert_eq!(cookie.same_site, SameSite::Lax);
}

#[test]
fn tokens_decode_to_their_claims() {
    let banned = HashsetBannedTokenStore::new();
    let email = Email::parse("test@example.com".to_owned()).unwrap();
    let token = generate_auth_token(&email, SECRET).unwrap();
    let claims = validate_token(&token, &banned, SECRET).unwrap();
    assert_eq!(claims.sub, "test@example.com");
    assert!(claims.exp() > 1_600_000_000);
    assert_eq!(validate_token(&token, &banned, "other"), Err(TokenRejection::Undecodable));
    assert_eq!(validate_token("a.b.c", &banned, SECRET), Err(TokenRejection::Undecodable));
    let expired = generate_auth_token_at(&email, 1_000, SECRET).unwrap();
    assert_eq!(validate_token(&expired, &banned, SECRET), Err(TokenRejection::Undecodable));
    let old_claims = Claims::new("test@example.com".into(), 1_600);
    assert_eq!(create_token(&old_claims, SECRET), Ok(expired));
}

#[test]
fn attempt_check_outcomes() {
    let email = Email::parse("user@example.com".to_string()).unwrap();
    let id = LoginAttemptId::parse("550e8400-e29b-41d4-a716-446655440000".to_string()).unwrap();
    let code = TwoFACode::parse("123456".to_string()).unwrap();
    let other = TwoFACode::parse("654321".to_string()).unwrap();
    let ok = attempt_check_outcome(email.clone(), &id, &code, Ok((id.clone(), code.clone())));
    assert_eq!(ok.unwrap().as_str(), "user@example.com");
    assert_eq!(
        attempt_check_outcome(email.clone(), &id, &code, Ok((id.clone(), other))).unwrap_err(),
        AuthAPIError::InvalidCredentials
    );
    assert_eq!(
        attempt_check_outcome(email.clone(), &id, &code, Err(TwoFACodeStoreError::LoginAttemptIdNotFound))
            .unwrap_err(),
        AuthAPIError::WrongEmailOrPassword
    );
    assert_eq!(
        attempt_check_outcome(email, &id, &code, Err(TwoFACodeStoreError::UnexpectedError)).unwrap_err(),
        AuthAPIError::InternalServerError
    );
}

#[test]
fn token_outcomes() {
    let claims = Claims::new("a@b.co".into(), 10);
    assert_eq!(token_verdict_for(Ok(false), Some(claims.clone())), Ok(claims.clone()));
    assert_eq!(token_verdict_for(Ok(true), Some(claims.clone())), Err(TokenRejection::Banned));
    assert_eq!(token_verdict_for(Ok(false), None), Err(TokenRejection::Undecodable));
    assert_eq!(
        token_verdict_for(Err(BannedTokenStoreError::UnexpectedError), Some(claims)),
        Err(TokenRejection::StoreFailure)
    );
    assert_eq!(ban_outcome(Ok(())), Ok(()));
    assert_eq!(
        ban_outcome(Err(BannedTokenStoreError::UnexpectedError)),
        Err(AuthAPIError::InternalServerError)
    );
}

#[test]
fn second_factor_outcomes() {
    let email = Email::parse("user@example.com".to_string()).unwrap();
    let id = "550e8400-e29b-41d4-a716-446655440000".to_string();
    let (who, response) = two_fa_login_outcome(email.clone(), id.clone(), Ok(()), Some(Ok(()))).unwrap();
    assert_eq!(who.as_str(), "user@example.com");
    assert_eq!(response.status_code(), 206);
    match response {
        LoginResponse::TwoFactorAuth(t) => {
            assert_eq!(t.message, "2FA required");
            assert_eq!(t.login_attempt_id, id);
        }
        LoginResponse::RegularAuth(_) => panic!("second factor expected"),
    }
    assert_eq!(
        two_fa_login_outcome(email.clone(), id.clone(), Ok(()), Some(Err("down".into()))).unwrap_err(),
        AuthAPIError::InternalServerError
    );
    assert_eq!(
        two_fa_login_outcome(email, id, Err(TwoFACodeStoreError::UnexpectedError), None).unwrap_err(),
        AuthAPIError::InternalServerError
    );
}
