//! Completing a log-in with its second factor.

use crate::domain::data_stores::two_fa_store::{code_accepted, is_uuid_text};
use crate::domain::email::email_accepts;
use crate::domain::{
    AuthAPIError, Email, EmailClient, LoginAttemptId, TwoFACode, TwoFACodeStore, TwoFACodeStoreError,
    UserStore,
};
use crate::domain::data_stores::two_fa_store::lemma_fresh_id_parses;
use crate::routes::login::{login_post, LoginRequest, LoginResponse};
use crate::text::{join, trim};
use vstd::prelude::*;

verus! {

/// A request that completes a log-in with its second factor.
#[derive(Debug, Clone)]
pub struct Verify2FARequest {
    pub email: String,
    pub login_attempt_id: String,
    pub two_fa_code: String,
}

/// The answer to a completed second-factor log-in.
#[derive(Debug, Clone, PartialEq)]
pub struct Verify2FAResponse {
    pub message: String,
}

impl Verify2FAResponse {
    /// A completed log-in is answered with `200 OK`.
    pub fn status_code(&self) -> (r: u16)
        ensures
            r == 200,
    {
        200
    }
}

/// Whether every field of the request parses.
pub open spec fn verify_2fa_request_parses(request: Verify2FARequest) -> bool {
    &&& email_accepts(request.email@)
    &&& is_uuid_text(request.login_attempt_id@)
    &&& code_accepted(request.two_fa_code@)
}

/// What checking a second-factor request against the pending table `codes`
/// answers: `InvalidCredentials` for a field that does not parse,
/// `WrongEmailOrPassword` when no attempt is pending for the address, the
/// address when the identifier and code are the pending ones, and
/// `InvalidCredentials` when they are not.
pub open spec fn verify_2fa_check_post(
    codes: Map<Seq<char>, (Seq<char>, Seq<char>)>,
    request: Verify2FARequest,
    r: Result<Email, AuthAPIError>,
) -> bool {
    if !verify_2fa_request_parses(request) {
        r == Err::<Email, AuthAPIError>(AuthAPIError::InvalidCredentials)
    } else {
        let email = trim(request.email@);
        if !codes.contains_key(email) {
            r == Err::<Email, AuthAPIError>(AuthAPIError::WrongEmailOrPassword)
        } else if codes[email] == (request.login_attempt_id@, request.two_fa_code@) {
            r matches Ok(e) && e@ == email
        } else {
            r == Err::<Email, AuthAPIError>(AuthAPIError::InvalidCredentials)
        }
    }
}

/// What the check answers once the pending attempt for `email` was looked
/// up (`found`): the address when the pending identifier and code are the
/// given ones, `InvalidCredentials` when they are not,
/// `WrongEmailOrPassword` when nothing is pending, and
/// `InternalServerError` when the store failed.
pub fn attempt_check_outcome(
    email: Email,
    login_attempt_id: &LoginAttemptId,
    two_fa_code: &TwoFACode,
    found: Result<(LoginAttemptId, TwoFACode), TwoFACodeStoreError>,
) -> (r: Result<Email, AuthAPIError>)
    ensures
        match found {
            Ok((id, code)) => if id@ == login_attempt_id@ && code@ == two_fa_code@ {
                r == Ok::<Email, AuthAPIError>(email)
            } else {
                r == Err::<Email, AuthAPIError>(AuthAPIError::InvalidCredentials)
            },
            Err(TwoFACodeStoreError::LoginAttemptIdNotFound) => r == Err::<Email, AuthAPIError>(
                AuthAPIError::WrongEmailOrPassword,
            ),
            Err(TwoFACodeStoreError::UnexpectedError) => r == Err::<Email, AuthAPIError>(
                AuthAPIError::InternalServerError,
            ),
        },
{
    match found {
        Ok((stored_id, stored_code)) => {
            if *login_attempt_id == stored_id && *two_fa_code == stored_code {
                Ok(email)
            } else {
                Err(AuthAPIError::InvalidCredentials)
            }
        },
        Err(TwoFACodeStoreError::LoginAttemptIdNotFound) => Err(
            AuthAPIError::WrongEmailOrPassword,
        ),
        Err(TwoFACodeStoreError::UnexpectedError) => Err(AuthAPIError::InternalServerError),
    }
}

/// Checks a second-factor request: every field must parse
/// (`InvalidCredentials` otherwise), an attempt must be pending for the
/// address (`WrongEmailOrPassword` otherwise; `InternalServerError` when the
/// store fails), and the identifier and code must be the pending ones
/// (`InvalidCredentials` otherwise). Answers the address of the user to log
/// in.
pub fn verify_2fa_check<C: TwoFACodeStore + ?Sized>(two_fa_code_store: &C, request: Verify2FARequest) -> (r:
    Result<Email, AuthAPIError>)
    ensures
        !verify_2fa_request_parses(request) ==> r == Err::<Email, AuthAPIError>(
            AuthAPIError::InvalidCredentials,
        ),
        r is Err ==> r == Err::<Email, AuthAPIError>(AuthAPIError::WrongEmailOrPassword) || r
            == Err::<Email, AuthAPIError>(AuthAPIError::InvalidCredentials) || r == Err::<
            Email,
            AuthAPIError,
        >(AuthAPIError::InternalServerError),
        r matches Ok(e) ==> e@ == trim(request.email@),
        two_fa_code_store.keeps_model() ==> verify_2fa_check_post(
            two_fa_code_store.codes(),
            request,
            r,
        ),
{
    let email = match Email::parse(request.email) {
        Ok(email) => email,
        Err(_) => return Err(AuthAPIError::InvalidCredentials),
    };
    let login_attempt_id = match LoginAttemptId::parse(request.login_attempt_id) {
        Ok(id) => id,
        Err(_) => return Err(AuthAPIError::InvalidCredentials),
    };
    let two_fa_code = match TwoFACode::parse(request.two_fa_code) {
        Ok(code) => code,
        Err(_) => return Err(AuthAPIError::InvalidCredentials),
    };
    let found = two_fa_code_store.get_code(&email);
    attempt_check_outcome(email, &login_attempt_id, &two_fa_code, found)
}

/// What finishing a second-factor log-in does to the pending table of a
/// store with a model: it succeeds exactly when an attempt is pending, and
/// forgets it.
pub open spec fn verify_2fa_finish_post(
    before: Map<Seq<char>, (Seq<char>, Seq<char>)>,
    after: Map<Seq<char>, (Seq<char>, Seq<char>)>,
    email: Seq<char>,
    r: Result<Verify2FAResponse, AuthAPIError>,
) -> bool {
    &&& r matches Ok(response) ==> after == before.remove(email) && response.message@ == "User "@
        + email + " logged in successfully"@
    &&& r is Err ==> r == Err::<Verify2FAResponse, AuthAPIError>(AuthAPIError::InvalidToken)
        && after == before
    &&& r is Ok <==> before.contains_key(email)
}

/// Finishes a checked second-factor log-in once its session cookie has been
/// issued: the pending attempt is forgotten, so the code cannot be used
/// again. A store that fails to forget it gives `InvalidToken`.
pub fn verify_2fa_finish<C: TwoFACodeStore + ?Sized>(two_fa_code_store: &mut C, email: &Email) -> (r: Result<
    Verify2FAResponse,
    AuthAPIError,
>)
    ensures
        r matches Ok(response) ==> response.message@ == "User "@ + email@
            + " logged in successfully"@,
        r is Err ==> r == Err::<Verify2FAResponse, AuthAPIError>(AuthAPIError::InvalidToken),
        old(two_fa_code_store).keeps_model() ==> verify_2fa_finish_post(
            old(two_fa_code_store).codes(),
            final(two_fa_code_store).codes(),
            email@,
            r,
        ),
{
    match two_fa_code_store.remove_code(email) {
        Ok(()) => {
            let mut message = join("User ", email.as_str());
            message.append(" logged in successfully");
            Ok(Verify2FAResponse { message })
        },
        Err(_) => Err(AuthAPIError::InvalidToken),
    }
}

/// A second-factor code works once: after a check passed and the log-in was
/// finished, the same request is refused with `WrongEmailOrPassword`.
pub proof fn law_code_single_use(
    before: Map<Seq<char>, (Seq<char>, Seq<char>)>,
    after: Map<Seq<char>, (Seq<char>, Seq<char>)>,
    request: Verify2FARequest,
    checked: Result<Email, AuthAPIError>,
    finished: Result<Verify2FAResponse, AuthAPIError>,
    again: Result<Email, AuthAPIError>,
)
    requires
        verify_2fa_check_post(before, request, checked),
        checked is Ok,
        verify_2fa_finish_post(before, after, checked->Ok_0@, finished),
        finished is Ok,
        verify_2fa_check_post(after, request, again),
    ensures
        again == Err::<Email, AuthAPIError>(AuthAPIError::WrongEmailOrPassword),
{
}

/// The attempt a log-in hands out matches what it recorded: checking the
/// returned identifier with the recorded code for the same address is never
/// refused: the check passes and answers the address.
pub proof fn law_issued_attempt_matches<U: UserStore, M: EmailClient>(
    users: U,
    client: M,
    before: Map<Seq<char>, (Seq<char>, Seq<char>)>,
    after: Map<Seq<char>, (Seq<char>, Seq<char>)>,
    login_request: LoginRequest,
    logged: Result<(Email, LoginResponse), AuthAPIError>,
    request: Verify2FARequest,
    checked: Result<Email, AuthAPIError>,
)
    requires
        login_post(&users, &client, before, after, login_request, logged),
        logged matches Ok((_, LoginResponse::TwoFactorAuth(t))) && request.login_attempt_id@
            == t.login_attempt_id@,
        request.email@ == login_request.email@,
        request.two_fa_code@ == after[trim(login_request.email@)].1,
        verify_2fa_check_post(after, request, checked),
    ensures
        checked matches Ok(e) && e@ == trim(login_request.email@),
{
    if let Ok((_, LoginResponse::TwoFactorAuth(t))) = logged {
        lemma_fresh_id_parses(t.login_attempt_id@);
    }
}

} // verus!
