//! Log-in.

use crate::domain::data_stores::two_fa_store::{code_accepted, is_fresh_uuid_text, is_six_digits};
use crate::domain::email::email_accepts;
use crate::domain::password::password_is_strong;
use crate::domain::{
    AuthAPIError, Email, EmailClient, LoginAttemptId, Password, TwoFACode, TwoFACodeStore,
    TwoFACodeStoreError, UserStore,
};
use crate::routes::signup::{signup_post, SignupRequest, SignupResponse};
use crate::services::{HashmapUserStore, MockEmailClient};
use crate::text::{join, lemma_trim_idempotent, trim};
use vstd::prelude::*;

verus! {

/// A log-in request.
#[derive(Debug, Clone)]
pub struct LoginRequest {
    pub email: String,
    pub password: String,
}

/// The answer to a log-in that needs no second factor.
#[derive(Debug, Clone, PartialEq)]
pub struct RegularAuthResponse {
    pub message: String,
}

/// The answer to a log-in that waits for a second factor.
#[derive(Debug, Clone, PartialEq)]
pub struct TwoFactorAuthResponse {
    pub message: String,
    pub login_attempt_id: String,
}

/// The answer to a successful log-in.
#[derive(Debug, Clone, PartialEq)]
pub enum LoginResponse {
    RegularAuth(RegularAuthResponse),
    TwoFactorAuth(TwoFactorAuthResponse),
}

impl LoginResponse {
    /// `200 OK` for a completed log-in, `206 Partial Content` for one that
    /// waits for its second factor.
    pub fn status_code(&self) -> (r: u16)
        ensures
            r == (match self {
                LoginResponse::RegularAuth(_) => 200u16,
                LoginResponse::TwoFactorAuth(_) => 206u16,
            }),
    {
        match self {
            LoginResponse::RegularAuth(_) => 200,
            LoginResponse::TwoFactorAuth(_) => 206,
        }
    }
}

/// `after` is `before` with a fresh attempt recorded for `email`: a new
/// version-4 UUID and a six-digit code.
pub open spec fn recorded_attempt(
    before: Map<Seq<char>, (Seq<char>, Seq<char>)>,
    after: Map<Seq<char>, (Seq<char>, Seq<char>)>,
    email: Seq<char>,
) -> bool {
    &&& after.contains_key(email)
    &&& after == before.insert(email, after[email])
    &&& is_fresh_uuid_text(after[email].0)
    &&& is_six_digits(after[email].1)
    &&& code_accepted(after[email].1)
}

/// The answer to a successful log-in of `email`: the completion message, or
/// the request for a second factor with a fresh attempt identifier.
pub open spec fn answer_shape(email: Seq<char>, response: LoginResponse) -> bool {
    match response {
        LoginResponse::RegularAuth(a) => a.message@ == "User "@ + email + " logged in successfully"@,
        LoginResponse::TwoFactorAuth(t) => t.message@ == "2FA required"@ && is_fresh_uuid_text(
            t.login_attempt_id@,
        ),
    }
}

/// What starting a second-factor log-in for `email` does to a store with a
/// model: `before` and `after` are the pending table around it, `client`
/// the e-mail client. A fresh attempt is recorded. A success answers its
/// identifier; a failure (the e-mail was not sent) is
/// `InternalServerError`. A client with a model was handed the attempt
/// identifier as subject and the recorded code as content, and the log-in
/// succeeds exactly when the client takes that message.
pub open spec fn second_factor_post<M: EmailClient + ?Sized>(
    client: &M,
    before: Map<Seq<char>, (Seq<char>, Seq<char>)>,
    after: Map<Seq<char>, (Seq<char>, Seq<char>)>,
    email: Seq<char>,
    r: Result<(Email, LoginResponse), AuthAPIError>,
) -> bool {
    &&& recorded_attempt(before, after, email)
    &&& r is Err ==> r == Err::<(Email, LoginResponse), AuthAPIError>(
        AuthAPIError::InternalServerError,
    )
    &&& r is Ok ==> (r matches Ok((e, LoginResponse::TwoFactorAuth(t))) && e@ == email && t.message@
        == "2FA required"@ && after[email].0 == t.login_attempt_id@)
    &&& client.keeps_model() ==> (r is Ok <==> client.delivers(
        email,
        after[email].0,
        after[email].1,
    ))
}

/// What a log-in does: `users` is the user store, `client` the e-mail
/// client, `before` and `after` the pending second-factor table around the
/// call.
pub open spec fn login_post<U: UserStore + ?Sized, M: EmailClient + ?Sized>(
    users: &U,
    client: &M,
    before: Map<Seq<char>, (Seq<char>, Seq<char>)>,
    after: Map<Seq<char>, (Seq<char>, Seq<char>)>,
    request: LoginRequest,
    r: Result<(Email, LoginResponse), AuthAPIError>,
) -> bool {
    if !email_accepts(request.email@) || !password_is_strong(request.password@) {
        r == Err::<(Email, LoginResponse), AuthAPIError>(AuthAPIError::InvalidCredentials)
            && after == before
    } else {
        let email = trim(request.email@);
        match users.account(email) {
            None => r == Err::<(Email, LoginResponse), AuthAPIError>(
                AuthAPIError::WrongEmailOrPassword,
            ) && after == before,
            Some(requires_2fa) => if !users.accepts(email, request.password@) {
                r == Err::<(Email, LoginResponse), AuthAPIError>(AuthAPIError::WrongEmailOrPassword)
                    && after == before
            } else if !requires_2fa {
                &&& r matches Ok((e, LoginResponse::RegularAuth(a))) && e@ == email && a.message@
                    == "User "@ + email + " logged in successfully"@
                &&& after == before
            } else {
                second_factor_post(client, before, after, email, r)
            },
        }
    }
}

/// Logs a user in. An address or password that does not parse gives
/// `InvalidCredentials`; an unknown address or a wrong password gives
/// `WrongEmailOrPassword`. A user without a second factor gets a completed
/// log-in (the session cookie is issued for the returned address); a user
/// with one gets a fresh attempt identifier, and a fresh code is recorded for
/// them and e-mailed to them (`InternalServerError` if the code store or the
/// e-mail fails).
pub fn login<U: UserStore + ?Sized, C: TwoFACodeStore + ?Sized, M: EmailClient + ?Sized>(
    user_store: &U,
    two_fa_code_store: &mut C,
    email_client: &M,
    request: LoginRequest,
) -> (r: Result<(Email, LoginResponse), AuthAPIError>)
    ensures
        !email_accepts(request.email@) || !password_is_strong(request.password@) ==> r == Err::<
            (Email, LoginResponse),
            AuthAPIError,
        >(AuthAPIError::InvalidCredentials) && &*final(two_fa_code_store) == &*old(two_fa_code_store),
        r is Err ==> r == Err::<(Email, LoginResponse), AuthAPIError>(
            AuthAPIError::InvalidCredentials,
        ) || r == Err::<(Email, LoginResponse), AuthAPIError>(AuthAPIError::WrongEmailOrPassword)
            || r == Err::<(Email, LoginResponse), AuthAPIError>(AuthAPIError::InternalServerError),
        r matches Ok((e, response)) ==> e@ == trim(request.email@) && answer_shape(e@, response),
        user_store.keeps_model() && old(two_fa_code_store).keeps_model() ==> login_post(
            user_store,
            email_client,
            old(two_fa_code_store).codes(),
            final(two_fa_code_store).codes(),
            request,
            r,
        ),
{
    let ghost req = request;
    let email = match Email::parse(request.email) {
        Ok(email) => email,
        Err(_) => return Err(AuthAPIError::InvalidCredentials),
    };
    let password = match Password::parse(request.password) {
        Ok(password) => password,
        Err(_) => return Err(AuthAPIError::InvalidCredentials),
    };
    let user = match user_store.get_user(&email) {
        Ok(user) => user,
        Err(_) => return Err(AuthAPIError::WrongEmailOrPassword),
    };
    let is_valid = match user_store.validate_credentials(&email, &password) {
        Ok(valid) => valid,
        Err(_) => return Err(AuthAPIError::WrongEmailOrPassword),
    };
    if !is_valid {
        return Err(AuthAPIError::WrongEmailOrPassword);
    }
    if user.requires_2fa {
        handle_2fa_login(email, two_fa_code_store, email_client)
    } else {
        let mut message = join("User ", email.as_str());
        message.append(" logged in successfully");
        Ok((email, LoginResponse::RegularAuth(RegularAuthResponse { message })))
    }
}

/// Whether the attempt was recorded and its code e-mailed.
pub open spec fn attempt_delivered(
    recorded: Result<(), TwoFACodeStoreError>,
    sent: Option<Result<(), String>>,
) -> bool {
    recorded is Ok && (sent matches Some(Ok(_)))
}

/// The answer to a second-factor log-in once recording the attempt gave
/// `recorded` and, when it was recorded, e-mailing the code gave `sent`
/// (`None`: nothing was sent): the request for a second factor with the
/// attempt identifier when both succeeded, `InternalServerError` otherwise.
pub fn two_fa_login_outcome(
    email: Email,
    login_attempt_id: String,
    recorded: Result<(), TwoFACodeStoreError>,
    sent: Option<Result<(), String>>,
) -> (r: Result<(Email, LoginResponse), AuthAPIError>)
    ensures
        attempt_delivered(recorded, sent) ==> (r matches Ok(
            (e, LoginResponse::TwoFactorAuth(t)),
        ) && e == email && t.message@ == "2FA required"@ && t.login_attempt_id
            == login_attempt_id),
        !attempt_delivered(recorded, sent) ==> r == Err::<
            (Email, LoginResponse),
            AuthAPIError,
        >(AuthAPIError::InternalServerError),
{
    if recorded.is_err() {
        return Err(AuthAPIError::InternalServerError);
    }
    match sent {
        Some(Ok(())) => {
            let response = TwoFactorAuthResponse {
                message: String::from_str("2FA required"),
                login_attempt_id,
            };
            Ok((email, LoginResponse::TwoFactorAuth(response)))
        },
        _ => Err(AuthAPIError::InternalServerError),
    }
}

/// Records a fresh attempt and code for `email`, e-mails the code (the
/// attempt identifier as subject) and answers with the attempt identifier.
/// A failure to record or to e-mail gives `InternalServerError`; nothing is
/// e-mailed when recording failed.
fn handle_2fa_login<C: TwoFACodeStore + ?Sized, M: EmailClient + ?Sized>(
    email: Email,
    two_fa_code_store: &mut C,
    email_client: &M,
) -> (r: Result<(Email, LoginResponse), AuthAPIError>)
    ensures
        r is Err ==> r == Err::<(Email, LoginResponse), AuthAPIError>(
            AuthAPIError::InternalServerError,
        ),
        r matches Ok((e, response)) ==> e@ == email@ && response is TwoFactorAuth && answer_shape(
            email@,
            response,
        ),
        old(two_fa_code_store).keeps_model() ==> second_factor_post(
            email_client,
            old(two_fa_code_store).codes(),
            final(two_fa_code_store).codes(),
            email@,
            r,
        ),
{
    let login_attempt_id = LoginAttemptId::default();
    let two_fa_code = TwoFACode::default();
    let id_text = String::from_str(login_attempt_id.as_str());
    let code_text = String::from_str(two_fa_code.as_str());
    let recorded = two_fa_code_store.add_code(email.clone(), login_attempt_id, two_fa_code);
    let sent = match recorded {
        Ok(()) => Some(email_client.send_email(&email, id_text.as_str(), code_text.as_str())),
        Err(_) => None,
    };
    two_fa_login_outcome(email, id_text, recorded, sent)
}

/// A user who signed up logs in with the same address and password: at once
/// when they chose no second factor; otherwise the log-in asks for the
/// second factor with the identifier of the attempt it recorded (the client
/// here takes every message).
pub proof fn law_signup_then_login(
    users_before: HashmapUserStore,
    users_after: HashmapUserStore,
    signup_request: SignupRequest,
    signed_up: Result<SignupResponse, AuthAPIError>,
    codes_before: Map<Seq<char>, (Seq<char>, Seq<char>)>,
    codes_after: Map<Seq<char>, (Seq<char>, Seq<char>)>,
    client: MockEmailClient,
    login_request: LoginRequest,
    logged: Result<(Email, LoginResponse), AuthAPIError>,
)
    requires
        signup_post(&users_before, &users_after, signup_request, signed_up),
        signed_up is Ok,
        login_request.email@ == signup_request.email@,
        login_request.password@ == signup_request.password@,
        login_post(&users_after, &client, codes_before, codes_after, login_request, logged),
    ensures
        !signup_request.requires_2fa ==> (logged matches Ok((e, LoginResponse::RegularAuth(_)))
            && e@ == trim(signup_request.email@)),
        signup_request.requires_2fa ==> (logged matches Ok((e, LoginResponse::TwoFactorAuth(t)))
            && e@ == trim(signup_request.email@) && codes_after[e@].0 == t.login_attempt_id@),
{
    lemma_trim_idempotent(signup_request.password@);
}

} // verus!
