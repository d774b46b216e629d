//! Sign-up.

use crate::domain::email::email_accepts;
use crate::domain::password::password_is_strong;
use crate::domain::{AuthAPIError, Email, Password, User, UserStore};
use crate::services::HashmapUserStore;
use crate::text::{join, lemma_trim_idempotent, trim};
use vstd::prelude::*;

verus! {

/// A sign-up request.
#[derive(Debug, Clone)]
pub struct SignupRequest {
    pub email: String,
    pub password: String,
    pub requires_2fa: bool,
}

/// The answer to a successful sign-up.
#[derive(Debug, Clone, PartialEq)]
pub struct SignupResponse {
    pub message: String,
}

impl SignupResponse {
    /// A successful sign-up is answered with `201 Created`.
    pub fn status_code(&self) -> (r: u16)
        ensures
            r == 201,
    {
        201
    }
}

/// What a sign-up does: `before` and `after` are the user store around the
/// call.
pub open spec fn signup_post<U: UserStore + ?Sized>(
    before: &U,
    after: &U,
    request: SignupRequest,
    r: Result<SignupResponse, AuthAPIError>,
) -> bool {
    if !email_accepts(request.email@) || !password_is_strong(request.password@) {
        r == Err::<SignupResponse, AuthAPIError>(AuthAPIError::InvalidCredentials) && after
            == before
    } else {
        let email = trim(request.email@);
        &&& before.account(email) is Some ==> r == Err::<SignupResponse, AuthAPIError>(
            AuthAPIError::UserAlreadyExists,
        )
        &&& r is Ok <==> before.account(email) is None && before.admits(
            email,
            trim(request.password@),
        )
        &&& r is Err ==> r == Err::<SignupResponse, AuthAPIError>(AuthAPIError::UserAlreadyExists)
        &&& r is Err ==> (forall|e: Seq<char>| #[trigger] after.account(e) == before.account(e))
            && (forall|e: Seq<char>, p: Seq<char>| #[trigger] after.accepts(e, p) == before.accepts(
            e,
            p,
        ))
        &&& r is Ok ==> (forall|e: Seq<char>| e != email ==> #[trigger] after.account(e)
            == before.account(e)) && (forall|e: Seq<char>, p: Seq<char>| e != email
            ==> #[trigger] after.accepts(e, p) == before.accepts(e, p))
        &&& r matches Ok(response) ==> {
            &&& response.message@ == "User "@ + email + " created successfully"@
            &&& after.account(email) == Some(request.requires_2fa)
            &&& after.accepts(email, trim(request.password@))
        }
    }
}

/// Registers the user a request describes. An address or password that
/// does not parse gives `InvalidCredentials`; a store that refuses the user
/// gives `UserAlreadyExists`.
pub fn signup<U: UserStore + ?Sized>(user_store: &mut U, request: SignupRequest) -> (r: Result<
    SignupResponse,
    AuthAPIError,
>)
    ensures
        !email_accepts(request.email@) || !password_is_strong(request.password@) ==> r == Err::<
            SignupResponse,
            AuthAPIError,
        >(AuthAPIError::InvalidCredentials) && &*final(user_store) == &*old(user_store),
        r is Err ==> r == Err::<SignupResponse, AuthAPIError>(AuthAPIError::InvalidCredentials)
            || r == Err::<SignupResponse, AuthAPIError>(AuthAPIError::UserAlreadyExists),
        r matches Ok(response) ==> response.message@ == "User "@ + trim(request.email@)
            + " created successfully"@,
        old(user_store).keeps_model() ==> signup_post(&*old(user_store), &*final(user_store), request, r),
{
    let ghost req = request;
    let email = match Email::parse(request.email) {
        Ok(email) => email,
        Err(_) => return Err(AuthAPIError::InvalidCredentials),
    };
    let password = match Password::parse(request.password) {
        Ok(password) => password,
        Err(_) => return Err(AuthAPIError::InvalidCredentials),
    };
    let user = User::new(
        String::from_str(email.as_str()),
        String::from_str(password.as_str()),
        request.requires_2fa,
    );
    proof {
        crate::text::lemma_trim_idempotent(req.email@);
        crate::text::lemma_trim_idempotent(req.password@);
    }
    match user_store.add_user(user) {
        Ok(()) => {
            let mut message = join("User ", email.as_str());
            message.append(" created successfully");
            Ok(SignupResponse { message })
        },
        Err(_) => Err(AuthAPIError::UserAlreadyExists),
    }
}

/// Signing up twice with the same request: once the first sign-up
/// succeeded, the second is refused with `UserAlreadyExists`.
pub proof fn law_signup_twice_conflicts<U: UserStore>(
    first: U,
    second: U,
    third: U,
    request: SignupRequest,
    r1: Result<SignupResponse, AuthAPIError>,
    r2: Result<SignupResponse, AuthAPIError>,
)
    requires
        signup_post(&first, &second, request, r1),
        r1 is Ok,
        signup_post(&second, &third, request, r2),
    ensures
        r2 == Err::<SignupResponse, AuthAPIError>(AuthAPIError::UserAlreadyExists),
{
}

/// Signing up with a free address on the in-memory store succeeds, when the
/// request parses and the password without its surrounding white space
/// passes the strength rules (as it does whenever the password has none).
pub proof fn law_fresh_signup_succeeds(
    before: HashmapUserStore,
    after: HashmapUserStore,
    request: SignupRequest,
    r: Result<SignupResponse, AuthAPIError>,
)
    requires
        signup_post(&before, &after, request, r),
        email_accepts(request.email@),
        password_is_strong(request.password@),
        password_is_strong(trim(request.password@)),
        before.account(trim(request.email@)) is None,
    ensures
        r is Ok,
{
    lemma_trim_idempotent(request.email@);
    lemma_trim_idempotent(request.password@);
}

} // verus!
