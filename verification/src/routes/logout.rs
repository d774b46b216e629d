//! Log-out.

use crate::domain::{AuthAPIError, BannedTokenStore};
use crate::routes::verify_token::verify_token_post;
use crate::utils::auth::{
    check_for_token_validity, decoded_from_cookie, jwt_hs256_claims, token_check_post, Claims,
};
use vstd::prelude::*;

verus! {

/// Logs out the session whose token the request's cookie carries (`cookie`),
/// with `secret` the key tokens are signed with: the token is checked and
/// banned. On success the cookie is to be removed from the client.
pub fn logout<B: BannedTokenStore + ?Sized>(
    banned_token_store: &mut B,
    cookie: Option<String>,
    secret: &str,
) -> (r: Result<(), AuthAPIError>)
    ensures
        r == Err::<(), AuthAPIError>(AuthAPIError::MissingToken) <==> cookie is None,
        cookie is None ==> &*final(banned_token_store) == &*old(banned_token_store),
        cookie matches Some(t) && jwt_hs256_claims(t@, secret@) is None ==> r == Err::<
            (),
            AuthAPIError,
        >(AuthAPIError::InvalidToken),
        r == Err::<(), AuthAPIError>(AuthAPIError::InvalidToken) ==> &*final(banned_token_store)
            == &*old(banned_token_store),
        r is Err ==> r == Err::<(), AuthAPIError>(AuthAPIError::MissingToken) || r == Err::<
            (),
            AuthAPIError,
        >(AuthAPIError::InvalidToken) || r == Err::<(), AuthAPIError>(
            AuthAPIError::InternalServerError,
        ),
        old(banned_token_store).keeps_model() ==> exists|decoded: Option<Claims>|
            #[trigger] decoded_from_cookie(cookie, secret@, decoded) && token_check_post(
                old(banned_token_store).banned(),
                final(banned_token_store).banned(),
                cookie,
                decoded,
                r,
            ),
{
    check_for_token_validity(banned_token_store, cookie, secret)
}

/// A token that was used to log out is refused afterwards, whatever
/// decoding it gives then.
pub proof fn law_logged_out_token_refused(
    before: Set<Seq<char>>,
    after: Set<Seq<char>>,
    token: String,
    decoded: Option<Claims>,
    logged_out: Result<(), AuthAPIError>,
    decoded_later: Option<Claims>,
    checked: Result<(), AuthAPIError>,
)
    requires
        token_check_post(before, after, Some(token), decoded, logged_out),
        logged_out is Ok,
        verify_token_post(after, token@, decoded_later, checked),
    ensures
        checked == Err::<(), AuthAPIError>(AuthAPIError::InvalidToken),
{
}

} // verus!
