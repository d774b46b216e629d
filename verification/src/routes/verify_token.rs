//! Checking a token.

use crate::domain::{AuthAPIError, BannedTokenStore};
use crate::utils::auth::{decoded_by, jwt_hs256_claims, validate_token, Claims};
use vstd::prelude::*;

verus! {

/// A request to check a token.
#[derive(Debug, Clone)]
pub struct VerifyTokenRequest {
    pub token: String,
}

/// What checking `token` answers, given the banned set and what decoding
/// the token gave: success for a token that is not banned and decoded,
/// `InvalidToken` otherwise.
pub open spec fn verify_token_post(
    banned: Set<Seq<char>>,
    token: Seq<char>,
    decoded: Option<Claims>,
    r: Result<(), AuthAPIError>,
) -> bool {
    r == if !banned.contains(token) && decoded is Some {
        Ok::<(), AuthAPIError>(())
    } else {
        Err::<(), AuthAPIError>(AuthAPIError::InvalidToken)
    }
}

/// Accepts a token that is an unexpired HS256 token signed with `secret`
/// and is not banned; anything else gives `InvalidToken`.
pub fn verify_token<B: BannedTokenStore + ?Sized>(
    banned_token_store: &B,
    request: &VerifyTokenRequest,
    secret: &str,
) -> (r: Result<(), AuthAPIError>)
    ensures
        jwt_hs256_claims(request.token@, secret@) is None ==> r == Err::<(), AuthAPIError>(
            AuthAPIError::InvalidToken,
        ),
        r is Err ==> r == Err::<(), AuthAPIError>(AuthAPIError::InvalidToken),
        banned_token_store.keeps_model() ==> exists|decoded: Option<Claims>|
            #[trigger] decoded_by(request.token@, secret@, decoded) && verify_token_post(
                banned_token_store.banned(),
                request.token@,
                decoded,
                r,
            ),
{
    match validate_token(request.token.as_str(), banned_token_store, secret) {
        Ok(_) => Ok(()),
        Err(_) => Err(AuthAPIError::InvalidToken),
    }
}

} // verus!
