//! Banned tokens kept in Redis.

use crate::domain::BannedTokenStoreError;
use crate::text::join;
use crate::utils::auth::TOKEN_TTL_SECONDS;
use vstd::prelude::*;

verus! {

/// The prefix of the keys under which banned tokens are kept, so that they
/// cannot collide with other keys.
pub const BANNED_TOKEN_KEY_PREFIX: &'static str = "banned_token:";

/// The key under which `token` is kept when banned.
pub fn get_key(token: &str) -> (r: String)
    ensures
        r@ == BANNED_TOKEN_KEY_PREFIX@ + token@,
{
    join(BANNED_TOKEN_KEY_PREFIX, token)
}

/// How long a banned token is kept, in seconds: as long as a token lives.
pub fn banned_token_ttl() -> (r: Result<u64, BannedTokenStoreError>)
    ensures
        r == Ok::<u64, BannedTokenStoreError>(TOKEN_TTL_SECONDS as u64),
{
    if TOKEN_TTL_SECONDS < 0 {
        return Err(BannedTokenStoreError::UnexpectedError);
    }
    Ok(TOKEN_TTL_SECONDS as u64)
}

} // verus!
