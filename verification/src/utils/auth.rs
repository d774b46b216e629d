//! Session tokens: their claims, signing and decoding them (HS256 JSON Web
//! Tokens, by `jsonwebtoken`), the cookie that carries them, and the checks
//! made before one is accepted.

use crate::domain::{AuthAPIError, BannedTokenStore, BannedTokenStoreError, Email};
use crate::utils::constants::JWT_COOKIE_NAME;
use vstd::prelude::*;

verus! {

/// How long a token stays valid, in seconds.
pub const TOKEN_TTL_SECONDS: i64 = 600;

/// The claims a token carries: whom it is about, and when it expires (a
/// Unix time in seconds).
#[derive(Debug, Clone, PartialEq)]
pub struct Claims {
    pub sub: String,
    exp: usize,
}

impl Claims {
    /// Claims about `sub` expiring at `exp`.
    pub fn new(sub: String, exp: usize) -> (r: Claims)
        ensures
            r.subject() == sub@,
            r.expiry() == exp,
    {
        Claims { sub, exp }
    }

    /// When the token expires.
    pub fn exp(&self) -> (r: usize)
        ensures
            r == self.expiry(),
    {
        self.exp
    }

    /// When the token expires.
    pub closed spec fn expiry(&self) -> usize {
        self.exp
    }

    /// Whom the token is about.
    pub closed spec fn subject(&self) -> Seq<char> {
        self.sub@
    }
}

/// Why no claims could be made for a token.
#[derive(Debug, Clone, Copy, PartialEq, Eq, Structural)]
pub enum GenerateTokenError {
    /// The signing step failed.
    TokenError,
    /// The expiry time could not be computed or does not fit a `usize`.
    UnexpectedError,
}

/// `chrono::Utc::now().timestamp()`: the current Unix time in seconds. The
/// clock is read; nothing is stated of the value.
#[verifier::external_body]
fn current_unix_time() -> (t: i64) {
    chrono::Utc::now().timestamp()
}

/// The expiry of a token issued at `now`, when it is representable.
pub open spec fn expiry_for(now: i64) -> Option<usize> {
    let exp = now + TOKEN_TTL_SECONDS;
    if i64::MIN <= exp <= i64::MAX && 0 <= exp <= usize::MAX {
        Some(exp as usize)
    } else {
        None
    }
}

/// Whether `r` is what making the claims of a token for `email` issued at
/// `now` gives: claims about `email` expiring `TOKEN_TTL_SECONDS` later, or
/// `UnexpectedError` when that expiry is not representable.
pub open spec fn claims_made_at(
    email: Seq<char>,
    now: i64,
    r: Result<Claims, GenerateTokenError>,
) -> bool {
    match expiry_for(now) {
        Some(exp) => r matches Ok(c) && c.subject() == email && c.expiry() == exp,
        None => r == Err::<Claims, GenerateTokenError>(GenerateTokenError::UnexpectedError),
    }
}

/// The claims of a token for `email` issued at `now`: the subject is the
/// address and the token expires `TOKEN_TTL_SECONDS` later.
pub fn claims_at(email: &Email, now: i64) -> (r: Result<Claims, GenerateTokenError>)
    ensures
        claims_made_at(email@, now, r),
{
    let exp = match now.checked_add(TOKEN_TTL_SECONDS) {
        Some(exp) => exp,
        None => return Err(GenerateTokenError::UnexpectedError),
    };
    if exp < 0 || exp as u64 > usize::MAX as u64 {
        return Err(GenerateTokenError::UnexpectedError);
    }
    Ok(Claims { sub: String::from_str(email.as_str()), exp: exp as usize })
}

/// The claims of a token for `email` issued now: what `claims_at` gives for
/// the clock's reading. What the clock reads is not known, so the result is
/// stated for some reading: claims about `email` expiring
/// `TOKEN_TTL_SECONDS` after it, or `UnexpectedError` for a reading whose
/// expiry is not representable.
pub fn token_claims(email: &Email) -> (r: Result<Claims, GenerateTokenError>)
    ensures
        exists|now: i64| #[trigger] claims_made_at(email@, now, r),
{
    let now = current_unix_time();
    let r = claims_at(email, now);
    assert(claims_made_at(email@, now, r));
    r
}

/// The `SameSite` attribute of a cookie.
#[derive(Debug, Clone, Copy, PartialEq, Eq, Structural)]
pub enum SameSite {
    Strict,
    Lax,
    /// `SameSite=None`: sent with cross-site requests too.
    Unrestricted,
}

/// A cookie as the service sets it.
#[derive(Debug, Clone, PartialEq)]
pub struct AuthCookie {
    pub name: String,
    pub value: String,
    pub path: String,
    pub http_only: bool,
    pub same_site: SameSite,
}

/// The cookie that carries `token`: named `jwt`, for every path, hidden
/// from scripts, and sent with same-site requests and top-level
/// navigations.
pub fn create_auth_cookie(token: String) -> (r: AuthCookie)
    ensures
        r.name@ == JWT_COOKIE_NAME@,
        r.value == token,
        r.path@ == "/"@,
        r.http_only,
        r.same_site == SameSite::Lax,
{
    AuthCookie {
        name: String::from_str(JWT_COOKIE_NAME),
        value: token,
        path: String::from_str("/"),
        http_only: true,
        same_site: SameSite::Lax,
    }
}

#[verifier::external_type_specification]
#[verifier::external_body]
pub struct ExJwtError(jsonwebtoken::errors::Error);

/// The HS256 JSON Web Token `jsonwebtoken::encode` writes for the claims
/// `{"exp": exp, "sub": sub}` with the default header and the key `secret`.
pub uninterp spec fn jwt_hs256(sub: Seq<char>, exp: usize, secret: Seq<char>) -> Seq<char>;

/// The subject and expiry of `token` when it is an HS256 JSON Web Token
/// whose signature verifies under `secret` and whose claims hold a string
/// `sub` and an `exp` that fits a `usize`; `None` otherwise. Expiry against
/// the clock is not part of it.
pub uninterp spec fn jwt_hs256_claims(token: Seq<char>, secret: Seq<char>) -> Option<(Seq<char>, usize)>;

/// `jsonwebtoken::encode` with the default header (HS256) and
/// `EncodingKey::from_secret(secret)`, on a JSON object with the members
/// `sub` and `exp`. An HMAC key fits the HS256 header and the object always
/// serialises, so it succeeds; the token is the one `jwt_hs256` names, and
/// its signature verifies under the same secret with the same claims.
#[verifier::external_body]
fn sign_token(sub: &str, exp: usize, secret: &str) -> (r: Result<String, jsonwebtoken::errors::Error>)
    ensures
        r is Ok,
        r matches Ok(t) ==> t@ == jwt_hs256(sub@, exp, secret@) && jwt_hs256_claims(t@, secret@)
            == Some((sub@, exp)),
{
    let mut claims = serde_json::Map::new();
    claims.insert("sub".to_string(), serde_json::Value::from(sub));
    claims.insert("exp".to_string(), serde_json::Value::from(exp));
    jsonwebtoken::encode(
        &jsonwebtoken::Header::default(),
        &claims,
        &jsonwebtoken::EncodingKey::from_secret(secret.as_bytes()),
    )
}

/// `jsonwebtoken::decode` with `DecodingKey::from_secret(secret)` and
/// `Validation::default()` (HS256, `exp` required and not past, with the
/// default leeway), reading `sub` and `exp` from the claims. Whether the
/// expiry has passed depends on the clock, so the answer is tied to the
/// token and secret only as far as they decide it: claims come only from a
/// token whose signature verifies and whose claims are those, and a token
/// that does not verify gives none.
#[verifier::external_body]
fn decode_token(token: &str, secret: &str) -> (r: Option<Claims>)
    ensures
        r matches Some(c) ==> jwt_hs256_claims(token@, secret@) == Some((c.subject(), c.expiry())),
        jwt_hs256_claims(token@, secret@) is None ==> r is None,
{
    let data = jsonwebtoken::decode::<serde_json::Map<String, serde_json::Value>>(
        token,
        &jsonwebtoken::DecodingKey::from_secret(secret.as_bytes()),
        &jsonwebtoken::Validation::default(),
    ).ok()?;
    let sub = data.claims.get("sub")?.as_str()?.to_string();
    let exp = usize::try_from(data.claims.get("exp")?.as_u64()?).ok()?;
    Some(Claims { sub, exp })
}

/// Whether `decoded` is what decoding `token` with `secret` may give: claims
/// that the token's verified signature carries, or nothing; nothing when
/// the token does not verify.
pub open spec fn decoded_by(token: Seq<char>, secret: Seq<char>, decoded: Option<Claims>) -> bool {
    &&& decoded matches Some(c) ==> jwt_hs256_claims(token, secret) == Some(
        (c.subject(), c.expiry()),
    )
    &&& jwt_hs256_claims(token, secret) is None ==> decoded is None
}

/// Whether `decoded` is what decoding the token in `cookie` may give (and
/// nothing when there is no cookie).
pub open spec fn decoded_from_cookie(
    cookie: Option<String>,
    secret: Seq<char>,
    decoded: Option<Claims>,
) -> bool {
    match cookie {
        Some(token) => decoded_by(token@, secret, decoded),
        None => decoded is None,
    }
}

/// The signed token carrying `claims`, under `secret`. Signing does not
/// fail.
pub fn create_token(claims: &Claims, secret: &str) -> (r: Result<String, GenerateTokenError>)
    ensures
        r matches Ok(t) && t@ == jwt_hs256(claims.subject(), claims.expiry(), secret@)
            && jwt_hs256_claims(t@, secret@) == Some((claims.subject(), claims.expiry())),
{
    match sign_token(claims.sub.as_str(), claims.exp, secret) {
        Ok(token) => Ok(token),
        Err(_) => Err(GenerateTokenError::TokenError),
    }
}

/// Whether `r` is what making the token of `email` issued at `now` under
/// `secret` gives: the token of the claims `claims_at` makes, or
/// `UnexpectedError` when their expiry is not representable.
pub open spec fn token_made_at(
    email: Seq<char>,
    now: i64,
    secret: Seq<char>,
    r: Result<String, GenerateTokenError>,
) -> bool {
    match expiry_for(now) {
        Some(exp) => r matches Ok(t) && t@ == jwt_hs256(email, exp, secret) && jwt_hs256_claims(
            t@,
            secret,
        ) == Some((email, exp)),
        None => r == Err::<String, GenerateTokenError>(GenerateTokenError::UnexpectedError),
    }
}

/// The session token of `email` issued at `now`, signed with `secret`.
pub fn generate_auth_token_at(email: &Email, now: i64, secret: &str) -> (r: Result<
    String,
    GenerateTokenError,
>)
    ensures
        token_made_at(email@, now, secret@, r),
{
    match claims_at(email, now) {
        Ok(claims) => create_token(&claims, secret),
        Err(e) => Err(e),
    }
}

/// The session token of `email` issued now, signed with `secret`: what
/// `generate_auth_token_at` gives for the clock's reading.
pub fn generate_auth_token(email: &Email, secret: &str) -> (r: Result<String, GenerateTokenError>)
    ensures
        exists|now: i64| #[trigger] token_made_at(email@, now, secret@, r),
{
    let now = current_unix_time();
    let r = generate_auth_token_at(email, now, secret);
    assert(token_made_at(email@, now, secret@, r));
    r
}

/// Whether `r` is what making the session cookie of `email` issued at
/// `now` under `secret` gives: the cookie carrying the token
/// `token_made_at` describes, or that token's error.
pub open spec fn cookie_made_at(
    email: Seq<char>,
    now: i64,
    secret: Seq<char>,
    r: Result<AuthCookie, GenerateTokenError>,
) -> bool {
    match expiry_for(now) {
        Some(exp) => r matches Ok(c) && c.value@ == jwt_hs256(email, exp, secret) && c.name@
            == JWT_COOKIE_NAME@ && c.path@ == "/"@ && c.http_only && c.same_site == SameSite::Lax,
        None => r == Err::<AuthCookie, GenerateTokenError>(GenerateTokenError::UnexpectedError),
    }
}

/// The session cookie of `email`: the cookie `create_auth_cookie` makes for
/// the token signed with `secret` for the clock's reading.
pub fn generate_auth_cookie(email: &Email, secret: &str) -> (r: Result<AuthCookie, GenerateTokenError>)
    ensures
        exists|now: i64| #[trigger] cookie_made_at(email@, now, secret@, r),
{
    let now = current_unix_time();
    let token = generate_auth_token_at(email, now, secret);
    let r = match token {
        Ok(t) => Ok(create_auth_cookie(t)),
        Err(e) => Err(e),
    };
    assert(cookie_made_at(email@, now, secret@, r));
    r
}

/// Why a token was not accepted.
#[derive(Debug, Clone, Copy, PartialEq, Eq, Structural)]
pub enum TokenRejection {
    /// The token has been banned.
    Banned,
    /// The banned-token store could not answer.
    StoreFailure,
    /// The token could not be decoded and checked.
    Undecodable,
}

/// What `validate_token` answers for `token`, given whether the store holds
/// it banned (`None` when the store fails) and what decoding it gave.
pub open spec fn token_verdict(banned: Option<bool>, decoded: Option<Claims>) -> Result<
    Claims,
    TokenRejection,
> {
    match banned {
        None => Err(TokenRejection::StoreFailure),
        Some(true) => Err(TokenRejection::Banned),
        Some(false) => match decoded {
            Some(c) => Ok(c),
            None => Err(TokenRejection::Undecodable),
        },
    }
}

/// What `validate_token` answers once the store was asked whether the token
/// is banned (`answer`) and decoding gave `decoded`.
pub fn token_verdict_for(answer: Result<bool, BannedTokenStoreError>, decoded: Option<Claims>) -> (r:
    Result<Claims, TokenRejection>)
    ensures
        r == token_verdict(
            match answer {
                Ok(b) => Some(b),
                Err(_) => None,
            },
            decoded,
        ),
{
    match answer {
        Ok(true) => Err(TokenRejection::Banned),
        Ok(false) => match decoded {
            Some(c) => Ok(c),
            None => Err(TokenRejection::Undecodable),
        },
        Err(_) => Err(TokenRejection::StoreFailure),
    }
}

/// Accepts `token` when the store does not hold it banned and it decoded
/// to `decoded` (the signature and expiry having been checked where it was
/// decoded). A banned token, a store failure or a token that did not decode
/// is refused. A store with a model answers from its banned set.
pub fn validate_decoded_token<B: BannedTokenStore + ?Sized>(
    token: &str,
    banned_token_store: &B,
    decoded: Option<Claims>,
) -> (r: Result<Claims, TokenRejection>)
    ensures
        r matches Ok(c) ==> decoded == Some(c),
        decoded is None ==> r is Err,
        banned_token_store.keeps_model() ==> r == token_verdict(
            Some(banned_token_store.banned().contains(token@)),
            decoded,
        ),
{
    let answer = banned_token_store.is_token_banned(token);
    token_verdict_for(answer, decoded)
}

/// What checking a request's token does to the banned set of a store with a
/// model: `before` is the set beforehand, `after` afterwards. No cookie
/// gives `MissingToken`; a banned token or one that did not decode gives
/// `InvalidToken`; otherwise the token is banned and the check passes.
pub open spec fn token_check_post(
    before: Set<Seq<char>>,
    after: Set<Seq<char>>,
    cookie: Option<String>,
    decoded: Option<Claims>,
    r: Result<(), AuthAPIError>,
) -> bool {
    match cookie {
        None => r == Err::<(), AuthAPIError>(AuthAPIError::MissingToken) && after == before,
        Some(token) => if before.contains(token@) || decoded is None {
            r == Err::<(), AuthAPIError>(AuthAPIError::InvalidToken) && after == before
        } else {
            r is Ok && after == before.insert(token@)
        },
    }
}

/// The answer once an accepted token was handed to the store to be banned
/// (`banned`): success, or `InternalServerError` when banning failed.
pub fn ban_outcome(banned: Result<(), BannedTokenStoreError>) -> (r: Result<(), AuthAPIError>)
    ensures
        r == match banned {
            Ok(()) => Ok::<(), AuthAPIError>(()),
            Err(_) => Err::<(), AuthAPIError>(AuthAPIError::InternalServerError),
        },
{
    match banned {
        Ok(()) => Ok(()),
        Err(_) => Err(AuthAPIError::InternalServerError),
    }
}

/// Checks the token a request carries in `cookie`, which decoded to
/// `decoded`, and, if it is accepted, bans it so that it cannot be used
/// again. No cookie gives `MissingToken`; a token that is banned, did not
/// decode, or could not be checked gives `InvalidToken` and leaves the store
/// untouched; a failure to ban it gives `InternalServerError`.
pub fn check_decoded_token<B: BannedTokenStore + ?Sized>(
    banned_token_store: &mut B,
    cookie: Option<String>,
    decoded: Option<Claims>,
) -> (r: Result<(), AuthAPIError>)
    ensures
        r == Err::<(), AuthAPIError>(AuthAPIError::MissingToken) <==> cookie is None,
        cookie is None ==> &*final(banned_token_store) == &*old(banned_token_store),
        cookie is Some && decoded is None ==> r == Err::<(), AuthAPIError>(
            AuthAPIError::InvalidToken,
        ),
        r == Err::<(), AuthAPIError>(AuthAPIError::InvalidToken) ==> &*final(banned_token_store)
            == &*old(banned_token_store),
        r is Err ==> r == Err::<(), AuthAPIError>(AuthAPIError::MissingToken) || r == Err::<
            (),
            AuthAPIError,
        >(AuthAPIError::InvalidToken) || r == Err::<(), AuthAPIError>(
            AuthAPIError::InternalServerError,
        ),
        old(banned_token_store).keeps_model() ==> token_check_post(
            old(banned_token_store).banned(),
            final(banned_token_store).banned(),
            cookie,
            decoded,
            r,
        ),
{
    let token = match cookie {
        Some(token) => token,
        None => return Err(AuthAPIError::MissingToken),
    };
    match validate_decoded_token(token.as_str(), &*banned_token_store, decoded) {
        Ok(_) => {},
        Err(_) => return Err(AuthAPIError::InvalidToken),
    }
    let banned = banned_token_store.ban_token(token);
    ban_outcome(banned)
}

/// Accepts `token` when it is an unexpired HS256 token signed with `secret`
/// and the store does not hold it banned: `validate_decoded_token` on what
/// decoding it gives. A store with a model answers from its banned set.
pub fn validate_token<B: BannedTokenStore + ?Sized>(
    token: &str,
    banned_token_store: &B,
    secret: &str,
) -> (r: Result<Claims, TokenRejection>)
    ensures
        r matches Ok(c) ==> jwt_hs256_claims(token@, secret@) == Some((c.subject(), c.expiry())),
        jwt_hs256_claims(token@, secret@) is None ==> r is Err,
        exists|decoded: Option<Claims>|
            #[trigger] decoded_by(token@, secret@, decoded) && (banned_token_store.keeps_model()
                ==> r == token_verdict(
                Some(banned_token_store.banned().contains(token@)),
                decoded,
            )),
{
    let decoded = decode_token(token, secret);
    let r = validate_decoded_token(token, banned_token_store, decoded);
    assert(decoded_by(token@, secret@, decoded));
    r
}

/// Checks the token a request carries in `cookie` against `secret` and the
/// store and, if it is accepted, bans it so that it cannot be used again:
/// `check_decoded_token` on what decoding the token gives. No cookie gives
/// `MissingToken`; a token that is banned, does not verify, has expired or
/// could not be checked gives `InvalidToken` and leaves the store
/// untouched; a failure to ban it gives `InternalServerError`.
pub fn check_for_token_validity<B: BannedTokenStore + ?Sized>(
    banned_token_store: &mut B,
    cookie: Option<String>,
    secret: &str,
) -> (r: Result<(), AuthAPIError>)
    ensures
        r == Err::<(), AuthAPIError>(AuthAPIError::MissingToken) <==> cookie is None,
        cookie is None ==> &*final(banned_token_store) == &*old(banned_token_store),
        cookie matches Some(t) && jwt_hs256_claims(t@, secret@) is None ==> r == Err::<
            (),
            AuthAPIError,
        >(AuthAPIError::InvalidToken),
        r == Err::<(), AuthAPIError>(AuthAPIError::InvalidToken) ==> &*final(banned_token_store)
            == &*old(banned_token_store),
        r is Err ==> r == Err::<(), AuthAPIError>(AuthAPIError::MissingToken) || r == Err::<
            (),
            AuthAPIError,
        >(AuthAPIError::InvalidToken) || r == Err::<(), AuthAPIError>(
            AuthAPIError::InternalServerError,
        ),
        old(banned_token_store).keeps_model() ==> exists|decoded: Option<Claims>|
            #[trigger] decoded_from_cookie(cookie, secret@, decoded) && token_check_post(
                old(banned_token_store).banned(),
                final(banned_token_store).banned(),
                cookie,
                decoded,
                r,
            ),
{
    let ghost given = cookie;
    let decoded = match &cookie {
        Some(token) => decode_token(token.as_str(), secret),
        None => None,
    };
    assert(decoded_from_cookie(given, secret@, decoded));
    check_decoded_token(banned_token_store, cookie, decoded)
}

/// A token that passed a check is banned by it: checking it again is
/// refused with `InvalidToken`.
pub proof fn law_checked_token_is_spent(
    first: Set<Seq<char>>,
    second: Set<Seq<char>>,
    third: Set<Seq<char>>,
    token: String,
    decoded: Option<Claims>,
    decoded_again: Option<Claims>,
    r1: Result<(), AuthAPIError>,
    r2: Result<(), AuthAPIError>,
)
    requires
        token_check_post(first, second, Some(token), decoded, r1),
        r1 is Ok,
        token_check_post(second, third, Some(token), decoded_again, r2),
    ensures
        second.contains(token@),
        r2 == Err::<(), AuthAPIError>(AuthAPIError::InvalidToken),
        third == second,
{
}

} // verus!
