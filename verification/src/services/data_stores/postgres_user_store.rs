//! The decisions of a user store kept in PostgreSQL: what a row of the
//! `users` table reads as, what row a new user gets (the password hashed
//! with Argon2id), and how a password is checked against a stored hash. The
//! queries themselves are made outside the library.

use crate::domain::email::email_accepts;
use crate::domain::password::hash_is_long_enough;
use crate::domain::{Email, Password, User, UserStoreError};
use crate::text::trim;
use vstd::prelude::*;

verus! {

/// Argon2 memory cost, in KiB, of a newly stored hash.
pub const ARGON2_MEMORY_KIB: u32 = 15000;

/// Argon2 number of passes of a newly stored hash.
pub const ARGON2_PASSES: u32 = 2;

/// Argon2 degree of parallelism of a newly stored hash.
pub const ARGON2_LANES: u32 = 1;

/// A row of the `users` table.
#[derive(Debug, Clone)]
pub struct UserRow {
    pub email: String,
    pub password_hash: String,
    pub requires_2fa: bool,
}

/// Whether the PHC string `hash` parses as an Argon2 hash and `candidate`
/// hashes to it under the algorithm, version, parameters and salt it names.
pub uninterp spec fn argon2_verifies(hash: Seq<char>, candidate: Seq<char>) -> bool;

/// `argon2::PasswordHash::new(expected_hash)`, then
/// `Argon2::default().verify_password(candidate, ..)`. The contract claims
/// that the answer is `argon2_verifies` of the two texts: a hash that does
/// not parse verifies nothing.
#[verifier::external_body]
fn verify_password_hash(expected_hash: &str, candidate: &str) -> (r: bool)
    ensures
        r == argon2_verifies(expected_hash@, candidate@),
{
    match argon2::PasswordHash::new(expected_hash) {
        Ok(hash) => argon2::PasswordVerifier::verify_password(
            &argon2::Argon2::default(),
            candidate.as_bytes(),
            &hash,
        ).is_ok(),
        Err(_) => false,
    }
}

/// The character of a decimal digit `d` (below ten).
pub open spec fn digit_char(d: nat) -> char {
    (d + 48) as char
}

/// The decimal text of `n`, without leading zeros.
pub open spec fn decimal_text(n: nat) -> Seq<char>
    decreases n,
{
    if n < 10 {
        seq![digit_char(n)]
    } else {
        decimal_text(n / 10) + seq![digit_char(n % 10)]
    }
}

/// The start of an Argon2id (version 0x13) PHC string made with memory
/// `memory_kib`, `passes` passes and `lanes` lanes:
/// `$argon2id$v=19$m=<memory_kib>,t=<passes>,p=<lanes>$`, followed in the
/// string by the salt, `$` and the hash.
pub open spec fn argon2id_prefix(memory_kib: u32, passes: u32, lanes: u32) -> Seq<char> {
    "$argon2id$v=19$m="@ + decimal_text(memory_kib as nat) + ",t="@ + decimal_text(passes as nat)
        + ",p="@ + decimal_text(lanes as nat) + "$"@
}

/// Whether `text` starts with `prefix`.
pub open spec fn starts_with(text: Seq<char>, prefix: Seq<char>) -> bool {
    prefix.len() <= text.len() && text.subrange(0, prefix.len() as int) == prefix
}

/// The costs `argon2::Params::new` accepts: memory of at least eight KiB
/// per lane, at least one pass, and between one and `0xFFFFFF` lanes.
pub open spec fn argon2_cost_valid(memory_kib: u32, passes: u32, lanes: u32) -> bool {
    &&& 1 <= passes
    &&& 1 <= lanes <= 0xFFFFFF
    &&& 8 * lanes <= memory_kib
}

/// `argon2::Argon2::new(Argon2id, V0x13, Params::new(memory_kib, passes,
/// lanes, None))` hashing `password` with a salt from
/// `SaltString::generate(&mut rand::thread_rng())`, as a PHC string. The
/// salt is random, so the text is not determined. The contract claims what
/// holds of every outcome: the text starts with
/// `argon2id_prefix` of the costs (the PHC form `PasswordHash` writes), the
/// hash verifies `password` (the verifier reads algorithm, version, costs
/// and salt back from the text and recomputes), and for costs
/// `Params::new` accepts and a password within the crate's length limit
/// (`0xFFFFFFFF` bytes, which four bytes per character keep) a hash is made.
/// `None` when the costs are refused or hashing fails. More than `0xFFFFFF`
/// lanes is left out: `Params::new` computes eight times the lanes.
#[verifier::external_body]
fn compute_password_hash(password: &str, memory_kib: u32, passes: u32, lanes: u32) -> (r: Option<
    String,
>)
    requires
        lanes <= 0xFFFFFF,
    ensures
        r matches Some(h) ==> argon2_verifies(h@, password@),
        r matches Some(h) ==> starts_with(h@, argon2id_prefix(memory_kib, passes, lanes)),
        argon2_cost_valid(memory_kib, passes, lanes) && password@.len() <= 0x3FFF_FFFF ==> r is Some,
{
    let params = argon2::Params::new(memory_kib, passes, lanes, None).ok()?;
    let salt = argon2::password_hash::SaltString::generate(&mut rand::thread_rng());
    let hasher = argon2::Argon2::new(argon2::Algorithm::Argon2id, argon2::Version::V0x13, params);
    let hash = argon2::PasswordHasher::hash_password(&hasher, password.as_bytes(), &salt).ok()?;
    Some(hash.to_string())
}

/// What checking a password against a stored hash answers.
pub open spec fn password_check(stored_hash: Seq<char>, candidate: Seq<char>) -> Result<
    bool,
    UserStoreError,
> {
    if argon2_verifies(stored_hash, candidate) {
        Ok(true)
    } else {
        Err(UserStoreError::InvalidCredentials)
    }
}

/// The answer to a credentials check once the hash was checked:
/// `Ok(true)` when it verified, `InvalidCredentials` otherwise.
pub fn credentials_outcome(hash_verifies: bool) -> (r: Result<bool, UserStoreError>)
    ensures
        r == (if hash_verifies {
            Ok::<bool, UserStoreError>(true)
        } else {
            Err::<bool, UserStoreError>(UserStoreError::InvalidCredentials)
        }),
{
    if hash_verifies {
        Ok(true)
    } else {
        Err(UserStoreError::InvalidCredentials)
    }
}

/// Checks `password` against the hash stored for `stored`.
pub fn check_password(stored: &User, password: &Password) -> (r: Result<bool, UserStoreError>)
    ensures
        r == password_check(stored.password@, password@),
{
    credentials_outcome(verify_password_hash(stored.password.as_str(), password.as_str()))
}

/// What a row read back for an address gives: no row is `UserNotFound`; a
/// row whose address does not parse, or whose hash is too short to be one,
/// is `UnexpectedError`; otherwise the user the row describes, with the
/// address trimmed.
pub fn user_from_row(row: Option<UserRow>) -> (r: Result<User, UserStoreError>)
    ensures
        match row {
            None => r == Err::<User, UserStoreError>(UserStoreError::UserNotFound),
            Some(row) => if email_accepts(row.email@) && hash_is_long_enough(row.password_hash@) {
                r matches Ok(u) && u.email@ == trim(row.email@) && u.password@
                    == row.password_hash@ && u.requires_2fa == row.requires_2fa
            } else {
                r == Err::<User, UserStoreError>(UserStoreError::UnexpectedError)
            },
        },
{
    let row = match row {
        Some(row) => row,
        None => return Err(UserStoreError::UserNotFound),
    };
    let email = match Email::parse(row.email) {
        Ok(email) => email,
        Err(_) => return Err(UserStoreError::UnexpectedError),
    };
    let password = match Password::hashed(row.password_hash) {
        Ok(password) => password,
        Err(_) => return Err(UserStoreError::UnexpectedError),
    };
    Ok(
        User {
            email: email.into_string(),
            password: String::from_str(password.as_str()),
            requires_2fa: row.requires_2fa,
        },
    )
}

/// The row for a new user once the password was hashed (`hash`; `None`
/// when hashing failed, which is `UnexpectedError`).
pub fn row_with_hash(user: &User, hash: Option<String>) -> (r: Result<UserRow, UserStoreError>)
    ensures
        match hash {
            Some(h) => r matches Ok(row) && row.email@ == user.email@ && row.password_hash@ == h@
                && row.requires_2fa == user.requires_2fa,
            None => r == Err::<UserRow, UserStoreError>(UserStoreError::UnexpectedError),
        },
{
    match hash {
        Some(h) => Ok(
            UserRow { email: user.email.clone(), password_hash: h, requires_2fa: user.requires_2fa },
        ),
        None => Err(UserStoreError::UnexpectedError),
    }
}

/// The row to insert for `user`: an address that already has a row
/// (`already_registered`) is refused with `UserAlreadyExists`; otherwise the
/// password is hashed with Argon2id at the configured costs, and the row
/// carries the address, the hash and the second-factor setting. The stored
/// hash accepts the user's password. For a new address the row is made
/// whenever the password is within the hasher's length limit.
pub fn new_user_row(user: &User, already_registered: bool) -> (r: Result<UserRow, UserStoreError>)
    ensures
        already_registered ==> r == Err::<UserRow, UserStoreError>(
            UserStoreError::UserAlreadyExists,
        ),
        !already_registered ==> (r is Err ==> r == Err::<UserRow, UserStoreError>(
            UserStoreError::UnexpectedError,
        )),
        !already_registered && user.password@.len() <= 0x3FFF_FFFF ==> r is Ok,
        r matches Ok(row) ==> {
            &&& row.email@ == user.email@
            &&& row.requires_2fa == user.requires_2fa
            &&& starts_with(
                row.password_hash@,
                argon2id_prefix(ARGON2_MEMORY_KIB, ARGON2_PASSES, ARGON2_LANES),
            )
            &&& password_check(row.password_hash@, user.password@) == Ok::<bool, UserStoreError>(
                true,
            )
        },
{
    if already_registered {
        return Err(UserStoreError::UserAlreadyExists);
    }
    let hash = compute_password_hash(
        user.password.as_str(),
        ARGON2_MEMORY_KIB,
        ARGON2_PASSES,
        ARGON2_LANES,
    );
    row_with_hash(user, hash)
}

} // verus!
