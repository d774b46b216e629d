//! Passwords.

use crate::pattern::{match_verdict, test_pattern};
use vstd::prelude::*;

verus! {

/// A strong password: no white space anywhere, at least one digit, at least
/// one of `!@#$%^&*`, and at least eight characters.
pub const PASSWORD_PATTERN: &'static str = r"^(?!.*\s)(?=.*[0-9])(?=.*[!@#$%^&*])(?=.{8,})";

/// A stored (hashed) password: at least eight characters.
pub const HASHED_PASSWORD_PATTERN: &'static str = r"^(?=.{8,})";

/// Whether `password` passes the strength rules.
pub open spec fn password_is_strong(password: Seq<char>) -> bool {
    match_verdict(PASSWORD_PATTERN@, password) == Some(true)
}

/// Whether `password` is long enough to be a stored hash.
pub open spec fn hash_is_long_enough(password: Seq<char>) -> bool {
    match_verdict(HASHED_PASSWORD_PATTERN@, password) == Some(true)
}

/// Whether `password` passes the strength rules; a matcher failure counts
/// as a rejection.
pub fn validate_password(password: &str) -> (r: bool)
    ensures
        r == password_is_strong(password@),
{
    match test_pattern(PASSWORD_PATTERN, password) {
        Some(found) => found,
        None => false,
    }
}

/// A password that passed `Password::parse` or `Password::hashed`.
#[derive(Debug)]
pub struct Password(String);

impl View for Password {
    type V = Seq<char>;

    closed spec fn view(&self) -> Seq<char> {
        self.0@
    }
}

/// Why `Password::hashed` refused a text.
#[derive(Debug, Clone, Copy, PartialEq, Eq, Structural)]
pub enum HashedPasswordError {
    /// The matcher could not give an answer.
    PatternFailure,
    /// The text is shorter than a stored hash can be.
    TooShort,
}

impl Password {
    /// A password that passes the strength rules; any other text gives the
    /// message `Failed to parse string to a Passwrord type`.
    pub fn parse(password: String) -> (r: Result<Password, String>)
        ensures
            match r {
                Ok(p) => password_is_strong(password@) && p@ == password@,
                Err(message) => !password_is_strong(password@) && message@
                    == "Failed to parse string to a Passwrord type"@,
            },
    {
        if validate_password(password.as_str()) {
            Ok(Password(password))
        } else {
            Err(String::from_str("Failed to parse string to a Passwrord type"))
        }
    }

    /// A stored password hash read back from a store: it must be at least
    /// eight characters long.
    pub fn hashed(password: String) -> (r: Result<Password, HashedPasswordError>)
        ensures
            match r {
                Ok(p) => hash_is_long_enough(password@) && p@ == password@,
                Err(HashedPasswordError::TooShort) => match_verdict(
                    HASHED_PASSWORD_PATTERN@,
                    password@,
                ) == Some(false),
                Err(HashedPasswordError::PatternFailure) => match_verdict(
                    HASHED_PASSWORD_PATTERN@,
                    password@,
                ) is None,
            },
    {
        match test_pattern(HASHED_PASSWORD_PATTERN, password.as_str()) {
            Some(true) => Ok(Password(password)),
            Some(false) => Err(HashedPasswordError::TooShort),
            None => Err(HashedPasswordError::PatternFailure),
        }
    }

    /// The password as text.
    pub fn as_str(&self) -> (r: &str)
        ensures
            r@ == self@,
    {
        self.0.as_str()
    }
}

impl Clone for Password {
    fn clone(&self) -> (r: Self)
        ensures
            r@ == self@,
    {
        Password(self.0.clone())
    }
}

impl PartialEq for Password {
    fn eq(&self, other: &Self) -> (r: bool) {
        self.0 == other.0
    }
}

impl vstd::std_specs::cmp::PartialEqSpecImpl for Password {
    open spec fn obeys_eq_spec() -> bool {
        true
    }

    open spec fn eq_spec(&self, other: &Self) -> bool {
        self@ == other@
    }
}

} // verus!
