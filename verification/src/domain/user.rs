//! Users.

use crate::text::{trim, trimmed};
use vstd::prelude::*;

verus! {

/// A registered user: an e-mail address, a password, and whether log-in
/// asks for a second factor.
#[derive(Clone, Debug, PartialEq)]
pub struct User {
    pub email: String,
    pub password: String,
    pub requires_2fa: bool,
}

impl User {
    /// A user whose e-mail address and password are stored without
    /// surrounding white space.
    pub fn new(email: String, password: String, requires_2fa: bool) -> (r: User)
        ensures
            r.email@ == trim(email@),
            r.password@ == trim(password@),
            r.requires_2fa == requires_2fa,
    {
        let email = trimmed(email.as_str());
        let password = trimmed(password.as_str());
        User { email, password, requires_2fa }
    }

    /// A user who logs in with a second factor.
    pub fn new_with_2fa(email: String, password: String) -> (r: User)
        ensures
            r.email@ == trim(email@),
            r.password@ == trim(password@),
            r.requires_2fa,
    {
        Self::new(email, password, true)
    }

    /// A user who logs in with the password alone.
    pub fn new_without_2fa(email: String, password: String) -> (r: User)
        ensures
            r.email@ == trim(email@),
            r.password@ == trim(password@),
            !r.requires_2fa,
    {
        Self::new(email, password, false)
    }

    /// A field-by-field copy.
    pub fn duplicate(&self) -> (r: User)
        ensures
            r == *self,
    {
        User {
            email: self.email.clone(),
            password: self.password.clone(),
            requires_2fa: self.requires_2fa,
        }
    }
}

} // verus!
