//! E-mail addresses.

use crate::pattern::{match_verdict, test_pattern};
use crate::text::{join, trim, trimmed, lemma_trim_idempotent};
use vstd::prelude::*;

verus! {

/// The shape an e-mail address must have: word characters, dots or dashes,
/// an `@`, more of them, a dot and a final run of word characters.
pub const EMAIL_PATTERN: &'static str = r"^[\w\.-]+@[\w\.-]+\.\w+$";

/// Whether `text` (already trimmed) is an acceptable address.
pub open spec fn email_text_accepted(text: Seq<char>) -> bool {
    match_verdict(EMAIL_PATTERN@, text) == Some(true)
}

/// Whether `Email::parse` accepts `address`: its trimmed form matches the
/// address pattern.
pub open spec fn email_accepts(address: Seq<char>) -> bool {
    email_text_accepted(trim(address))
}

/// A validated e-mail address, held without surrounding white space.
#[derive(Debug)]
pub struct Email(String);

impl View for Email {
    type V = Seq<char>;

    closed spec fn view(&self) -> Seq<char> {
        self.0@
    }
}

impl Email {
    /// An address is trimmed and matches the address pattern.
    #[verifier::type_invariant]
    pub open spec fn well_formed(self) -> bool {
        &&& trim(self@) == self@
        &&& email_text_accepted(self@)
    }

    /// Parses an address: surrounding white space is dropped, and the rest
    /// must match `EMAIL_PATTERN`. A rejected address gives the message
    /// `Invalid email format: ` followed by the trimmed text.
    pub fn parse(address: String) -> (r: Result<Email, String>)
        ensures
            match r {
                Ok(email) => email_accepts(address@) && email@ == trim(address@),
                Err(message) => !email_accepts(address@) && message@ == "Invalid email format: "@
                    + trim(address@),
            },
    {
        let raw = address;
        let address = trimmed(raw.as_str());
        proof {
            lemma_trim_idempotent(raw@);
        }
        match test_pattern(EMAIL_PATTERN, address.as_str()) {
            Some(true) => {
                Ok(Email(address))
            },
            _ => Err(join("Invalid email format: ", address.as_str())),
        }
    }

    /// The address as an owned `String`.
    pub fn into_string(self) -> (r: String)
        ensures
            r@ == self@,
    {
        self.0
    }

    /// The address as text.
    pub fn as_str(&self) -> (r: &str)
        ensures
            r@ == self@,
    {
        self.0.as_str()
    }
}

impl Clone for Email {
    fn clone(&self) -> (r: Self)
        ensures
            r@ == self@,
    {
        proof {
            use_type_invariant(self);
        }
        Email(self.0.clone())
    }
}

impl PartialEq for Email {
    fn eq(&self, other: &Self) -> (r: bool) {
        self.0 == other.0
    }
}

impl vstd::std_specs::cmp::PartialEqSpecImpl for Email {
    open spec fn obeys_eq_spec() -> bool {
        true
    }

    open spec fn eq_spec(&self, other: &Self) -> bool {
        self@ == other@
    }
}

impl Eq for Email {}

} // verus!
