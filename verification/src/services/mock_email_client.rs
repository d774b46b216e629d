//! An e-mail client that delivers nothing.

use crate::domain::{Email, EmailClient};
use vstd::prelude::*;

verus! {

/// Accepts every message and delivers none; for development and tests.
#[derive(Debug, Clone, Copy, Default)]
pub struct MockEmailClient;

impl EmailClient for MockEmailClient {
    open spec fn keeps_model(&self) -> bool {
        true
    }

    open spec fn delivers(&self, recipient: Seq<char>, subject: Seq<char>, content: Seq<char>) -> bool {
        true
    }

    /// Always succeeds.
    fn send_email(&self, recipient: &Email, subject: &str, content: &str) -> (r: Result<(), String>)
        ensures
            r is Ok,
    {
        Ok(())
    }
}

} // verus!
