//! The interface of whatever delivers e-mail to users.

use crate::domain::Email;
use vstd::prelude::*;

verus! {

/// Sends e-mail. A client that keeps a model (`keeps_model()`) describes by
/// `delivers` which messages it takes for delivery, and its contract speaks
/// of that; a client implemented outside the library keeps none, and nothing
/// is stated of it.
pub trait EmailClient {
    closed spec fn keeps_model(&self) -> bool {
        false
    }

    /// Whether the client takes a message to `recipient` with `subject` and
    /// `content` for delivery.
    closed spec fn delivers(&self, recipient: Seq<char>, subject: Seq<char>, content: Seq<char>) -> bool {
        false
    }

    /// Sends a message with `subject` and `content` to `recipient`; `Err`
    /// carries a description of a failure.
    fn send_email(&self, recipient: &Email, subject: &str, content: &str) -> (r: Result<(), String>)
        ensures
            self.keeps_model() ==> (r is Ok <==> self.delivers(recipient@, subject@, content@)),
    ;
}

} // verus!
