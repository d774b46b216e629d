//! An authentication service: user sign-up, log-in with optional two-factor
//! codes, token checks and log-out, with the stores that back them.

pub mod domain;
pub mod pattern;
pub mod routes;
pub mod services;
pub mod text;
pub mod utils;

use domain::error::{error_status, error_text};
use domain::AuthAPIError;
use vstd::prelude::*;

verus! {

/// The body of a refusal.
#[derive(Debug, Clone, PartialEq)]
pub struct ErrorResponse {
    pub error: String,
}

/// The status and body a refusal is answered with.
pub fn error_response(e: AuthAPIError) -> (r: (u16, ErrorResponse))
    ensures
        r.0 == error_status(e),
        r.1.error@ == error_text(e),
{
    (e.status_code(), ErrorResponse { error: e.message() })
}

} // verus!
