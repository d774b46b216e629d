//! Tokens, cookies and configuration.

pub mod auth;
pub mod constants;
