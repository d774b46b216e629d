//! The service's routes, as decisions over the stores. Reading requests,
//! signing tokens and writing responses happen around them.

pub mod login;
pub mod logout;
pub mod signup;
pub mod verify_2fa;
pub mod verify_token;
