//! The service's domain: e-mail addresses, passwords, users, the errors the
//! routes answer with, and the stores' interfaces.

pub mod data_stores;
pub mod email;
pub mod email_client;
pub mod error;
pub mod password;
pub mod user;

pub use data_stores::{
    BannedTokenStore, BannedTokenStoreError, LoginAttemptId, TwoFACode, TwoFACodeStore,
    TwoFACodeStoreError, UserStore, UserStoreError,
};
pub use email::Email;
pub use email_client::EmailClient;
pub use error::AuthAPIError;
pub use password::Password;
pub use user::User;
