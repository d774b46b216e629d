//! The stores' interfaces and the values they hold.

pub mod banned_token_store;
pub mod two_fa_store;
pub mod user_store;

pub use banned_token_store::{BannedTokenStore, BannedTokenStoreError};
pub use two_fa_store::{LoginAttemptId, TwoFACode, TwoFACodeStore, TwoFACodeStoreError};
pub use user_store::{UserStore, UserStoreError};
