//! Store implementations.

pub mod data_stores;
pub mod hashmap_two_fa_code_store;
pub mod hashmap_user_store;
pub mod hashset_bannedtoken_store;
pub mod mock_email_client;

pub use hashmap_two_fa_code_store::HashmapTwoFACodeStore;
pub use hashmap_user_store::HashmapUserStore;
pub use hashset_bannedtoken_store::HashsetBannedTokenStore;
pub use mock_email_client::MockEmailClient;
