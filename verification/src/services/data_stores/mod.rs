//! Stores backed by outside services: Redis (the keys and values kept there,
//! and what a value read back means) and PostgreSQL (the rows of the users
//! table and password hashing). Talking to the services happens outside the
//! library.

pub mod postgres_user_store;
pub mod redis_banned_token_store;
pub mod redis_two_fa_code_store;
