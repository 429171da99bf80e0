//! The keys, lifetimes and values that the durable stores use, and what a
//! backend's answer means. The calls to the backends are not made here.

pub mod postgres_user_store;
pub mod redis_banned_token_store;
pub mod redis_two_fa_code_store;
