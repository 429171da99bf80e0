//! What the flows share about session tokens.

pub mod auth;

pub use auth::validate_token;
pub use auth::Claims;
