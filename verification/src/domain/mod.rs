//! The values and the stores that the flows are written against.

pub mod data_stores;
pub mod email;
pub mod error;
pub mod password;
pub mod user;

pub use data_stores::BannedTokenStore;
pub use data_stores::BannedTokenStoreError;
pub use data_stores::LoginAttemptId;
pub use data_stores::TwoFACode;
pub use data_stores::TwoFACodeStore;
pub use data_stores::TwoFACodeStoreError;
pub use data_stores::UserStore;
pub use data_stores::UserStoreError;
pub use email::Email;
pub use error::AuthAPIError;
pub use password::Password;
pub use user::User;
