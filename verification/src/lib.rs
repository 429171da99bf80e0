//! The core of an authentication service: the validated values it works on,
//! the stores of accounts, of revoked tokens and of pending second-factor
//! challenges, and the decisions behind signup, login, second-factor
//! verification, token verification and logout.
//!
//! Nothing here reads a request, signs a token or opens a connection. A flow
//! takes the fields of a request, the stores it needs and, where a session
//! token is involved, what the token codec has read in the token; it returns
//! the outcome and leaves the stores as the outcome says.

pub mod domain;
pub mod routes;
pub mod services;
pub mod utils;
