use vstd::prelude::*;

verus! {

/// The outcomes, other than success, that a request can have.
#[derive(Debug, Clone, Copy, PartialEq, Eq, Structural)]
pub enum AuthAPIError {
    /// An account with this address is registered already.
    UserAlreadyExists,
    /// The request's fields are malformed.
    InvalidCredentials,
    /// The fields are well formed and wrong: no such account, a wrong
    /// password, no pending challenge or a wrong code.
    IncorrectCredentials,
    /// No session token came with the request.
    MissingToken,
    /// The session token is forged, expired or revoked.
    InvalidToken,
    /// A store or the hasher failed.
    UnexpectedError,
}

impl AuthAPIError {
    /// The HTTP status that stands for this outcome.
    pub open spec fn spec_status_code(self) -> u16 {
        match self {
            AuthAPIError::UserAlreadyExists => 409,
            AuthAPIError::InvalidCredentials => 400,
            AuthAPIError::IncorrectCredentials => 401,
            AuthAPIError::MissingToken => 400,
            AuthAPIError::InvalidToken => 401,
            AuthAPIError::UnexpectedError => 500,
        }
    }

    /// The text shown to the client for this outcome.
    pub open spec fn spec_message(self) -> Seq<char> {
        match self {
            AuthAPIError::UserAlreadyExists => "User already exists"@,
            AuthAPIError::InvalidCredentials => "Invalid credentials"@,
            AuthAPIError::IncorrectCredentials => "Unauthorized"@,
            AuthAPIError::MissingToken => "Missing auth token"@,
            AuthAPIError::InvalidToken => "Unauthorized"@,
            AuthAPIError::UnexpectedError => "Unexpected error"@,
        }
    }

    #[verifier::when_used_as_spec(spec_status_code)]
    pub fn status_code(self) -> (code: u16)
        ensures
            code == self.spec_status_code(),
    {
        match self {
            AuthAPIError::UserAlreadyExists => 409,
            AuthAPIError::InvalidCredentials => 400,
            AuthAPIError::IncorrectCredentials => 401,
            AuthAPIError::MissingToken => 400,
            AuthAPIError::InvalidToken => 401,
            AuthAPIError::UnexpectedError => 500,
        }
    }

    pub fn message(self) -> (text: &'static str)
        ensures
            text@ == self.spec_message(),
    {
        match self {
            AuthAPIError::UserAlreadyExists => "User already exists",
            AuthAPIError::InvalidCredentials => "Invalid credentials",
            AuthAPIError::IncorrectCredentials => "Unauthorized",
            AuthAPIError::MissingToken => "Missing auth token",
            AuthAPIError::InvalidToken => "Unauthorized",
            AuthAPIError::UnexpectedError => "Unexpected error",
        }
    }
}

} // verus!
