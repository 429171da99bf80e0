use crate::domain::data_stores::BannedTokenStore;
use crate::domain::data_stores::BannedTokenStoreError;
use crate::domain::error::AuthAPIError;
use vstd::prelude::*;

verus! {

/// How long a session token stays valid, in seconds.
pub const TOKEN_TTL_SECONDS: i64 = 600;

/// What a session token carries: whom it was issued to, and the time, in
/// seconds since the epoch, at which it expires.
#[derive(Debug, PartialEq)]
pub struct Claims {
    pub sub: String,
    pub exp: usize,
}

/// Whether a presented token stands: the codec accepted it and it was not
/// revoked.
pub open spec fn token_stands(
    banned: Set<Seq<char>>,
    token: Seq<char>,
    claims: Option<Claims>,
) -> bool {
    claims is Some && !banned.contains(token)
}

/// What to make of a token that the codec accepted with `claims`, once the
/// revocation store has answered `revoked`.
pub fn token_verdict(claims: Claims, revoked: Result<bool, BannedTokenStoreError>) -> (verdict:
    Result<Claims, AuthAPIError>)
    ensures
        verdict == match revoked {
            Ok(false) => Ok::<Claims, AuthAPIError>(claims),
            Ok(true) => Err(AuthAPIError::InvalidToken),
            Err(_) => Err(AuthAPIError::UnexpectedError),
        },
{
    match revoked {
        Ok(false) => Ok(claims),
        Ok(true) => Err(AuthAPIError::InvalidToken),
        Err(_) => Err(AuthAPIError::UnexpectedError),
    }
}

/// Decides whether `token` stands. `claims` is what the token codec read in
/// `token`, or `None` where the codec rejected it: a bad signature or an
/// expired token. A token that the codec rejected is invalid without the
/// store being asked; one that it accepted is invalid when it was revoked.
/// A failing store is reported as `UnexpectedError`.
pub fn validate_token<B: BannedTokenStore>(
    banned_token_store: &B,
    token: &str,
    claims: Option<Claims>,
) -> (verdict: Result<Claims, AuthAPIError>)
    ensures
        match verdict {
            Ok(accepted) => claims == Some(accepted) && token_stands(
                banned_token_store.banned(),
                token@,
                claims,
            ),
            Err(AuthAPIError::InvalidToken) => !token_stands(
                banned_token_store.banned(),
                token@,
                claims,
            ),
            Err(AuthAPIError::UnexpectedError) => claims is Some,
            Err(_) => false,
        },
        banned_token_store.reliable() ==> !(verdict matches Err(AuthAPIError::UnexpectedError)),
{
    match claims {
        None => Err(AuthAPIError::InvalidToken),
        Some(accepted) => token_verdict(accepted, banned_token_store.contains_token(token)),
    }
}

} // verus!
