use crate::domain::data_stores::BannedTokenStore;
use crate::domain::error::AuthAPIError;
use crate::utils::auth::token_stands;
use crate::utils::auth::validate_token;
use crate::utils::auth::Claims;
use vstd::prelude::*;

verus! {

pub struct VerifyTokenRequest {
    pub token: String,
}

/// What `verify_token` returns and when, on a store that holds `banned` and
/// is `reliable` or not. `UnexpectedError` is the one outcome that the inputs
/// do not decide: it reports a failing store, so a reliable one never gives
/// it.
pub open spec fn verify_token_ensures(
    reliable: bool,
    banned: Set<Seq<char>>,
    token: Seq<char>,
    claims: Option<Claims>,
    outcome: Result<String, AuthAPIError>,
) -> bool {
    match outcome {
        Ok(subject) => token_stands(banned, token, claims) && subject == claims->0.sub,
        Err(AuthAPIError::InvalidToken) => !token_stands(banned, token, claims),
        Err(AuthAPIError::UnexpectedError) => claims is Some && !reliable,
        Err(_) => false,
    }
}

/// Says whom the request's token was issued to, if the token stands.
/// `claims` is what the token codec read in the token, or `None` where the
/// codec rejected it.
pub fn verify_token<B: BannedTokenStore>(
    banned_token_store: &B,
    request: VerifyTokenRequest,
    claims: Option<Claims>,
) -> (outcome: Result<String, AuthAPIError>)
    ensures
        verify_token_ensures(
            banned_token_store.reliable(),
            banned_token_store.banned(),
            request.token@,
            claims,
            outcome,
        ),
{
    match validate_token(banned_token_store, request.token.as_str(), claims) {
        Ok(accepted) => Ok(accepted.sub),
        Err(error) => Err(error),
    }
}

} // verus!
