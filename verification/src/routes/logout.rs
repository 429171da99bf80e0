use crate::domain::data_stores::BannedTokenStore;
use crate::domain::data_stores::BannedTokenStoreError;
use crate::domain::error::AuthAPIError;
use crate::routes::verify_token::verify_token_ensures;
use crate::utils::auth::token_stands;
use crate::utils::auth::validate_token;
use crate::utils::auth::Claims;
use vstd::prelude::*;

verus! {

/// What `logout` returns and does, and when, on a store that holds `before`
/// and is `reliable` or not. `UnexpectedError` is the one outcome that the
/// inputs do not decide: it reports a failing store, so a reliable one never
/// gives it.
pub open spec fn logout_ensures(
    reliable: bool,
    before: Set<Seq<char>>,
    token: Option<String>,
    claims: Option<Claims>,
    after: Set<Seq<char>>,
    outcome: Result<(), AuthAPIError>,
) -> bool {
    match token {
        None => outcome == Err::<(), AuthAPIError>(AuthAPIError::MissingToken) && after == before,
        Some(presented) => match outcome {
            Ok(()) => token_stands(before, presented@, claims) && after == before.insert(
                presented@,
            ),
            Err(AuthAPIError::InvalidToken) => !token_stands(before, presented@, claims) && after
                == before,
            Err(AuthAPIError::UnexpectedError) => claims is Some && after == before && !reliable,
            Err(_) => false,
        },
    }
}

/// What the revocation store's answer to `add_token` means for the request.
pub fn revocation_verdict(added: Result<(), BannedTokenStoreError>) -> (outcome: Result<
    (),
    AuthAPIError,
>)
    ensures
        outcome == match added {
            Ok(()) => Ok::<(), AuthAPIError>(()),
            Err(_) => Err(AuthAPIError::UnexpectedError),
        },
{
    match added {
        Ok(()) => Ok(()),
        Err(_) => Err(AuthAPIError::UnexpectedError),
    }
}

/// Ends the session that `token` stands for, by revoking the token. `token`
/// is the token that came with the request, if one did; `claims` is what the
/// token codec read in it, or `None` where the codec rejected it.
pub fn logout<B: BannedTokenStore>(
    banned_token_store: &mut B,
    token: Option<String>,
    claims: Option<Claims>,
) -> (outcome: Result<(), AuthAPIError>)
    ensures
        logout_ensures(
            old(banned_token_store).reliable(),
            old(banned_token_store).banned(),
            token,
            claims,
            final(banned_token_store).banned(),
            outcome,
        ),
        final(banned_token_store).reliable() == old(banned_token_store).reliable(),
{
    match token {
        None => Err(AuthAPIError::MissingToken),
        Some(presented) => {
            match validate_token(&*banned_token_store, presented.as_str(), claims) {
                Ok(_) => revocation_verdict(banned_token_store.add_token(presented)),
                Err(error) => Err(error),
            }
        },
    }
}

/// A token that the codec accepts and that was not revoked is verified, for
/// the one it was issued to; on any store but one that failed. Once a logout
/// with the token has succeeded, verifying the token is refused, whatever the
/// codec makes of it by then: with `InvalidToken`, on any store but one that
/// failed.
pub proof fn lemma_token_is_refused_after_logout(
    reliable: bool,
    before: Set<Seq<char>>,
    token: String,
    claims: Claims,
    issued: Result<String, AuthAPIError>,
    after: Set<Seq<char>>,
    any_claims: Option<Claims>,
    verified: Result<String, AuthAPIError>,
)
    requires
        verify_token_ensures(reliable, before, token@, Some(claims), issued),
        logout_ensures(reliable, before, Some(token), Some(claims), after, Ok(())),
        verify_token_ensures(reliable, after, token@, any_claims, verified),
    ensures
        issued == Ok::<String, AuthAPIError>(claims.sub) || issued == Err::<String, AuthAPIError>(
            AuthAPIError::UnexpectedError,
        ),
        reliable ==> issued == Ok::<String, AuthAPIError>(claims.sub),
        after.contains(token@),
        verified == Err::<String, AuthAPIError>(AuthAPIError::InvalidToken) || verified == Err::<
            String,
            AuthAPIError,
        >(AuthAPIError::UnexpectedError),
        reliable ==> verified == Err::<String, AuthAPIError>(AuthAPIError::InvalidToken),
{
}

/// A session is ended once. A logout without a token is refused with
/// `MissingToken`. Once a logout with a token has succeeded, a second logout
/// with the same token is refused and revokes nothing more: with
/// `InvalidToken`, on any store but one that failed.
pub proof fn lemma_second_logout_is_refused(
    reliable: bool,
    before: Set<Seq<char>>,
    token: String,
    claims: Option<Claims>,
    after: Set<Seq<char>>,
    any_claims: Option<Claims>,
    after_second: Set<Seq<char>>,
    second: Result<(), AuthAPIError>,
    after_none: Set<Seq<char>>,
    without_token: Result<(), AuthAPIError>,
)
    requires
        logout_ensures(reliable, before, Some(token), claims, after, Ok(())),
        logout_ensures(reliable, after, Some(token), any_claims, after_second, second),
        logout_ensures(reliable, after, None, any_claims, after_none, without_token),
    ensures
        second == Err::<(), AuthAPIError>(AuthAPIError::InvalidToken) || second == Err::<
            (),
            AuthAPIError,
        >(AuthAPIError::UnexpectedError),
        reliable ==> second == Err::<(), AuthAPIError>(AuthAPIError::InvalidToken),
        after_second == after,
        without_token == Err::<(), AuthAPIError>(AuthAPIError::MissingToken),
        after_none == after,
{
}

} // verus!
