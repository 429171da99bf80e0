use crate::domain::data_stores::BannedTokenStoreError;
use crate::utils::auth::TOKEN_TTL_SECONDS;
use vstd::prelude::*;
use vstd::string::StringExecFns;

verus! {

/// What the key of every revoked token starts with. It keeps these keys
/// apart from all others in a store that is shared.
pub const BANNED_TOKEN_KEY_PREFIX: &'static str = "banned_token:";

/// The key under which `token` is remembered as revoked.
pub open spec fn spec_get_key(token: Seq<char>) -> Seq<char> {
    BANNED_TOKEN_KEY_PREFIX@ + token
}

/// The key under which `token` is remembered as revoked.
pub fn get_key(token: &str) -> (key: String)
    ensures
        key@ == spec_get_key(token@),
{
    String::from_str(BANNED_TOKEN_KEY_PREFIX).concat(token)
}

/// How long a revoked token is remembered, in seconds: as long as a session
/// token can stay valid, after which it is refused anyway.
pub fn time_to_live() -> (seconds: u64)
    ensures
        seconds == TOKEN_TTL_SECONDS,
{
    TOKEN_TTL_SECONDS as u64
}

/// What the backend's answer to the command that remembers a token means
/// for `add_token`: a command that failed is reported as `UnexpectedError`.
pub fn add_token_verdict(stored: Result<(), ()>) -> (added: Result<(), BannedTokenStoreError>)
    ensures
        added == match stored {
            Ok(()) => Ok::<(), BannedTokenStoreError>(()),
            Err(_) => Err(BannedTokenStoreError::UnexpectedError),
        },
{
    match stored {
        Ok(()) => Ok(()),
        Err(_) => Err(BannedTokenStoreError::UnexpectedError),
    }
}

/// What the backend's answer to the question whether a key exists means for
/// `contains_token`: a token is revoked exactly when its key exists, and a
/// question that failed is reported as `UnexpectedError`.
pub fn contains_token_verdict(answered: Result<bool, ()>) -> (found: Result<
    bool,
    BannedTokenStoreError,
>)
    ensures
        found == match answered {
            Ok(revoked) => Ok::<bool, BannedTokenStoreError>(revoked),
            Err(_) => Err(BannedTokenStoreError::UnexpectedError),
        },
{
    match answered {
        Ok(revoked) => Ok(revoked),
        Err(_) => Err(BannedTokenStoreError::UnexpectedError),
    }
}

/// Two tokens share a key only when they are one token.
pub proof fn lemma_keys_tell_tokens_apart(first: Seq<char>, second: Seq<char>)
    requires
        spec_get_key(first) == spec_get_key(second),
    ensures
        first == second,
{
    let prefix = BANNED_TOKEN_KEY_PREFIX@;
    assert(first =~= spec_get_key(first).subrange(
        prefix.len() as int,
        spec_get_key(first).len() as int,
    ));
    assert(second =~= spec_get_key(second).subrange(
        prefix.len() as int,
        spec_get_key(second).len() as int,
    ));
}

} // verus!
