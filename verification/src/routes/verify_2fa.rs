use crate::domain::data_stores::is_two_fa_code_text;
use crate::domain::data_stores::is_uuid_text;
use crate::domain::data_stores::LoginAttemptId;
use crate::domain::data_stores::TwoFACode;
use crate::domain::data_stores::TwoFACodeStore;
use crate::domain::data_stores::TwoFACodeStoreError;
use crate::domain::email::is_email_text;
use crate::domain::email::Email;
use crate::domain::error::AuthAPIError;
use crate::domain::user::AccountView;
use crate::routes::login::login_ensures;
use crate::routes::login::LoginOutcome;
use vstd::prelude::*;

verus! {

pub struct Verify2FARequest {
    pub email: String,
    pub login_attempt_id: String,
    pub two_fa_code: String,
}

/// Whether the three fields of a verification are well formed.
pub open spec fn is_verification(
    email: Seq<char>,
    login_attempt_id: Seq<char>,
    code: Seq<char>,
) -> bool {
    is_email_text(email) && is_uuid_text(login_attempt_id) && is_two_fa_code_text(code)
}

/// Whether the challenge pending for `email` is the pair of `login_attempt_id`
/// and `code`, both at once and letter for letter.
pub open spec fn challenge_met(
    pending: Map<Seq<char>, (Seq<char>, Seq<char>)>,
    email: Seq<char>,
    login_attempt_id: Seq<char>,
    code: Seq<char>,
) -> bool {
    pending.contains_key(email) && pending[email] == (login_attempt_id, code)
}

/// Reads the three fields of a verification.
pub fn parse_verification(request: Verify2FARequest) -> (parsed: Result<
    (Email, LoginAttemptId, TwoFACode),
    AuthAPIError,
>)
    ensures
        match parsed {
            Ok((email, login_attempt_id, code)) => {
                &&& is_verification(
                    request.email@,
                    request.login_attempt_id@,
                    request.two_fa_code@,
                )
                &&& email@ == request.email@
                &&& login_attempt_id@ == request.login_attempt_id@
                &&& code@ == request.two_fa_code@
            },
            Err(error) => error == AuthAPIError::InvalidCredentials && !is_verification(
                request.email@,
                request.login_attempt_id@,
                request.two_fa_code@,
            ),
        },
{
    let email = match Email::parse(request.email) {
        Ok(email) => email,
        Err(_) => {
            return Err(AuthAPIError::InvalidCredentials);
        },
    };
    let login_attempt_id = match LoginAttemptId::parse(request.login_attempt_id) {
        Ok(login_attempt_id) => login_attempt_id,
        Err(_) => {
            return Err(AuthAPIError::InvalidCredentials);
        },
    };
    match TwoFACode::parse(request.two_fa_code) {
        Ok(code) => Ok((email, login_attempt_id, code)),
        Err(_) => Err(AuthAPIError::InvalidCredentials),
    }
}

/// What the challenge store's answer to `get_code` means for a verification
/// that presents `login_attempt_id` and `code`. That nothing is pending, that
/// the id is another and that the code is another are one and the same
/// outcome: the client does not learn which half was wrong.
pub fn code_verdict(
    found: Result<(LoginAttemptId, TwoFACode), TwoFACodeStoreError>,
    login_attempt_id: &LoginAttemptId,
    code: &TwoFACode,
) -> (verdict: Result<(), AuthAPIError>)
    ensures
        verdict == match found {
            Ok((pending_id, pending_code)) => if pending_id@ == login_attempt_id@ && pending_code@
                == code@ {
                Ok::<(), AuthAPIError>(())
            } else {
                Err(AuthAPIError::IncorrectCredentials)
            },
            Err(TwoFACodeStoreError::LoginAttemptIdNotFound) => Err(
                AuthAPIError::IncorrectCredentials,
            ),
            Err(TwoFACodeStoreError::UnexpectedError) => Err(AuthAPIError::UnexpectedError),
        },
{
    match found {
        Ok((pending_id, pending_code)) => {
            if pending_id == *login_attempt_id && pending_code == *code {
                Ok(())
            } else {
                Err(AuthAPIError::IncorrectCredentials)
            }
        },
        Err(TwoFACodeStoreError::LoginAttemptIdNotFound) => Err(AuthAPIError::IncorrectCredentials),
        Err(TwoFACodeStoreError::UnexpectedError) => Err(AuthAPIError::UnexpectedError),
    }
}

/// What the challenge store's answer to `remove_code` means for the request:
/// a session token is owed to `email` only once the challenge is gone.
pub fn consumption_verdict(removed: Result<(), TwoFACodeStoreError>, email: Email) -> (outcome:
    Result<Email, AuthAPIError>)
    ensures
        match removed {
            Ok(()) => outcome == Ok::<Email, AuthAPIError>(email),
            Err(_) => outcome matches Err(error) && error == AuthAPIError::UnexpectedError,
        },
{
    match removed {
        Ok(()) => Ok(email),
        Err(_) => Err(AuthAPIError::UnexpectedError),
    }
}

/// What `verify_2fa` returns and does, and when, on a store that holds
/// `before` and is `reliable` or not. `UnexpectedError` is the one outcome
/// that the inputs do not decide: it reports a failing store, so a reliable
/// one never gives it.
pub open spec fn verify_2fa_ensures(
    reliable: bool,
    before: Map<Seq<char>, (Seq<char>, Seq<char>)>,
    email: Seq<char>,
    login_attempt_id: Seq<char>,
    code: Seq<char>,
    after: Map<Seq<char>, (Seq<char>, Seq<char>)>,
    outcome: Result<Email, AuthAPIError>,
) -> bool {
    if !is_verification(email, login_attempt_id, code) {
        outcome matches Err(error) && error == AuthAPIError::InvalidCredentials && after == before
    } else {
        match outcome {
            Ok(subject) => {
                &&& challenge_met(before, email, login_attempt_id, code)
                &&& after == before.remove(email)
                &&& subject@ == email
            },
            Err(AuthAPIError::IncorrectCredentials) => !challenge_met(
                before,
                email,
                login_attempt_id,
                code,
            ) && after == before,
            Err(AuthAPIError::UnexpectedError) => after == before && !reliable,
            Err(_) => false,
        }
    }
}

/// Answers a second-factor challenge. Where the request presents the pending
/// pair, the challenge is removed, so that it cannot be answered twice, and
/// a session token is owed to the address returned.
pub fn verify_2fa<T: TwoFACodeStore>(
    two_fa_code_store: &mut T,
    request: Verify2FARequest,
) -> (outcome: Result<Email, AuthAPIError>)
    ensures
        verify_2fa_ensures(
            old(two_fa_code_store).reliable(),
            old(two_fa_code_store).pending(),
            request.email@,
            request.login_attempt_id@,
            request.two_fa_code@,
            final(two_fa_code_store).pending(),
            outcome,
        ),
        final(two_fa_code_store).reliable() == old(two_fa_code_store).reliable(),
{
    let (email, login_attempt_id, code) = match parse_verification(request) {
        Ok(fields) => fields,
        Err(error) => {
            return Err(error);
        },
    };
    match code_verdict(two_fa_code_store.get_code(&email), &login_attempt_id, &code) {
        Ok(()) => {},
        Err(error) => {
            return Err(error);
        },
    }
    let removed = two_fa_code_store.remove_code(&email);
    consumption_verdict(removed, email)
}

/// A challenge can be answered once. Where a challenge is pending for
/// `email` with `login_attempt_id` and `code`, a verification that presents
/// that pair succeeds, for that address, on any store but one that failed.
/// Once one has succeeded, a later verification for the same address is
/// refused whatever it presents, the same pair included, and changes
/// nothing: with `IncorrectCredentials`, on any store but one that failed.
pub proof fn lemma_challenge_is_answered_once(
    reliable: bool,
    recorded: Map<Seq<char>, (Seq<char>, Seq<char>)>,
    email: Seq<char>,
    login_attempt_id: Seq<char>,
    code: Seq<char>,
    after_first: Map<Seq<char>, (Seq<char>, Seq<char>)>,
    first: Result<Email, AuthAPIError>,
    any_login_attempt_id: Seq<char>,
    any_code: Seq<char>,
    after_second: Map<Seq<char>, (Seq<char>, Seq<char>)>,
    second: Result<Email, AuthAPIError>,
)
    requires
        is_verification(email, login_attempt_id, code),
        is_verification(email, any_login_attempt_id, any_code),
        challenge_met(recorded, email, login_attempt_id, code),
        verify_2fa_ensures(
            reliable,
            recorded,
            email,
            login_attempt_id,
            code,
            after_first,
            first,
        ),
        verify_2fa_ensures(
            reliable,
            after_first,
            email,
            any_login_attempt_id,
            any_code,
            after_second,
            second,
        ),
    ensures
        (first matches Ok(subject) && subject@ == email) || first == Err::<Email, AuthAPIError>(
            AuthAPIError::UnexpectedError,
        ),
        reliable ==> first is Ok,
        first is Ok ==> !after_first.contains_key(email),
        first is Ok ==> second == Err::<Email, AuthAPIError>(AuthAPIError::IncorrectCredentials)
            || second == Err::<Email, AuthAPIError>(AuthAPIError::UnexpectedError),
        first is Ok && reliable ==> second == Err::<Email, AuthAPIError>(
            AuthAPIError::IncorrectCredentials,
        ),
        first is Ok ==> after_second == after_first,
{
}

/// The challenge that a login hands out is the one that a verification has
/// to present: on `PendingTwoFA`, the id and the code are well formed and
/// are the pair pending for the address.
pub proof fn lemma_login_records_its_challenge(
    reliable: bool,
    accounts: Map<Seq<char>, AccountView>,
    before: Map<Seq<char>, (Seq<char>, Seq<char>)>,
    email: Seq<char>,
    password: Seq<char>,
    after: Map<Seq<char>, (Seq<char>, Seq<char>)>,
    outcome: Result<LoginOutcome, AuthAPIError>,
)
    requires
        login_ensures(reliable, accounts, before, email, password, after, outcome),
        outcome matches Ok(LoginOutcome::PendingTwoFA { .. }),
    ensures
        outcome matches Ok(LoginOutcome::PendingTwoFA { email: subject, login_attempt_id, code })
            && is_verification(email, login_attempt_id@, code@) && challenge_met(
            after,
            email,
            login_attempt_id@,
            code@,
        ),
{
}

} // verus!
