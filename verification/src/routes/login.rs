use crate::domain::data_stores::is_two_fa_code_text;
use crate::domain::data_stores::is_version_4_uuid;
use crate::domain::data_stores::LoginAttemptId;
use crate::domain::data_stores::TwoFACode;
use crate::domain::data_stores::TwoFACodeStore;
use crate::domain::data_stores::TwoFACodeStoreError;
use crate::domain::data_stores::UserStore;
use crate::domain::data_stores::UserStoreError;
use crate::domain::email::Email;
use crate::domain::error::AuthAPIError;
use crate::domain::password::password_verifies;
use crate::domain::user::AccountView;
use crate::domain::user::User;
use crate::routes::signup::are_credentials;
use crate::routes::signup::parse_credentials;
use crate::routes::signup::signup_ensures;
use crate::routes::signup::SignupResponse;
use vstd::prelude::*;

verus! {

pub struct LoginRequest {
    pub email: String,
    pub password: String,
}

/// What a login that was not refused leads to.
#[derive(Debug, PartialEq)]
pub enum LoginOutcome {
    /// The credentials are right and the account asks for no second factor:
    /// a session token is owed to `email`.
    Authenticated { email: Email },
    /// The credentials are right and the account asks for a second factor:
    /// the challenge was recorded. `login_attempt_id` goes back to the
    /// client. `code` goes to the account's owner by another channel, and
    /// never into the response.
    PendingTwoFA { email: Email, login_attempt_id: LoginAttemptId, code: TwoFACode },
}

/// Whether `password` is that of the account registered under `email`.
pub open spec fn credentials_accepted(
    accounts: Map<Seq<char>, AccountView>,
    email: Seq<char>,
    password: Seq<char>,
) -> bool {
    accounts.contains_key(email) && password_verifies(accounts[email].password_hash, password)
}

/// What the account store's answer to `validate_user` means for the request.
/// That no account is registered and that the password is wrong are one and
/// the same outcome, so that a client cannot learn which addresses are
/// registered.
pub fn credentials_verdict(checked: Result<(), UserStoreError>) -> (verdict: Result<
    (),
    AuthAPIError,
>)
    ensures
        verdict == match checked {
            Ok(()) => Ok::<(), AuthAPIError>(()),
            Err(UserStoreError::UserNotFound) => Err(AuthAPIError::IncorrectCredentials),
            Err(UserStoreError::InvalidCredentials) => Err(AuthAPIError::IncorrectCredentials),
            Err(_) => Err(AuthAPIError::UnexpectedError),
        },
{
    match checked {
        Ok(()) => Ok(()),
        Err(UserStoreError::UserNotFound) => Err(AuthAPIError::IncorrectCredentials),
        Err(UserStoreError::InvalidCredentials) => Err(AuthAPIError::IncorrectCredentials),
        Err(_) => Err(AuthAPIError::UnexpectedError),
    }
}

/// What the account store's answer to `get_user` means for a login whose
/// credentials were accepted.
pub fn account_verdict(found: Result<User, UserStoreError>) -> (verdict: Result<User, AuthAPIError>)
    ensures
        match found {
            Ok(user) => verdict matches Ok(same) && same == user,
            Err(UserStoreError::UserNotFound) => verdict matches Err(error) && error
                == AuthAPIError::IncorrectCredentials,
            Err(_) => verdict matches Err(error) && error == AuthAPIError::UnexpectedError,
        },
{
    match found {
        Ok(user) => Ok(user),
        Err(UserStoreError::UserNotFound) => Err(AuthAPIError::IncorrectCredentials),
        Err(_) => Err(AuthAPIError::UnexpectedError),
    }
}

/// What the challenge store's answer to `add_code` means for the request.
pub fn challenge_verdict(
    added: Result<(), TwoFACodeStoreError>,
    email: Email,
    login_attempt_id: LoginAttemptId,
    code: TwoFACode,
) -> (outcome: Result<LoginOutcome, AuthAPIError>)
    ensures
        match added {
            Ok(()) => outcome == Ok::<LoginOutcome, AuthAPIError>(
                LoginOutcome::PendingTwoFA { email, login_attempt_id, code },
            ),
            Err(_) => outcome matches Err(error) && error == AuthAPIError::UnexpectedError,
        },
{
    match added {
        Ok(()) => Ok(LoginOutcome::PendingTwoFA { email, login_attempt_id, code }),
        Err(_) => Err(AuthAPIError::UnexpectedError),
    }
}

/// What `login` returns and does, and when, on stores that hold `accounts`
/// and `before` and are both `reliable` or not. `UnexpectedError` is the one
/// outcome that the inputs do not decide: it reports a failing store, so
/// reliable ones never give it.
pub open spec fn login_ensures(
    reliable: bool,
    accounts: Map<Seq<char>, AccountView>,
    before: Map<Seq<char>, (Seq<char>, Seq<char>)>,
    email: Seq<char>,
    password: Seq<char>,
    after: Map<Seq<char>, (Seq<char>, Seq<char>)>,
    outcome: Result<LoginOutcome, AuthAPIError>,
) -> bool {
    if !are_credentials(email, password) {
        outcome matches Err(error) && error == AuthAPIError::InvalidCredentials && after == before
    } else {
        match outcome {
            Ok(LoginOutcome::Authenticated { email: subject }) => {
                &&& credentials_accepted(accounts, email, password)
                &&& !accounts[email].requires_2fa
                &&& subject@ == email
                &&& after == before
            },
            Ok(LoginOutcome::PendingTwoFA { email: subject, login_attempt_id, code }) => {
                &&& credentials_accepted(accounts, email, password)
                &&& accounts[email].requires_2fa
                &&& subject@ == email
                &&& is_version_4_uuid(login_attempt_id@)
                &&& is_two_fa_code_text(code@)
                &&& after == before.insert(email, (login_attempt_id@, code@))
            },
            Err(AuthAPIError::IncorrectCredentials) => !credentials_accepted(
                accounts,
                email,
                password,
            ) && after == before,
            Err(AuthAPIError::UnexpectedError) => after == before && !reliable,
            Err(_) => false,
        }
    }
}

/// Checks the request's credentials. Where they are right, the account
/// decides what follows: a session at once, or a second-factor challenge
/// under a fresh version-4 id, which replaces any earlier one for the
/// address.
pub fn login<U: UserStore, T: TwoFACodeStore>(
    user_store: &U,
    two_fa_code_store: &mut T,
    request: LoginRequest,
) -> (outcome: Result<LoginOutcome, AuthAPIError>)
    ensures
        login_ensures(
            user_store.reliable() && old(two_fa_code_store).reliable(),
            user_store.accounts(),
            old(two_fa_code_store).pending(),
            request.email@,
            request.password@,
            final(two_fa_code_store).pending(),
            outcome,
        ),
        final(two_fa_code_store).reliable() == old(two_fa_code_store).reliable(),
{
    let (email, password) = match parse_credentials(request.email, request.password) {
        Ok(credentials) => credentials,
        Err(error) => {
            return Err(error);
        },
    };
    match credentials_verdict(user_store.validate_user(&email, &password)) {
        Ok(()) => {},
        Err(error) => {
            return Err(error);
        },
    }
    let user = match account_verdict(user_store.get_user(&email)) {
        Ok(user) => user,
        Err(error) => {
            return Err(error);
        },
    };
    if !user.requires_2fa {
        return Ok(LoginOutcome::Authenticated { email });
    }
    let login_attempt_id = LoginAttemptId::default();
    let code = TwoFACode::default();
    let added = two_fa_code_store.add_code(email.clone(), login_attempt_id.clone(), code.clone());
    challenge_verdict(added, email, login_attempt_id, code)
}

/// A login for an address that was never registered and a login with a
/// wrong password for a registered address end alike, and record no
/// challenge: in `IncorrectCredentials`, on any stores but ones that failed.
pub proof fn lemma_unknown_address_looks_like_wrong_password(
    reliable: bool,
    accounts: Map<Seq<char>, AccountView>,
    unknown: Seq<char>,
    any_password: Seq<char>,
    pending_before_unknown: Map<Seq<char>, (Seq<char>, Seq<char>)>,
    pending_after_unknown: Map<Seq<char>, (Seq<char>, Seq<char>)>,
    outcome_unknown: Result<LoginOutcome, AuthAPIError>,
    known: Seq<char>,
    wrong_password: Seq<char>,
    pending_before_known: Map<Seq<char>, (Seq<char>, Seq<char>)>,
    pending_after_known: Map<Seq<char>, (Seq<char>, Seq<char>)>,
    outcome_known: Result<LoginOutcome, AuthAPIError>,
)
    requires
        are_credentials(unknown, any_password),
        are_credentials(known, wrong_password),
        !accounts.contains_key(unknown),
        accounts.contains_key(known),
        !password_verifies(accounts[known].password_hash, wrong_password),
        login_ensures(
            reliable,
            accounts,
            pending_before_unknown,
            unknown,
            any_password,
            pending_after_unknown,
            outcome_unknown,
        ),
        login_ensures(
            reliable,
            accounts,
            pending_before_known,
            known,
            wrong_password,
            pending_after_known,
            outcome_known,
        ),
    ensures
        outcome_unknown matches Err(error) && (error == AuthAPIError::IncorrectCredentials || error
            == AuthAPIError::UnexpectedError),
        outcome_known matches Err(error) && (error == AuthAPIError::IncorrectCredentials || error
            == AuthAPIError::UnexpectedError),
        reliable ==> outcome_unknown == outcome_known && outcome_known == Err::<
            LoginOutcome,
            AuthAPIError,
        >(AuthAPIError::IncorrectCredentials),
        pending_after_unknown == pending_before_unknown,
        pending_after_known == pending_before_known,
{
}

/// Once a signup has succeeded, a login with the same address and password
/// is accepted: it ends in a session or, where the account asks for it, in
/// a challenge; on any stores but ones that failed.
pub proof fn lemma_login_follows_signup(
    reliable: bool,
    before: Map<Seq<char>, AccountView>,
    email: Seq<char>,
    password: Seq<char>,
    requires_2fa: bool,
    accounts: Map<Seq<char>, AccountView>,
    registered: Result<SignupResponse, AuthAPIError>,
    pending_before: Map<Seq<char>, (Seq<char>, Seq<char>)>,
    pending_after: Map<Seq<char>, (Seq<char>, Seq<char>)>,
    outcome: Result<LoginOutcome, AuthAPIError>,
)
    requires
        signup_ensures(reliable, before, email, password, requires_2fa, accounts, registered),
        registered is Ok,
        login_ensures(reliable, accounts, pending_before, email, password, pending_after, outcome),
    ensures
        credentials_accepted(accounts, email, password),
        outcome is Ok || outcome == Err::<LoginOutcome, AuthAPIError>(
            AuthAPIError::UnexpectedError,
        ),
        reliable ==> outcome is Ok,
        outcome is Ok ==> (outcome matches Ok(LoginOutcome::PendingTwoFA { .. }) <==> requires_2fa),
{
}

} // verus!
