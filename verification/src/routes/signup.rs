use crate::domain::data_stores::UserStore;
use crate::domain::data_stores::UserStoreError;
use crate::domain::email::is_email_text;
use crate::domain::email::Email;
use crate::domain::error::AuthAPIError;
use crate::domain::password::password_verifies;
use crate::domain::password::hash_password;
use crate::domain::password::is_password_text;
use crate::domain::password::utf8_len;
use crate::domain::password::MAX_PASSWORD_BYTES;
use crate::domain::password::Password;
use crate::domain::user::AccountView;
use crate::domain::user::User;
use vstd::prelude::*;
use vstd::string::StringExecFns;

verus! {

pub struct SignupRequest {
    pub email: String,
    pub password: String,
    pub requires_2fa: bool,
}

#[derive(Debug, PartialEq)]
pub struct SignupResponse {
    pub message: String,
}

/// Whether an address and a password are well formed.
pub open spec fn are_credentials(email: Seq<char>, password: Seq<char>) -> bool {
    is_email_text(email) && is_password_text(password)
}

/// Reads the address and the password of a request.
pub fn parse_credentials(email: String, password: String) -> (parsed: Result<
    (Email, Password),
    AuthAPIError,
>)
    ensures
        match parsed {
            Ok((address, secret)) => are_credentials(email@, password@) && address@ == email@
                && secret@ == password@,
            Err(error) => !are_credentials(email@, password@) && error
                == AuthAPIError::InvalidCredentials,
        },
{
    let address = match Email::parse(email) {
        Ok(address) => address,
        Err(_) => {
            return Err(AuthAPIError::InvalidCredentials);
        },
    };
    match Password::parse(password) {
        Ok(secret) => Ok((address, secret)),
        Err(_) => Err(AuthAPIError::InvalidCredentials),
    }
}

/// What the account store's answer to `get_user` means for a registration:
/// an account that was found stands in the way.
pub fn vacancy_verdict(found: &Result<User, UserStoreError>) -> (verdict: Result<(), AuthAPIError>)
    ensures
        verdict == match *found {
            Ok(_) => Err::<(), AuthAPIError>(AuthAPIError::UserAlreadyExists),
            Err(UserStoreError::UserNotFound) => Ok(()),
            Err(_) => Err(AuthAPIError::UnexpectedError),
        },
{
    match found {
        Ok(_) => Err(AuthAPIError::UserAlreadyExists),
        Err(UserStoreError::UserNotFound) => Ok(()),
        Err(_) => Err(AuthAPIError::UnexpectedError),
    }
}

/// The account to register, once the hasher has answered `hashed`: an
/// account needs the hash, so without one there is none.
pub fn new_account(email: Email, hashed: Option<String>, requires_2fa: bool) -> (account: Result<
    User,
    AuthAPIError,
>)
    ensures
        match hashed {
            Some(hash) => account matches Ok(user) && user.email == email && user.password_hash
                == hash && user.requires_2fa == requires_2fa,
            None => account matches Err(error) && error == AuthAPIError::UnexpectedError,
        },
{
    match hashed {
        Some(hash) => Ok(User::new(email, hash, requires_2fa)),
        None => Err(AuthAPIError::UnexpectedError),
    }
}

/// What the account store's answer to `add_user` means for the request.
pub fn registration_verdict(added: Result<(), UserStoreError>) -> (outcome: Result<
    SignupResponse,
    AuthAPIError,
>)
    ensures
        match added {
            Ok(()) => outcome matches Ok(response) && response.message@
                == "User created successfully!"@,
            Err(UserStoreError::UserAlreadyExists) => outcome matches Err(error) && error
                == AuthAPIError::UserAlreadyExists,
            Err(_) => outcome matches Err(error) && error == AuthAPIError::UnexpectedError,
        },
{
    match added {
        Ok(()) => Ok(SignupResponse { message: String::from_str("User created successfully!") }),
        Err(UserStoreError::UserAlreadyExists) => Err(AuthAPIError::UserAlreadyExists),
        Err(_) => Err(AuthAPIError::UnexpectedError),
    }
}

/// What `signup` returns and does, and when, on a store that holds `before`
/// and is `reliable` or not. `UnexpectedError` reports a failing store or a
/// password too long to hash. The hasher is asked only once the store has
/// said that the address is free, so on a reliable store the outcome is
/// decided by the inputs: a taken address is reported as taken, and on a free
/// one only the length of the password can stand in the way.
pub open spec fn signup_ensures(
    reliable: bool,
    before: Map<Seq<char>, AccountView>,
    email: Seq<char>,
    password: Seq<char>,
    requires_2fa: bool,
    after: Map<Seq<char>, AccountView>,
    outcome: Result<SignupResponse, AuthAPIError>,
) -> bool {
    if !are_credentials(email, password) {
        outcome matches Err(error) && error == AuthAPIError::InvalidCredentials && after == before
    } else {
        match outcome {
            Ok(response) => {
                &&& !before.contains_key(email)
                &&& after == before.insert(email, after[email])
                &&& password_verifies(after[email].password_hash, password)
                &&& after[email].requires_2fa == requires_2fa
                &&& response.message@ == "User created successfully!"@
            },
            Err(AuthAPIError::UserAlreadyExists) => before.contains_key(email) && after == before,
            Err(AuthAPIError::UnexpectedError) => after == before && (reliable
                ==> !before.contains_key(email) && utf8_len(password) > MAX_PASSWORD_BYTES),
            Err(_) => false,
        }
    }
}

/// Registers an account for the request's address, with the hash of its
/// password, unless the request is malformed or the address is taken.
pub fn signup<U: UserStore>(user_store: &mut U, request: SignupRequest) -> (outcome: Result<
    SignupResponse,
    AuthAPIError,
>)
    ensures
        signup_ensures(
            old(user_store).reliable(),
            old(user_store).accounts(),
            request.email@,
            request.password@,
            request.requires_2fa,
            final(user_store).accounts(),
            outcome,
        ),
        final(user_store).reliable() == old(user_store).reliable(),
{
    let (email, password) = match parse_credentials(request.email, request.password) {
        Ok(credentials) => credentials,
        Err(error) => {
            return Err(error);
        },
    };
    let existing_user = user_store.get_user(&email);
    match vacancy_verdict(&existing_user) {
        Ok(()) => {},
        Err(error) => {
            return Err(error);
        },
    }
    let user = match new_account(email, hash_password(&password), request.requires_2fa) {
        Ok(user) => user,
        Err(error) => {
            return Err(error);
        },
    };
    registration_verdict(user_store.add_user(user))
}

/// On a store that never fails, a signup with well-formed fields for a free
/// address succeeds, unless its password is too long to hash.
pub proof fn lemma_signup_succeeds_on_a_free_address(
    before: Map<Seq<char>, AccountView>,
    email: Seq<char>,
    password: Seq<char>,
    requires_2fa: bool,
    after: Map<Seq<char>, AccountView>,
    outcome: Result<SignupResponse, AuthAPIError>,
)
    requires
        signup_ensures(true, before, email, password, requires_2fa, after, outcome),
        are_credentials(email, password),
        !before.contains_key(email),
        utf8_len(password) <= MAX_PASSWORD_BYTES,
    ensures
        outcome is Ok,
        after.contains_key(email),
        after[email].requires_2fa == requires_2fa,
        password_verifies(after[email].password_hash, password),
{
}

/// Once a signup for an address has succeeded, a later signup for the same
/// address, whatever its password, is refused and leaves the accounts as
/// they were, as many as before: with `UserAlreadyExists`, on any store but
/// one that failed.
pub proof fn lemma_second_signup_is_refused(
    reliable: bool,
    before: Map<Seq<char>, AccountView>,
    email: Seq<char>,
    password: Seq<char>,
    requires_2fa: bool,
    between: Map<Seq<char>, AccountView>,
    first: Result<SignupResponse, AuthAPIError>,
    password_again: Seq<char>,
    requires_2fa_again: bool,
    after: Map<Seq<char>, AccountView>,
    second: Result<SignupResponse, AuthAPIError>,
)
    requires
        signup_ensures(reliable, before, email, password, requires_2fa, between, first),
        first is Ok,
        is_password_text(password_again),
        signup_ensures(
            reliable,
            between,
            email,
            password_again,
            requires_2fa_again,
            after,
            second,
        ),
    ensures
        second matches Err(error) && (error == AuthAPIError::UserAlreadyExists || error
            == AuthAPIError::UnexpectedError),
        reliable ==> (second matches Err(error) && error == AuthAPIError::UserAlreadyExists),
        after == between,
        after.dom() == between.dom(),
        after.dom().len() == between.dom().len(),
{
}

} // verus!
