use crate::domain::data_stores::UserStoreError;
use crate::domain::email::is_email_text;
use crate::domain::email::Email;
use crate::domain::password::password_verifies;
use crate::domain::password::password_matches;
use crate::domain::password::Password;
use crate::domain::user::User;
use vstd::prelude::*;

verus! {

/// A row of the table of accounts, as the database holds it.
pub struct UserRow {
    pub email: String,
    pub password_hash: String,
    pub requires_2fa: bool,
}

/// How the database answered an insertion.
pub enum InsertOutcome {
    /// The row was written.
    Inserted,
    /// The table's key refused the row: the address has a row already.
    Duplicate,
    /// Anything else.
    Failed,
}

/// What the database's answer to an insertion means for `add_user`.
pub fn insert_verdict(outcome: InsertOutcome) -> (added: Result<(), UserStoreError>)
    ensures
        added == match outcome {
            InsertOutcome::Inserted => Ok::<(), UserStoreError>(()),
            InsertOutcome::Duplicate => Err(UserStoreError::UserAlreadyExists),
            InsertOutcome::Failed => Err(UserStoreError::UnexpectedError),
        },
{
    match outcome {
        InsertOutcome::Inserted => Ok(()),
        InsertOutcome::Duplicate => Err(UserStoreError::UserAlreadyExists),
        InsertOutcome::Failed => Err(UserStoreError::UnexpectedError),
    }
}

/// The account that the database's answer stands for: `None` where it has
/// no row for the address. The account carries the hash that the row holds.
/// A row whose address is malformed was not written by this store.
pub fn user_from_row(row: Option<UserRow>) -> (found: Result<User, UserStoreError>)
    ensures
        match row {
            None => found matches Err(error) && error == UserStoreError::UserNotFound,
            Some(row) => if is_email_text(row.email@) {
                found matches Ok(user) && user.email@ == row.email@ && user.password_hash
                    == row.password_hash && user.requires_2fa == row.requires_2fa
            } else {
                found matches Err(error) && error == UserStoreError::UnexpectedError
            },
        },
{
    match row {
        None => Err(UserStoreError::UserNotFound),
        Some(row) => match Email::parse(row.email) {
            Ok(email) => Ok(User::new(email, row.password_hash, row.requires_2fa)),
            Err(_) => Err(UserStoreError::UnexpectedError),
        },
    }
}

/// Whether `password` is that of the account that the database's answer
/// stands for: `None` where it has no row for the address.
pub fn validate_row(row: Option<UserRow>, password: &Password) -> (checked: Result<
    (),
    UserStoreError,
>)
    ensures
        checked == match row {
            None => Err::<(), UserStoreError>(UserStoreError::UserNotFound),
            Some(row) => if password_verifies(row.password_hash@, password@) {
                Ok(())
            } else {
                Err(UserStoreError::InvalidCredentials)
            },
        },
{
    match row {
        None => Err(UserStoreError::UserNotFound),
        Some(row) => {
            if password_matches(row.password_hash.as_str(), password) {
                Ok(())
            } else {
                Err(UserStoreError::InvalidCredentials)
            }
        },
    }
}

/// The account that the outcome of a query for an address stands for. A
/// query that failed is reported as `UnexpectedError`; one that was answered
/// is judged by `user_from_row`.
pub fn user_from_fetched(fetched: Result<Option<UserRow>, ()>) -> (found: Result<
    User,
    UserStoreError,
>)
    ensures
        match fetched {
            Err(_) => found matches Err(error) && error == UserStoreError::UnexpectedError,
            Ok(None) => found matches Err(error) && error == UserStoreError::UserNotFound,
            Ok(Some(row)) => if is_email_text(row.email@) {
                found matches Ok(user) && user.email@ == row.email@ && user.password_hash
                    == row.password_hash && user.requires_2fa == row.requires_2fa
            } else {
                found matches Err(error) && error == UserStoreError::UnexpectedError
            },
        },
{
    match fetched {
        Ok(row) => user_from_row(row),
        Err(_) => Err(UserStoreError::UnexpectedError),
    }
}

/// Whether `password` is that of the account that the outcome of a query
/// for an address stands for. A query that failed is reported as
/// `UnexpectedError`; one that was answered is judged by `validate_row`.
pub fn validate_fetched(fetched: Result<Option<UserRow>, ()>, password: &Password) -> (checked:
    Result<(), UserStoreError>)
    ensures
        checked == match fetched {
            Err(_) => Err::<(), UserStoreError>(UserStoreError::UnexpectedError),
            Ok(None) => Err(UserStoreError::UserNotFound),
            Ok(Some(row)) => if password_verifies(row.password_hash@, password@) {
                Ok(())
            } else {
                Err(UserStoreError::InvalidCredentials)
            },
        },
{
    match fetched {
        Ok(row) => validate_row(row, password),
        Err(_) => Err(UserStoreError::UnexpectedError),
    }
}

} // verus!
