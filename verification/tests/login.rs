use auth_service::domain::data_stores::AccountsModel;
use auth_service::domain::data_stores::PendingModel;
use auth_service::domain::AuthAPIError;
use auth_service::domain::Email;
use auth_service::domain::LoginAttemptId;
use auth_service::domain::Password;
use auth_service::domain::TwoFACode;
use auth_service::domain::TwoFACodeStore;
use auth_service::domain::TwoFACodeStoreError;
use auth_service::domain::User;
use auth_service::domain::UserStore;
use auth_service::domain::UserStoreError;
use auth_service::routes::login;
use auth_service::routes::login::account_verdict;
use auth_service::routes::login::challenge_verdict;
use auth_service::routes::login::credentials_verdict;
use auth_service::routes::signup;
use auth_service::routes::LoginOutcome;
use auth_service::routes::LoginRequest;
use auth_service::routes::SignupRequest;
use auth_service::services::HashmapTwoFACodeStore;
use auth_service::services::HashmapUserStore;

fn get_random_email() -> String {
    format!("{}@example.com", uuid::Uuid::new_v4())
}

fn request(email: &str, password: &str) -> LoginRequest {
    LoginRequest { email: email.to_owned(), password: password.to_owned() }
}

fn registered(email: &str, password: &str, requires_2fa: bool) -> HashmapUserStore {
    let mut user_store = HashmapUserStore::default();
    let request =
        SignupRequest { email: email.to_owned(), password: password.to_owned(), requires_2fa };
    signup(&mut user_store, request).unwrap();
    user_store
}

/// A store of challenges whose backend is down.
struct FailingTwoFACodeStore;

impl TwoFACodeStore for FailingTwoFACodeStore {
    fn pending(&self) -> PendingModel {
        unreachable!()
    }

    fn add_code(
        &mut self,
        _email: Email,
        _login_attempt_id: LoginAttemptId,
        _code: TwoFACode,
    ) -> Result<(), TwoFACodeStoreError> {
        Err(TwoFACodeStoreError::UnexpectedError)
    }

    fn remove_code(&mut self, _email: &Email) -> Result<(), TwoFACodeStoreError> {
        Err(TwoFACodeStoreError::UnexpectedError)
    }

    fn get_code(&self, _email: &Email) -> Result<(LoginAttemptId, TwoFACode), TwoFACodeStoreError> {
        Err(TwoFACodeStoreError::UnexpectedError)
    }
}

/// An account store whose backend is down.
struct FailingUserStore;

impl UserStore for FailingUserStore {
    fn accounts(&self) -> AccountsModel {
        unreachable!()
    }

    fn add_user(&mut self, _user: User) -> Result<(), UserStoreError> {
        Err(UserStoreError::UnexpectedError)
    }

    fn get_user(&self, _email: &Email) -> Result<User, UserStoreError> {
        Err(UserStoreError::UnexpectedError)
    }

    fn validate_user(&self, _email: &Email, _password: &Password) -> Result<(), UserStoreError> {
        Err(UserStoreError::UnexpectedError)
    }
}

#[test]
fn login_should_return_400_if_invalid_input() {
    let user_store = HashmapUserStore::default();
    let mut two_fa_code_store = HashmapTwoFACodeStore::default();

    let random_email = get_random_email();

    let input = [
        request("", "password123"),
        request("invalid_email", "password123"),
        request(&random_email, ""),
        request("", ""),
        request(&random_email, "invalid"),
    ];

    for i in input {
        let response = login(&user_store, &mut two_fa_code_store, i);
        let error = response.err().unwrap();
        assert_eq!(error.status_code(), 400);
        assert_eq!(error.message(), "Invalid credentials".to_owned());
    }
}

#[test]
fn login_should_return_401_if_incorrect_credentials() {
    let user_store = HashmapUserStore::default();
    let mut two_fa_code_store = HashmapTwoFACodeStore::default();

    let response = login(&user_store, &mut two_fa_code_store, request("test@example.com", "password123"));
    let error = response.err().unwrap();
    assert_eq!(error.status_code(), 401);
    assert_eq!(error.message(), "Unauthorized".to_owned());
}

#[test]
fn login_does_not_tell_an_unknown_address_from_a_wrong_password() {
    let user_store = registered("known@example.com", "password123", false);
    let mut two_fa_code_store = HashmapTwoFACodeStore::default();

    let unknown =
        login(&user_store, &mut two_fa_code_store, request("unknown@example.com", "password123"))
            .err()
            .unwrap();
    let wrong =
        login(&user_store, &mut two_fa_code_store, request("known@example.com", "password124"))
            .err()
            .unwrap();
    assert_eq!(unknown, AuthAPIError::IncorrectCredentials);
    assert_eq!(unknown, wrong);
    assert_eq!(unknown.status_code(), wrong.status_code());
    assert_eq!(unknown.message(), wrong.message());
}

#[test]
fn login_without_second_factor_owes_a_session() {
    let user_store = registered("u@example.com", "password123", false);
    let mut two_fa_code_store = HashmapTwoFACodeStore::default();

    let outcome =
        login(&user_store, &mut two_fa_code_store, request("u@example.com", "password123"));
    match outcome {
        Ok(LoginOutcome::Authenticated { email }) => assert_eq!(email.as_ref(), "u@example.com"),
        _ => panic!("a session is owed"),
    }
    // no challenge was recorded
    let email = Email::parse("u@example.com".to_owned()).unwrap();
    assert_eq!(
        two_fa_code_store.get_code(&email).err().unwrap(),
        TwoFACodeStoreError::LoginAttemptIdNotFound
    );
}

#[test]
fn login_with_second_factor_records_the_challenge() {
    let user_store = registered("u@example.com", "password123", true);
    let mut two_fa_code_store = HashmapTwoFACodeStore::default();
    let address = Email::parse("u@example.com".to_owned()).unwrap();

    let outcome =
        login(&user_store, &mut two_fa_code_store, request("u@example.com", "password123"));
    let (first_id, first_code) = match outcome {
        Ok(LoginOutcome::PendingTwoFA { email, login_attempt_id, code }) => {
            assert_eq!(email.as_ref(), "u@example.com");
            assert_eq!(login_attempt_id.as_ref().len(), 36);
            assert_eq!(code.as_ref().len(), 6);
            (login_attempt_id, code)
        }
        _ => panic!("a challenge is owed"),
    };
    assert_eq!(
        two_fa_code_store.get_code(&address).unwrap(),
        (first_id.clone(), first_code.clone())
    );

    // a wrong password leaves the challenge alone
    let refused =
        login(&user_store, &mut two_fa_code_store, request("u@example.com", "password124"));
    assert_eq!(refused.err().unwrap(), AuthAPIError::IncorrectCredentials);
    assert_eq!(two_fa_code_store.get_code(&address).unwrap(), (first_id.clone(), first_code));

    // a new login replaces it, under a new id
    let outcome =
        login(&user_store, &mut two_fa_code_store, request("u@example.com", "password123"));
    match outcome {
        Ok(LoginOutcome::PendingTwoFA { login_attempt_id, code, .. }) => {
            assert_ne!(login_attempt_id, first_id);
            assert_eq!(two_fa_code_store.get_code(&address).unwrap(), (login_attempt_id, code));
        }
        _ => panic!("a challenge is owed"),
    }
}

#[test]
fn login_reports_a_failing_store_as_unexpected() {
    let mut two_fa_code_store = HashmapTwoFACodeStore::default();
    let outcome =
        login(&FailingUserStore, &mut two_fa_code_store, request("u@example.com", "password123"));
    assert_eq!(outcome.err().unwrap(), AuthAPIError::UnexpectedError);

    let user_store = registered("u@example.com", "password123", true);
    let outcome = login(
        &user_store,
        &mut FailingTwoFACodeStore,
        request("u@example.com", "password123"),
    );
    assert_eq!(outcome.err().unwrap(), AuthAPIError::UnexpectedError);

    // a store that is not needed is not asked
    let user_store = registered("u@example.com", "password123", false);
    let outcome = login(
        &user_store,
        &mut FailingTwoFACodeStore,
        request("u@example.com", "password123"),
    );
    assert!(outcome.is_ok());
    let outcome =
        login(&FailingUserStore, &mut FailingTwoFACodeStore, request("u@example.com", "short"));
    assert_eq!(outcome.err().unwrap(), AuthAPIError::InvalidCredentials);
}

#[test]
fn login_verdicts() {
    assert_eq!(credentials_verdict(Ok(())), Ok(()));
    assert_eq!(
        credentials_verdict(Err(UserStoreError::UserNotFound)),
        Err(AuthAPIError::IncorrectCredentials)
    );
    assert_eq!(
        credentials_verdict(Err(UserStoreError::InvalidCredentials)),
        Err(AuthAPIError::IncorrectCredentials)
    );
    assert_eq!(
        credentials_verdict(Err(UserStoreError::UnexpectedError)),
        Err(AuthAPIError::UnexpectedError)
    );
    assert_eq!(
        credentials_verdict(Err(UserStoreError::UserAlreadyExists)),
        Err(AuthAPIError::UnexpectedError)
    );

    let email = Email::parse("u@example.com".to_owned()).unwrap();
    let user = User::new(email.clone(), "hash".to_owned(), true);
    let same = account_verdict(Ok(user)).ok().unwrap();
    assert_eq!(same.email.as_ref(), "u@example.com");
    assert_eq!(same.password_hash, "hash");
    assert_eq!(same.requires_2fa, true);
    assert_eq!(
        account_verdict(Err(UserStoreError::UserNotFound)).err().unwrap(),
        AuthAPIError::IncorrectCredentials
    );
    assert_eq!(
        account_verdict(Err(UserStoreError::UnexpectedError)).err().unwrap(),
        AuthAPIError::UnexpectedError
    );

    let id = LoginAttemptId::default();
    let code = TwoFACode::parse("123456".to_owned()).unwrap();
    match challenge_verdict(Ok(()), email.clone(), id.clone(), code.clone()) {
        Ok(LoginOutcome::PendingTwoFA { email, login_attempt_id, code }) => {
            assert_eq!(email.as_ref(), "u@example.com");
            assert_eq!(login_attempt_id, id);
            assert_eq!(code.as_ref(), "123456");
        }
        _ => panic!("a challenge is owed"),
    }
    assert_eq!(
        challenge_verdict(Err(TwoFACodeStoreError::UnexpectedError), email, id, code).err().unwrap(),
        AuthAPIError::UnexpectedError
    );
}
