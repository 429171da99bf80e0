use auth_service::domain::password::has_stored_costs;
use auth_service::domain::password::hash_password;
use auth_service::domain::password::password_matches;
use auth_service::domain::password::stored_hash;
use auth_service::domain::BannedTokenStore;
use auth_service::domain::Email;
use auth_service::domain::LoginAttemptId;
use auth_service::domain::Password;
use auth_service::domain::TwoFACode;
use auth_service::domain::TwoFACodeStore;
use auth_service::domain::TwoFACodeStoreError;
use auth_service::domain::User;
use auth_service::domain::UserStore;
use auth_service::domain::UserStoreError;
use auth_service::services::HashSetBannedTokenStore;
use auth_service::services::HashmapTwoFACodeStore;
use auth_service::services::HashmapUserStore;

#[test]
fn test_add_code() {
    let mut store = HashmapTwoFACodeStore::default();

    let email = Email::parse(String::from("test@example.com")).unwrap();
    let uuid = uuid::Uuid::new_v4().to_string();
    let login_attempt_id = LoginAttemptId::parse(uuid).unwrap();
    let code = TwoFACode::parse(String::from("123456")).unwrap();

    let result = store.add_code(email.clone(), login_attempt_id.clone(), code.clone());

    assert!(result.is_ok());
    let stored_code = store.get_code(&email).ok();
    assert!(stored_code.is_some());
    assert_eq!((login_attempt_id, code), stored_code.unwrap());
}

#[test]
fn test_remove_code() {
    let mut store = HashmapTwoFACodeStore::default();

    let email = Email::parse(String::from("test@example.com")).unwrap();
    let uuid = uuid::Uuid::new_v4().to_string();
    let login_attempt_id = LoginAttemptId::parse(uuid).unwrap();
    let code = TwoFACode::parse(String::from("123456")).unwrap();

    store.add_code(email.clone(), login_attempt_id, code).unwrap();
    assert!(store.get_code(&email).is_ok());

    let result = store.remove_code(&email);
    assert!(result.is_ok());

    assert!(store.get_code(&email).is_err());
}

#[test]
fn test_get_code() {
    let mut store = HashmapTwoFACodeStore::default();

    let email = Email::parse(String::from("test@example.com")).unwrap();
    let result = store.get_code(&email);
    assert!(result.is_err());
    assert_eq!(TwoFACodeStoreError::LoginAttemptIdNotFound, result.err().unwrap());

    let uuid = uuid::Uuid::new_v4().to_string();
    let login_attempt_id = LoginAttemptId::parse(uuid).unwrap();
    let code = TwoFACode::parse(String::from("123456")).unwrap();

    store.add_code(email.clone(), login_attempt_id.clone(), code.clone()).unwrap();
    let result = store.get_code(&email);

    assert!(result.is_ok());
    assert_eq!((login_attempt_id, code), result.unwrap());
}

#[test]
fn a_new_code_replaces_the_pending_one() {
    let mut store = HashmapTwoFACodeStore::default();
    let email = Email::parse(String::from("test@example.com")).unwrap();
    let other = Email::parse(String::from("other@example.com")).unwrap();
    let first_id = LoginAttemptId::default();
    let second_id = LoginAttemptId::default();
    let first_code = TwoFACode::parse(String::from("111111")).unwrap();
    let second_code = TwoFACode::parse(String::from("222222")).unwrap();

    store.add_code(email.clone(), first_id.clone(), first_code.clone()).unwrap();
    store.add_code(other.clone(), first_id.clone(), first_code.clone()).unwrap();
    store.add_code(email.clone(), second_id.clone(), second_code.clone()).unwrap();

    assert_eq!(store.get_code(&email).unwrap(), (second_id, second_code));
    assert_eq!(store.get_code(&other).unwrap(), (first_id, first_code));
}

#[test]
fn removing_a_code_that_is_not_there_is_no_error() {
    let mut store = HashmapTwoFACodeStore::default();
    let email = Email::parse(String::from("test@example.com")).unwrap();
    assert!(store.remove_code(&email).is_ok());
    assert!(store.remove_code(&email).is_ok());
    assert_eq!(
        store.get_code(&email).err().unwrap(),
        TwoFACodeStoreError::LoginAttemptIdNotFound
    );
}

#[test]
fn test_add_user() {
    let mut store = HashmapUserStore::default();

    // First time user is added should return Ok(())
    let email = Email::parse("blah@".to_owned()).unwrap();
    let user = User::new(email, "blah".to_owned(), false);
    let result = store.add_user(user.clone());
    assert!(result.is_ok());

    // Second time user is added should return Err(UserStoreError::UserAlreadyExists)
    let result = store.add_user(user);
    assert!(result.is_err());

    let err = result.err().unwrap();
    assert_eq!(UserStoreError::UserAlreadyExists, err);
}

#[test]
fn test_get_user() {
    let mut store = HashmapUserStore::default();

    let email = Email::parse("blah@".to_owned()).unwrap();
    let user = User::new(email.clone(), "blah".to_owned(), false);

    let user_result = store.get_user(&email);
    assert!(user_result.is_err());
    assert_eq!(UserStoreError::UserNotFound, user_result.err().unwrap());

    let result = store.add_user(user.clone());
    assert!(result.is_ok());

    let user_result = store.get_user(&email);
    assert!(result.is_ok());

    let returned_user = user_result.ok().unwrap();
    assert_eq!(email.as_ref(), returned_user.email.as_ref());
}

#[test]
fn get_user_gives_back_the_stored_hash_and_flag() {
    let mut store = HashmapUserStore::default();
    let first = Email::parse("first@example.com".to_owned()).unwrap();
    let second = Email::parse("second@example.com".to_owned()).unwrap();
    store.add_user(User::new(first.clone(), "hash of the first".to_owned(), true)).unwrap();
    store.add_user(User::new(second.clone(), "hash of the second".to_owned(), false)).unwrap();
    // the refused one must not overwrite
    assert!(store.add_user(User::new(first.clone(), "another".to_owned(), false)).is_err());

    let found = store.get_user(&first).ok().unwrap();
    assert_eq!(found.email.as_ref(), "first@example.com");
    assert_eq!(found.password_hash, "hash of the first");
    assert_eq!(found.requires_2fa, true);
    let found = store.get_user(&second).ok().unwrap();
    assert_eq!(found.password_hash, "hash of the second");
    assert_eq!(found.requires_2fa, false);
}

#[test]
fn validate_user_tells_missing_wrong_and_right_apart() {
    let mut store = HashmapUserStore::default();

    let email = Email::parse("blah@".to_owned()).unwrap();
    let password = Password::parse("blahblah".to_owned()).unwrap();

    let validation_result = store.validate_user(&email, &password);
    assert_eq!(UserStoreError::UserNotFound, validation_result.err().unwrap());

    let user = User::new(email.clone(), hash_password(&password).unwrap(), false);
    let result = store.add_user(user.clone());
    assert!(result.is_ok());

    let wrong = Password::parse("wrong password".to_owned()).unwrap();
    let validation_result = store.validate_user(&email, &wrong);
    assert_eq!(UserStoreError::InvalidCredentials, validation_result.err().unwrap());

    let validation_result = store.validate_user(&email, &password);
    assert!(validation_result.is_ok());
}

#[test]
fn validate_user_refuses_a_hash_that_is_none() {
    let mut store = HashmapUserStore::default();
    let email = Email::parse("blah@".to_owned()).unwrap();
    let password = Password::parse("password123".to_owned()).unwrap();
    // the password itself in place of its hash
    store.add_user(User::new(email.clone(), "password123".to_owned(), false)).unwrap();
    assert_eq!(
        store.validate_user(&email, &password).err().unwrap(),
        UserStoreError::InvalidCredentials
    );
}

#[test]
fn a_hash_is_salted_and_verifies_its_password_only() {
    let password = Password::parse("password123".to_owned()).unwrap();
    let other = Password::parse("password124".to_owned()).unwrap();
    let first = hash_password(&password).unwrap();
    let second = hash_password(&password).unwrap();
    assert_ne!(first, "password123");
    assert_ne!(first, second);
    assert!(first.starts_with("$argon2id$v=19$m=15000,t=2,p=1$"));
    assert!(password_matches(&first, &password));
    assert!(password_matches(&second, &password));
    assert!(!password_matches(&first, &other));
    assert!(!password_matches("", &password));
    assert!(!password_matches("not a hash", &password));
}

#[test]
fn test_add_token() {
    let mut store = HashSetBannedTokenStore::default();

    let add_token_result = store.add_token(String::from("anything"));

    assert!(add_token_result.is_ok());
}

#[test]
fn test_is_banned() {
    let mut store = HashSetBannedTokenStore::default();

    store.add_token(String::from("anything")).unwrap();

    let is_banned_result = store.is_banned("anything else");
    assert!(is_banned_result.is_ok());

    let banned = is_banned_result.unwrap();
    assert!(!banned);
}

#[test]
fn a_banned_token_stays_banned() {
    let mut store = HashSetBannedTokenStore::default();
    assert_eq!(store.contains_token("anything").unwrap(), false);
    store.add_token(String::from("anything")).unwrap();
    assert_eq!(store.is_banned("anything").unwrap(), true);
    assert_eq!(store.contains_token("anything").unwrap(), true);
    // banning twice is no error
    assert!(store.add_token(String::from("anything")).is_ok());
    assert_eq!(store.contains_token("anything").unwrap(), true);
    assert_eq!(store.contains_token("Anything").unwrap(), false);
    assert_eq!(store.contains_token("").unwrap(), false);
}

#[test]
fn the_answer_of_the_hasher_is_stored_as_it_is() {
    let text = String::from("$argon2id$text");
    assert_eq!(stored_hash(Ok(text.clone())), Some(text));
    assert_eq!(stored_hash(Ok(String::new())), Some(String::new()));
    assert_eq!(stored_hash(Err(argon2::password_hash::Error::Password)), None);
    assert_eq!(stored_hash(Err(argon2::password_hash::Error::Algorithm)), None);
}

#[test]
fn a_password_is_always_hashed_at_the_costs_of_the_store() {
    let accented = "\u{00e9}".repeat(8);
    for text in ["password", "password123", "a much longer password, with spaces", &accented] {
        let password = Password::parse(text.to_owned()).unwrap();
        let hash = hash_password(&password).unwrap();
        assert!(has_stored_costs(&hash));
        assert!(password_matches(&hash, &password));
    }
}

#[test]
fn a_text_at_other_costs_is_no_stored_hash() {
    assert!(has_stored_costs("$argon2id$v=19$m=15000,t=2,p=1$"));
    assert!(has_stored_costs("$argon2id$v=19$m=15000,t=2,p=1$c29tZXNhbHQ$aGFzaGhhc2hoYXNo"));
    for text in [
        "",
        "$",
        "$argon2id$v=19$m=15000,t=2,p=1",
        "$argon2id$v=19$m=15000,t=2,p=10$c29tZXNhbHQ$aGFzaGhhc2hoYXNo",
        "$argon2id$v=19$m=15001,t=2,p=1$c29tZXNhbHQ$aGFzaGhhc2hoYXNo",
        "$argon2i$v=19$m=15000,t=2,p=1$c29tZXNhbHQ$aGFzaGhhc2hoYXNo",
        "$argon2id$v=16$m=15000,t=2,p=1$c29tZXNhbHQ$aGFzaGhhc2hoYXNo",
        "$argon2id$m=15000,t=2,p=1$c29tZXNhbHQ$aGFzaGhhc2hoYXNo",
        " $argon2id$v=19$m=15000,t=2,p=1$c29tZXNhbHQ$aGFzaGhhc2hoYXNo",
        "\u{00e9}argon2id$v=19$m=15000,t=2,p=1$c29tZXNhbHQ$aGFzaGhhc2hoYXNo",
    ] {
        assert!(!has_stored_costs(text), "{text}");
    }
}

#[test]
fn a_text_with_costs_of_its_own_choosing_is_refused_unread() {
    let password = Password::parse("password123".to_owned()).unwrap();
    // more lanes than the hasher can count eight times over
    let crafted = "$argon2id$v=19$m=4294967295,t=1,p=536870912$c29tZXNhbHQ$aGFzaGhhc2hoYXNo";
    assert!(!password_matches(crafted, &password));
    // a memory that no machine has
    let crafted = "$argon2id$v=19$m=4294967295,t=4294967295,p=1$c29tZXNhbHQ$aGFzaGhhc2hoYXNo";
    assert!(!password_matches(crafted, &password));

    let mut store = HashmapUserStore::default();
    let email = Email::parse("blah@".to_owned()).unwrap();
    let crafted = "$argon2id$v=19$m=4294967295,t=1,p=536870912$c29tZXNhbHQ$aGFzaGhhc2hoYXNo";
    store.add_user(User::new(email.clone(), crafted.to_owned(), false)).unwrap();
    assert_eq!(
        store.validate_user(&email, &password).err().unwrap(),
        UserStoreError::InvalidCredentials
    );
}

#[test]
fn a_stored_hash_that_is_cut_short_matches_nothing() {
    let password = Password::parse("password123".to_owned()).unwrap();
    let hash = hash_password(&password).unwrap();
    assert!(!password_matches("$argon2id$v=19$m=15000,t=2,p=1$", &password));
    assert!(!password_matches(&hash[..hash.len() - 1], &password));
    assert!(!password_matches(&format!("{hash}$more"), &password));
    assert!(!password_matches("$argon2id$v=19$m=15000,t=2,p=1$$", &password));
    assert!(!password_matches("$argon2id$v=19$m=15000,t=2,p=1$p=536870912$x", &password));
}
