use auth_service::data_stores::BannedTokenStore;
use auth_service::data_stores::TwoFACodeStore;
use auth_service::data_stores::TwoFACodeStoreError;
use auth_service::data_stores::UserStore;
use auth_service::data_stores::UserStoreError;
use auth_service::email::Email;
use auth_service::hashmap_two_fa_code_store::HashmapTwoFACodeStore;
use auth_service::hashmap_user_store::HashmapUserStore;
use auth_service::hashset_banned_token_store::HashsetBannedTokenStore;
use auth_service::password::Password;
use auth_service::two_fa::LoginAttemptId;
use auth_service::two_fa::TwoFACode;
use auth_service::user::User;

fn new_example_user() -> User {
    User {
        email: Email::parse("john.doe@example.com".to_owned()).unwrap(),
        password: Password::parse("********".to_owned()).unwrap(),
        requires_2fa: true,
    }
}

#[test]
fn test_add_user() {
    let mut store = HashmapUserStore::default();
    let user = new_example_user();
    store.add_user(user.clone()).expect("should add user");
    assert!(store.get_user(&user.email).expect("should hold user") == user);
}

#[test]
fn test_get_user() {
    let user = new_example_user();
    let mut store = HashmapUserStore::default();
    store.add_user(user.clone()).expect("should add user");

    let actual = store.get_user(&user.email).expect("should get user");
    assert!(actual == user);

    let absent = Email::parse("doe@example.com".to_owned()).unwrap();
    assert!(matches!(store.get_user(&absent), Err(UserStoreError::UserNotFound)));
}

#[test]
fn test_validate_user() {
    let user = new_example_user();
    let mut store = HashmapUserStore::default();
    store.add_user(user.clone()).expect("should add user");

    store
        .validate_user(&user.email, &user.password)
        .expect("should validate user");

    assert_eq!(
        store
            .validate_user(&user.email, &Password::parse("12345678".to_owned()).unwrap())
            .unwrap_err(),
        UserStoreError::InvalidCredentials
    );

    assert_eq!(
        store
            .validate_user(&Email::parse("john@example.com".to_owned()).unwrap(), &user.password)
            .unwrap_err(),
        UserStoreError::UserNotFound
    );

    assert_eq!(
        store
            .validate_user(
                &Email::parse("doe@example.com".to_owned()).unwrap(),
                &Password::parse("87654321".to_owned()).unwrap(),
            )
            .unwrap_err(),
        UserStoreError::UserNotFound
    );
}

#[test]
fn add_user_rejects_duplicate_email() {
    let mut store = HashmapUserStore::default();
    let user = new_example_user();
    store.add_user(user.clone()).expect("should add user");

    let again = User {
        email: Email::parse("john.doe@example.com".to_owned()).unwrap(),
        password: Password::parse("otherpass".to_owned()).unwrap(),
        requires_2fa: false,
    };
    assert_eq!(store.add_user(again).unwrap_err(), UserStoreError::UserAlreadyExists);

    // The first record is untouched.
    assert!(store.get_user(&user.email).unwrap() == user);
}

#[test]
fn test_add_code() {
    let mut store = HashmapTwoFACodeStore::default();
    let email = Email::parse("john.doe@example.com".to_owned()).unwrap();
    let login_attempt_id = LoginAttemptId::default();
    let code = TwoFACode::default();

    store
        .add_code(email.clone(), login_attempt_id.clone(), code.clone())
        .expect("should add code");

    assert!(store.get_code(&email).expect("should hold code") == (login_attempt_id, code));
}

#[test]
fn test_remove_code() {
    let email = Email::parse("john.doe@example.com".to_owned()).unwrap();
    let login_attempt_id = LoginAttemptId::default();
    let code = TwoFACode::default();

    let mut store = HashmapTwoFACodeStore::default();
    store
        .add_code(email.clone(), login_attempt_id, code)
        .expect("should add code");

    store.remove_code(&email).expect("should remove code");
    assert!(matches!(
        store.get_code(&email),
        Err(TwoFACodeStoreError::LoginAttemptIdNotFound)
    ));

    // Removing an absent entry is a no-op, not an error.
    store.remove_code(&email).expect("absence is not an error");
}

#[test]
fn test_get_code() {
    let email = Email::parse("john.doe@example.com".to_owned()).unwrap();
    let login_attempt_id = LoginAttemptId::default();
    let code = TwoFACode::default();

    let mut store = HashmapTwoFACodeStore::default();
    store
        .add_code(email.clone(), login_attempt_id.clone(), code.clone())
        .expect("should add code");

    let actual = store.get_code(&email).expect("should get code");
    assert!(actual == (login_attempt_id, code));
}

#[test]
fn add_code_overwrites_pending_challenge() {
    let email = Email::parse("john.doe@example.com".to_owned()).unwrap();
    let first_id = LoginAttemptId::default();
    let first_code = TwoFACode::parse("111111".to_owned()).unwrap();
    let second_id = LoginAttemptId::default();
    let second_code = TwoFACode::parse("222222".to_owned()).unwrap();

    let mut store = HashmapTwoFACodeStore::default();
    store
        .add_code(email.clone(), first_id, first_code)
        .expect("should add code");
    store
        .add_code(email.clone(), second_id.clone(), second_code.clone())
        .expect("should overwrite code");

    assert!(store.get_code(&email).unwrap() == (second_id, second_code));
}

#[test]
fn test_insert_token() {
    let token = "qwerty".to_owned();
    let mut store = HashsetBannedTokenStore::default();
    assert!(!store.contains_token(&token).expect("should answer"));

    store.add_token(token.clone()).expect("should insert token");

    assert!(store.contains_token(&token).expect("should answer"));
}

#[test]
fn test_contains_token() {
    let token = "1234567890".to_owned();

    let mut store = HashsetBannedTokenStore::default();
    store.add_token(token.clone()).expect("should insert token");

    assert!(!store
        .contains_token(&"0987654321".to_owned())
        .expect("should check if the store contains the token"));

    assert!(store
        .contains_token(&token)
        .expect("should check if the store contains the token"));
}
