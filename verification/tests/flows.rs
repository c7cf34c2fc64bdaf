use auth_service::data_stores::BannedTokenStore;
use auth_service::data_stores::TwoFACodeStore;
use auth_service::email::Email;
use auth_service::email_client::MockEmailClient;
use auth_service::hashmap_two_fa_code_store::HashmapTwoFACodeStore;
use auth_service::hashmap_user_store::HashmapUserStore;
use auth_service::hashset_banned_token_store::HashsetBannedTokenStore;
use auth_service::login::login;
use auth_service::login::login_response_of;
use auth_service::login::LoginOutcome;
use auth_service::login::LoginRequest;
use auth_service::login::LoginResponse;
use auth_service::logout::logout;
use auth_service::signup::signup;
use auth_service::signup::SignupRequest;
use auth_service::verify_2fa::verify_2fa;
use auth_service::verify_2fa::Verify2FARequest;
use auth_service::verify_token::verify_token;
use auth_service::AuthAPIError;

fn key() -> Vec<u8> {
    b"secret".to_vec()
}

fn signup_request(email: &str, password: &str, requires_2fa: bool) -> SignupRequest {
    SignupRequest {
        email: email.to_owned(),
        password: password.to_owned(),
        requires_2fa,
    }
}

fn login_request(email: &str, password: &str) -> LoginRequest {
    LoginRequest { email: email.to_owned(), password: password.to_owned() }
}

#[test]
fn direct_login_lifecycle() {
    let mut users = HashmapUserStore::default();
    let mut two_fa = HashmapTwoFACodeStore::default();
    let mut banned = HashsetBannedTokenStore::default();
    let email_client = MockEmailClient;
    let key = key();

    let created = signup(&mut users, signup_request("a@x.com", "password1", false)).unwrap();
    assert_eq!(created.message, "User created successfully!");

    let outcome = login(&users, &mut two_fa, &email_client, login_request("a@x.com", "password1"), &key)
        .unwrap();
    let token = match outcome {
        LoginOutcome::DirectlyAuthenticated(token) => token,
        LoginOutcome::ChallengeIssued(_) => panic!("no challenge was asked for"),
    };

    let claims = verify_token(&banned, &token, &key).unwrap();
    assert_eq!(claims.sub, "a@x.com");

    logout(&mut banned, Some(token.clone()), &key).unwrap();

    assert_eq!(verify_token(&banned, &token, &key).unwrap_err(), AuthAPIError::InvalidToken);
}

#[test]
fn challenged_login_lifecycle() {
    let mut users = HashmapUserStore::default();
    let mut two_fa = HashmapTwoFACodeStore::default();
    let email_client = MockEmailClient;
    let key = key();

    signup(&mut users, signup_request("b@x.com", "password1", true)).unwrap();

    let outcome = login(&users, &mut two_fa, &email_client, login_request("b@x.com", "password1"), &key)
        .unwrap();
    let attempt_id = match outcome {
        LoginOutcome::ChallengeIssued(id) => id,
        LoginOutcome::DirectlyAuthenticated(_) => panic!("a challenge was asked for"),
    };

    let stored_email = Email::parse("b@x.com".to_owned()).unwrap();
    let (stored_id, stored_code) = two_fa.get_code(&stored_email).unwrap();
    assert_eq!(stored_id.as_str(), attempt_id);
    let code = stored_code.expose().to_owned();

    let wrong_code = if code == "000000" { "000001".to_owned() } else { "000000".to_owned() };
    assert_eq!(
        verify_2fa(
            &mut two_fa,
            Verify2FARequest {
                email: "b@x.com".to_owned(),
                login_attempt_id: attempt_id.clone(),
                two_fa_code: wrong_code,
            },
            &key,
        )
        .unwrap_err(),
        AuthAPIError::IncorrectCredentials
    );

    // The mismatch did not consume the challenge.
    assert!(two_fa.get_code(&stored_email).is_ok());

    let token = verify_2fa(
        &mut two_fa,
        Verify2FARequest {
            email: "b@x.com".to_owned(),
            login_attempt_id: attempt_id.clone(),
            two_fa_code: code.clone(),
        },
        &key,
    )
    .unwrap();
    let banned = HashsetBannedTokenStore::default();
    assert_eq!(verify_token(&banned, &token, &key).unwrap().sub, "b@x.com");

    // The exact same values are spent: the challenge was consumed.
    assert_eq!(
        verify_2fa(
            &mut two_fa,
            Verify2FARequest {
                email: "b@x.com".to_owned(),
                login_attempt_id: attempt_id,
                two_fa_code: code,
            },
            &key,
        )
        .unwrap_err(),
        AuthAPIError::IncorrectCredentials
    );
}

#[test]
fn second_challenge_invalidates_the_first() {
    let mut users = HashmapUserStore::default();
    let mut two_fa = HashmapTwoFACodeStore::default();
    let email_client = MockEmailClient;
    let key = key();

    signup(&mut users, signup_request("c@x.com", "password1", true)).unwrap();

    let first = login(&users, &mut two_fa, &email_client, login_request("c@x.com", "password1"), &key)
        .unwrap();
    let first_id = match first {
        LoginOutcome::ChallengeIssued(id) => id,
        _ => panic!("a challenge was asked for"),
    };
    let stored_email = Email::parse("c@x.com".to_owned()).unwrap();
    let (_, first_code) = two_fa.get_code(&stored_email).unwrap();
    let first_code = first_code.expose().to_owned();

    let second = login(&users, &mut two_fa, &email_client, login_request("c@x.com", "password1"), &key)
        .unwrap();
    let second_id = match second {
        LoginOutcome::ChallengeIssued(id) => id,
        _ => panic!("a challenge was asked for"),
    };
    assert_ne!(first_id, second_id);

    // The first pair is stale although it never expired.
    assert_eq!(
        verify_2fa(
            &mut two_fa,
            Verify2FARequest {
                email: "c@x.com".to_owned(),
                login_attempt_id: first_id,
                two_fa_code: first_code,
            },
            &key,
        )
        .unwrap_err(),
        AuthAPIError::IncorrectCredentials
    );

    // The second challenge is still pending and usable.
    let (stored_id, stored_code) = two_fa.get_code(&stored_email).unwrap();
    assert_eq!(stored_id.as_str(), second_id);
    assert!(verify_2fa(
        &mut two_fa,
        Verify2FARequest {
            email: "c@x.com".to_owned(),
            login_attempt_id: second_id,
            two_fa_code: stored_code.expose().to_owned(),
        },
        &key,
    )
    .is_ok());
}

#[test]
fn signup_twice_fails_with_already_exists() {
    let mut users = HashmapUserStore::default();
    signup(&mut users, signup_request("d@x.com", "password1", false)).unwrap();
    assert_eq!(
        signup(&mut users, signup_request("d@x.com", "otherpassword", true)).unwrap_err(),
        AuthAPIError::UserAlreadyExists
    );
}

#[test]
fn signup_rejects_malformed_input() {
    let mut users = HashmapUserStore::default();
    assert_eq!(
        signup(&mut users, signup_request("not-an-email", "password1", false)).unwrap_err(),
        AuthAPIError::InvalidCredentials
    );
    assert_eq!(
        signup(&mut users, signup_request("e@x.com", "short", false)).unwrap_err(),
        AuthAPIError::InvalidCredentials
    );
}

#[test]
fn login_rejects_wrong_or_unknown_credentials() {
    let mut users = HashmapUserStore::default();
    let mut two_fa = HashmapTwoFACodeStore::default();
    let email_client = MockEmailClient;
    let key = key();

    signup(&mut users, signup_request("f@x.com", "password1", false)).unwrap();

    assert!(matches!(
        login(&users, &mut two_fa, &email_client, login_request("f@x.com", "password2"), &key),
        Err(AuthAPIError::IncorrectCredentials)
    ));
    assert!(matches!(
        login(&users, &mut two_fa, &email_client, login_request("g@x.com", "password1"), &key),
        Err(AuthAPIError::IncorrectCredentials)
    ));
    assert!(matches!(
        login(&users, &mut two_fa, &email_client, login_request("f@x.com", "bad"), &key),
        Err(AuthAPIError::InvalidCredentials)
    ));
}

#[test]
fn verify_2fa_rejects_malformed_input() {
    let mut two_fa = HashmapTwoFACodeStore::default();
    let key = key();
    assert_eq!(
        verify_2fa(
            &mut two_fa,
            Verify2FARequest {
                email: "h@x.com".to_owned(),
                login_attempt_id: "not-a-uuid".to_owned(),
                two_fa_code: "123456".to_owned(),
            },
            &key,
        )
        .unwrap_err(),
        AuthAPIError::InvalidCredentials
    );
    assert_eq!(
        verify_2fa(
            &mut two_fa,
            Verify2FARequest {
                email: "h@x.com".to_owned(),
                login_attempt_id: "67e55044-10b1-426f-9247-bb680e5fe0c8".to_owned(),
                two_fa_code: "12345".to_owned(),
            },
            &key,
        )
        .unwrap_err(),
        AuthAPIError::InvalidCredentials
    );
}

#[test]
fn verify_2fa_without_pending_challenge_is_incorrect() {
    let mut two_fa = HashmapTwoFACodeStore::default();
    assert_eq!(
        verify_2fa(
            &mut two_fa,
            Verify2FARequest {
                email: "i@x.com".to_owned(),
                login_attempt_id: "67e55044-10b1-426f-9247-bb680e5fe0c8".to_owned(),
                two_fa_code: "123456".to_owned(),
            },
            &key(),
        )
        .unwrap_err(),
        AuthAPIError::IncorrectCredentials
    );
}

#[test]
fn logout_without_token_is_missing_token() {
    let mut banned = HashsetBannedTokenStore::default();
    assert_eq!(logout(&mut banned, None, &key()).unwrap_err(), AuthAPIError::MissingToken);
}

#[test]
fn logout_with_invalid_token_revokes_nothing() {
    let mut banned = HashsetBannedTokenStore::default();
    let bad = "not.a.token".to_owned();
    assert_eq!(
        logout(&mut banned, Some(bad.clone()), &key()).unwrap_err(),
        AuthAPIError::InvalidToken
    );
    assert!(!banned.contains_token(&bad).unwrap());
}

#[test]
fn logout_twice_fails_the_second_time() {
    let mut users = HashmapUserStore::default();
    let mut two_fa = HashmapTwoFACodeStore::default();
    let mut banned = HashsetBannedTokenStore::default();
    let email_client = MockEmailClient;
    let key = key();

    signup(&mut users, signup_request("j@x.com", "password1", false)).unwrap();
    let token = match login(
        &users,
        &mut two_fa,
        &email_client,
        login_request("j@x.com", "password1"),
        &key,
    )
    .unwrap()
    {
        LoginOutcome::DirectlyAuthenticated(token) => token,
        _ => panic!("no challenge was asked for"),
    };

    logout(&mut banned, Some(token.clone()), &key).unwrap();
    assert_eq!(
        logout(&mut banned, Some(token), &key).unwrap_err(),
        AuthAPIError::InvalidToken
    );
}

#[test]
fn login_response_reflects_the_outcome() {
    let direct = LoginOutcome::DirectlyAuthenticated("token".to_owned());
    assert_eq!(login_response_of(&direct), LoginResponse::RegularAuth);

    let challenged = LoginOutcome::ChallengeIssued("some-id".to_owned());
    match login_response_of(&challenged) {
        LoginResponse::TwoFactorAuth(t) => {
            assert_eq!(t.message, "2FA required");
            assert_eq!(t.login_attempt_id, "some-id");
        },
        LoginResponse::RegularAuth => panic!("a challenge reply was expected"),
    }
}

#[test]
fn error_messages_match_their_classes() {
    assert_eq!(AuthAPIError::UserAlreadyExists.message(), "User already exists");
    assert_eq!(AuthAPIError::InvalidCredentials.message(), "Invalid credentials");
    assert_eq!(AuthAPIError::IncorrectCredentials.message(), "Incorrect credentials");
    assert_eq!(AuthAPIError::MissingToken.message(), "Missing token");
    assert_eq!(AuthAPIError::InvalidToken.message(), "Invalid token");
    assert_eq!(AuthAPIError::UnexpectedError.message(), "Unexpected error");
    assert_eq!(AuthAPIError::MissingToken.to_response().error, "Missing token");
}
