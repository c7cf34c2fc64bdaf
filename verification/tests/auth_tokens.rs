use auth_service::auth::generate_auth_token;
use auth_service::auth::GenerateTokenError;
use auth_service::auth::generate_auth_token_at;
use auth_service::auth::validate_token;
use auth_service::auth::validate_token_at;
use auth_service::auth::TokenValidationError;
use auth_service::auth::TOKEN_TTL_SECONDS;
use auth_service::data_stores::BannedTokenStore;
use auth_service::email::Email;
use auth_service::hashset_banned_token_store::HashsetBannedTokenStore;
use auth_service::verify_token::verify_token_at;
use auth_service::AuthAPIError;

fn key() -> Vec<u8> {
    b"secret".to_vec()
}

fn example_email() -> Email {
    Email::parse("test@example.com".to_owned()).unwrap()
}

#[test]
fn test_generate_auth_token() {
    let result = generate_auth_token(&example_email(), &key()).unwrap();
    assert_eq!(result.split('.').count(), 3);
}

#[test]
fn test_validate_token_with_valid_token() {
    let token = generate_auth_token(&example_email(), &key()).unwrap();

    let store = HashsetBannedTokenStore::default();
    let result = validate_token(&token, &store, &key()).unwrap();

    assert_eq!(result.sub, "test@example.com");

    let nine_minutes_on = chrono::Utc::now().timestamp() as u64 + 9 * 60;
    assert!(result.exp > nine_minutes_on);
}

#[test]
fn test_validate_token_with_invalid_token() {
    let token = "invalid_token".to_owned();
    let store = HashsetBannedTokenStore::default();
    let result = validate_token(&token, &store, &key());
    assert_eq!(result.unwrap_err(), TokenValidationError::Malformed);
}

#[test]
fn test_validate_token_with_banned_token() {
    let token = generate_auth_token(&example_email(), &key()).unwrap();
    let mut store = HashsetBannedTokenStore::default();
    store.add_token(token.clone()).unwrap();

    let result = validate_token(&token, &store, &key());
    assert_eq!(result.unwrap_err(), TokenValidationError::Revoked);
}

#[test]
fn issued_token_carries_the_fixed_ttl() {
    let now = 1_700_000_000u64;
    let token = generate_auth_token_at(&example_email(), &key(), now).unwrap();
    let store = HashsetBannedTokenStore::default();
    let claims = validate_token_at(&token, &store, &key(), now).unwrap();
    assert_eq!(claims.sub, "test@example.com");
    assert_eq!(claims.exp, now + TOKEN_TTL_SECONDS);
}

#[test]
fn token_expires_after_its_ttl() {
    let now = 1_700_000_000u64;
    let token = generate_auth_token_at(&example_email(), &key(), now).unwrap();
    let store = HashsetBannedTokenStore::default();

    // Just before expiry it still validates.
    assert!(validate_token_at(&token, &store, &key(), now + TOKEN_TTL_SECONDS - 1).is_ok());

    // At and after its expiry it is rejected as expired.
    assert_eq!(
        validate_token_at(&token, &store, &key(), now + TOKEN_TTL_SECONDS).unwrap_err(),
        TokenValidationError::Expired
    );
}

#[test]
fn tampered_token_is_rejected() {
    let now = 1_700_000_000u64;
    let token = generate_auth_token_at(&example_email(), &key(), now).unwrap();
    let store = HashsetBannedTokenStore::default();

    // Flip a character of the signature part.
    let mut tampered = token.clone();
    let last = tampered.pop().unwrap();
    tampered.push(if last == 'A' { 'B' } else { 'A' });
    assert_eq!(
        validate_token_at(&tampered, &store, &key(), now).unwrap_err(),
        TokenValidationError::Malformed
    );
}

#[test]
fn token_signed_with_another_key_is_rejected() {
    let now = 1_700_000_000u64;
    let token = generate_auth_token_at(&example_email(), &key(), now).unwrap();
    let store = HashsetBannedTokenStore::default();
    let other_key = b"another-secret".to_vec();
    assert_eq!(
        validate_token_at(&token, &store, &other_key, now).unwrap_err(),
        TokenValidationError::Malformed
    );
}

#[test]
fn revocation_wins_over_expiry_in_the_reported_reason() {
    let now = 1_700_000_000u64;
    let token = generate_auth_token_at(&example_email(), &key(), now).unwrap();
    let mut store = HashsetBannedTokenStore::default();
    store.add_token(token.clone()).unwrap();

    // Long past expiry, the ledger still answers first.
    assert_eq!(
        validate_token_at(&token, &store, &key(), now + 10 * TOKEN_TTL_SECONDS).unwrap_err(),
        TokenValidationError::Revoked
    );
}

#[test]
fn verify_token_collapses_reasons_to_invalid_token() {
    let now = 1_700_000_000u64;
    let store = HashsetBannedTokenStore::default();
    let garbage = "not.a.token".to_owned();
    assert_eq!(
        verify_token_at(&store, &garbage, &key(), now).unwrap_err(),
        AuthAPIError::InvalidToken
    );

    let token = generate_auth_token_at(&example_email(), &key(), now).unwrap();
    let claims = verify_token_at(&store, &token, &key(), now).unwrap();
    assert_eq!(claims.sub, "test@example.com");
}

#[test]
fn issue_fails_when_the_expiry_cannot_be_represented() {
    let result = generate_auth_token_at(&example_email(), &key(), u64::MAX - 1);
    assert_eq!(result.unwrap_err(), GenerateTokenError::UnexpectedError);
}
