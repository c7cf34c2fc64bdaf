//! Token verification: the read-only entry point that accepts a token and
//! hands back its subject, or rejects it.
use vstd::prelude::*;

use crate::auth::decode_claims_of;
use crate::auth::token_verdict;
use crate::auth::validate_token;
use crate::auth::validate_token_at;
use crate::auth::Claims;
use crate::auth::TokenCheck;
use crate::auth::TokenValidationError;
use crate::data_stores::BannedTokenStore;
use crate::AuthAPIError;

verus! {

/// A verification call as the transport hands it over.
pub struct VerifyTokenRequest {
    pub token: String,
}

/// Verifies a token as of time `now` and hands back its claims. Every
/// rejection reason is collapsed to one invalid-token error; an
/// infrastructure failure stays distinct from it.
pub fn verify_token_at<BS: BannedTokenStore>(
    banned_token_store: &BS,
    token: &String,
    jwt_key: &Vec<u8>,
    now: u64,
) -> (r: Result<Claims, AuthAPIError>)
    ensures
        match r {
            Ok(c) => token_verdict(banned_token_store.tokens(), token@, jwt_key@, now)
                == TokenCheck::Valid && decode_claims_of(token@, jwt_key@) == Some((c.sub@, c.exp))
                && now < c.exp,
            Err(AuthAPIError::InvalidToken) => token_verdict(
                banned_token_store.tokens(),
                token@,
                jwt_key@,
                now,
            ) != TokenCheck::Valid,
            Err(AuthAPIError::UnexpectedError) => true,
            Err(_) => false,
        },
{
    match validate_token_at(token, banned_token_store, jwt_key, now) {
        Ok(claims) => Ok(claims),
        Err(TokenValidationError::UnexpectedError) => Err(AuthAPIError::UnexpectedError),
        Err(_) => Err(AuthAPIError::InvalidToken),
    }
}

/// Verifies a token against the current time.
pub fn verify_token<BS: BannedTokenStore>(
    banned_token_store: &BS,
    token: &String,
    jwt_key: &Vec<u8>,
) -> (r: Result<Claims, AuthAPIError>)
    ensures
        match r {
            Ok(c) => !banned_token_store.tokens().contains(token@) && decode_claims_of(
                token@,
                jwt_key@,
            ) == Some((c.sub@, c.exp)),
            Err(AuthAPIError::InvalidToken) => true,
            Err(AuthAPIError::UnexpectedError) => true,
            Err(_) => false,
        },
{
    match validate_token(token, banned_token_store, jwt_key) {
        Ok(claims) => Ok(claims),
        Err(TokenValidationError::UnexpectedError) => Err(AuthAPIError::UnexpectedError),
        Err(_) => Err(AuthAPIError::InvalidToken),
    }
}

} // verus!
