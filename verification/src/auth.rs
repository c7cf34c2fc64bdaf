//! The token service: issues signed, time-bounded session tokens and
//! validates them against the revoked-token ledger, the signature and the
//! expiry, in that order.
use vstd::prelude::*;

use crate::data_stores::BannedTokenStore;
use crate::data_stores::BannedTokenStoreError;
use crate::email::Email;

verus! {

/// How long an issued token stays valid, in seconds.
pub const TOKEN_TTL_SECONDS: u64 = 600;

/// The claims a session token asserts: the subject email and the absolute
/// expiry, in seconds since the Unix epoch.
#[derive(Debug)]
pub struct Claims {
    pub sub: String,
    pub exp: u64,
}

/// The subject and expiry a token carries for a given key, when its
/// structure and signature are good; `None` otherwise. Names the
/// time-independent part of `jsonwebtoken::decode`, a function of the token
/// and the key alone.
pub uninterp spec fn decode_claims_of(token: Seq<char>, key: Seq<u8>) -> Option<(Seq<char>, u64)>;

/// Relies on `jsonwebtoken::encode` with the default HS256 header over a
/// claims object of `sub` and `exp`: what it signs, `jsonwebtoken::decode`
/// with the same key reads back. For this header, key and claims shape the
/// call cannot fail: the key family matches the header's algorithm, the
/// claims object always serializes, and the HMAC takes a key of any length.
#[verifier::external_body]
fn jwt_encode(sub: &String, exp: u64, key: &Vec<u8>) -> (r: String)
    ensures
        decode_claims_of(r@, key@) == Some((sub@, exp)),
{
    let mut claims = serde_json::Map::new();
    claims.insert("sub".to_owned(), serde_json::Value::String(sub.clone()));
    claims.insert("exp".to_owned(), serde_json::Value::from(exp));
    jsonwebtoken::encode(
        &jsonwebtoken::Header::default(),
        &serde_json::Value::Object(claims),
        &jsonwebtoken::EncodingKey::from_secret(key.as_slice()),
    ).expect("HS256 signing of a sub/exp claims object does not fail")
}

/// Relies on `jsonwebtoken::decode` over HS256 with expiry checking turned
/// off: parses the token, checks its signature against the key and hands
/// out the `sub` and `exp` claims; the expiry is judged by the caller.
#[verifier::external_body]
fn jwt_decode(token: &str, key: &Vec<u8>) -> (r: Result<(String, u64), ()>)
    ensures
        r matches Ok(p) ==> decode_claims_of(token@, key@) == Some((p.0@, p.1)),
        r is Err ==> decode_claims_of(token@, key@) is None,
{
    let mut validation = jsonwebtoken::Validation::default();
    validation.validate_exp = false;
    validation.required_spec_claims.insert("sub".to_owned());
    let data = jsonwebtoken::decode::<serde_json::Value>(
        token,
        &jsonwebtoken::DecodingKey::from_secret(key.as_slice()),
        &validation,
    ).map_err(|_| ())?;
    let sub = data.claims.get("sub").and_then(|v| v.as_str()).ok_or(())?.to_owned();
    let exp = data.claims.get("exp").and_then(|v| v.as_u64()).ok_or(())?;
    Ok((sub, exp))
}

/// Relies on `chrono::Utc::now`: the current time in seconds since the Unix
/// epoch. Nothing is assumed of the value.
#[verifier::external_body]
pub(crate) fn unix_now() -> (r: i64) {
    chrono::Utc::now().timestamp()
}

/// How issuing a token can fail.
#[derive(Clone, Copy, Debug, PartialEq, Eq, Structural)]
pub enum GenerateTokenError {
    TokenError,
    UnexpectedError,
}

/// Why a token was rejected. The reasons are kept apart here; the outward
/// error collapses them so that a caller cannot tell them apart.
#[derive(Clone, Copy, Debug, PartialEq, Eq, Structural)]
pub enum TokenValidationError {
    Revoked,
    Malformed,
    Expired,
    UnexpectedError,
}

/// The verdict on a token at a moment in time, against a ledger and a key:
/// the ledger is consulted first, then the signature, then the expiry.
#[derive(Clone, Copy, Debug, PartialEq, Eq, Structural)]
pub enum TokenCheck {
    Revoked,
    Malformed,
    Expired,
    Valid,
}

/// What validation decides for a token at time `now`, given the revoked set
/// and the signing key.
pub open spec fn token_verdict(
    banned: Set<Seq<char>>,
    token: Seq<char>,
    key: Seq<u8>,
    now: u64,
) -> TokenCheck {
    if banned.contains(token) {
        TokenCheck::Revoked
    } else {
        match decode_claims_of(token, key) {
            None => TokenCheck::Malformed,
            Some((sub, exp)) => if now < exp {
                TokenCheck::Valid
            } else {
                TokenCheck::Expired
            },
        }
    }
}

/// Issues a token for `email` as of time `now`: subject `email`, expiry
/// `now` plus the fixed TTL. Succeeds exactly when that expiry can be
/// represented.
pub fn generate_auth_token_at(email: &Email, key: &Vec<u8>, now: u64) -> (r: Result<
    String,
    GenerateTokenError,
>)
    ensures
        r is Ok <==> now + TOKEN_TTL_SECONDS <= u64::MAX,
        r matches Ok(t) ==> decode_claims_of(t@, key@) == Some((
            email@,
            (now + TOKEN_TTL_SECONDS) as u64,
        )),
        r is Err ==> r == Err::<String, GenerateTokenError>(GenerateTokenError::UnexpectedError),
{
    if now > u64::MAX - TOKEN_TTL_SECONDS {
        return Err(GenerateTokenError::UnexpectedError);
    }
    let exp = now + TOKEN_TTL_SECONDS;
    let sub = email.as_str().to_owned();
    Ok(jwt_encode(&sub, exp, key))
}

/// Issues a token for `email` expiring one TTL from the current time; fails
/// only if the clock answers before the epoch or too near the end of the
/// representable range.
pub fn generate_auth_token(email: &Email, key: &Vec<u8>) -> (r: Result<String, GenerateTokenError>)
    ensures
        r matches Ok(t) ==> exists|exp: u64| decode_claims_of(t@, key@) == Some((email@, exp)),
        r is Err ==> r == Err::<String, GenerateTokenError>(GenerateTokenError::UnexpectedError),
{
    let ts = unix_now();
    if ts < 0 {
        return Err(GenerateTokenError::UnexpectedError);
    }
    generate_auth_token_at(email, key, ts as u64)
}

/// Validates a token as of time `now`: rejected if the ledger holds it,
/// then if its structure or signature is bad, then if it is expired; on
/// success returns the decoded claims. A ledger failure is surfaced, never
/// read as "not revoked".
pub fn validate_token_at<BS: BannedTokenStore>(
    token: &String,
    banned_token_store: &BS,
    key: &Vec<u8>,
    now: u64,
) -> (r: Result<Claims, TokenValidationError>)
    ensures
        match r {
            Ok(c) => token_verdict(banned_token_store.tokens(), token@, key@, now)
                == TokenCheck::Valid && decode_claims_of(token@, key@) == Some((c.sub@, c.exp))
                && now < c.exp,
            Err(TokenValidationError::Revoked) => token_verdict(
                banned_token_store.tokens(),
                token@,
                key@,
                now,
            ) == TokenCheck::Revoked,
            Err(TokenValidationError::Malformed) => token_verdict(
                banned_token_store.tokens(),
                token@,
                key@,
                now,
            ) == TokenCheck::Malformed,
            Err(TokenValidationError::Expired) => token_verdict(
                banned_token_store.tokens(),
                token@,
                key@,
                now,
            ) == TokenCheck::Expired,
            Err(TokenValidationError::UnexpectedError) => true,
        },
{
    let banned = match banned_token_store.contains_token(token) {
        Ok(b) => b,
        Err(BannedTokenStoreError::UnexpectedError) => {
            return Err(TokenValidationError::UnexpectedError);
        },
    };
    if banned {
        return Err(TokenValidationError::Revoked);
    }
    match jwt_decode(token.as_str(), key) {
        Err(()) => Err(TokenValidationError::Malformed),
        Ok((sub, exp)) => {
            if now < exp {
                Ok(Claims { sub, exp })
            } else {
                Err(TokenValidationError::Expired)
            }
        },
    }
}

/// Validates a token against the current time.
pub fn validate_token<BS: BannedTokenStore>(
    token: &String,
    banned_token_store: &BS,
    key: &Vec<u8>,
) -> (r: Result<Claims, TokenValidationError>)
    ensures
        match r {
            Ok(c) => !banned_token_store.tokens().contains(token@) && decode_claims_of(
                token@,
                key@,
            ) == Some((c.sub@, c.exp)),
            Err(TokenValidationError::Revoked) => banned_token_store.tokens().contains(token@),
            Err(TokenValidationError::Malformed) => !banned_token_store.tokens().contains(token@)
                && decode_claims_of(token@, key@) is None,
            Err(TokenValidationError::Expired) => !banned_token_store.tokens().contains(token@)
                && decode_claims_of(token@, key@) is Some,
            Err(TokenValidationError::UnexpectedError) => true,
        },
{
    let ts = unix_now();
    let now: u64 = if ts < 0 {
        0
    } else {
        ts as u64
    };
    validate_token_at(token, banned_token_store, key, now)
}

} // verus!
