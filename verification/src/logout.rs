//! Logout: validates the presented token and records it in the revoked-token
//! ledger, so it is rejected from then on even though its signature stays
//! good.
use vstd::prelude::*;

use crate::auth::token_verdict;
use crate::auth::validate_token_at;
use crate::auth::TokenCheck;
use crate::auth::TokenValidationError;
use crate::data_stores::BannedTokenStore;
use crate::AuthAPIError;

verus! {

/// How a logout call ends, barring infrastructure failure.
#[derive(Clone, Copy, Debug, PartialEq, Eq, Structural)]
pub enum LogoutVerdict {
    Missing,
    Rejected,
    Revoked,
}

/// What logout decides at time `now` for a presented token, the revoked set
/// and the signing key.
pub open spec fn logout_verdict(
    banned: Set<Seq<char>>,
    token: Option<Seq<char>>,
    key: Seq<u8>,
    now: u64,
) -> LogoutVerdict {
    match token {
        None => LogoutVerdict::Missing,
        Some(t) => if token_verdict(banned, t, key, now) == TokenCheck::Valid {
            LogoutVerdict::Revoked
        } else {
            LogoutVerdict::Rejected
        },
    }
}

/// The revoked set after a logout call: the token is added exactly when the
/// call revokes it.
pub open spec fn logout_next(
    banned: Set<Seq<char>>,
    token: Option<Seq<char>>,
    key: Seq<u8>,
    now: u64,
) -> Set<Seq<char>> {
    if logout_verdict(banned, token, key, now) == LogoutVerdict::Revoked {
        banned.insert(token.unwrap())
    } else {
        banned
    }
}

/// Logs out as of time `now`: an absent token is a protocol error, an
/// invalid one is rejected without revoking anything new, and a valid one
/// is recorded as revoked.
pub fn logout_at<BS: BannedTokenStore>(
    banned_token_store: &mut BS,
    token: Option<String>,
    jwt_key: &Vec<u8>,
    now: u64,
) -> (r: Result<(), AuthAPIError>)
    ensures
        ({
            let before = old(banned_token_store).tokens();
            let after = final(banned_token_store).tokens();
            let t_view = match token {
                Some(t) => Some(t@),
                None => None,
            };
            let verdict = logout_verdict(before, t_view, jwt_key@, now);
            match r {
                Ok(()) => verdict == LogoutVerdict::Revoked && after == logout_next(
                    before,
                    t_view,
                    jwt_key@,
                    now,
                ),
                Err(AuthAPIError::MissingToken) => verdict == LogoutVerdict::Missing && after
                    == before,
                Err(AuthAPIError::InvalidToken) => verdict == LogoutVerdict::Rejected && after
                    == before,
                Err(AuthAPIError::UnexpectedError) => token is Some && after == before,
                Err(_) => false,
            }
        }),
{
    let token = match token {
        Some(t) => t,
        None => {
            return Err(AuthAPIError::MissingToken);
        },
    };
    match validate_token_at(&token, banned_token_store, jwt_key, now) {
        Ok(_) => (),
        Err(TokenValidationError::UnexpectedError) => {
            return Err(AuthAPIError::UnexpectedError);
        },
        Err(_) => {
            return Err(AuthAPIError::InvalidToken);
        },
    }
    match banned_token_store.add_token(token) {
        Ok(()) => Ok(()),
        Err(_) => Err(AuthAPIError::UnexpectedError),
    }
}

/// Logs out against the current time.
pub fn logout<BS: BannedTokenStore>(
    banned_token_store: &mut BS,
    token: Option<String>,
    jwt_key: &Vec<u8>,
) -> (r: Result<(), AuthAPIError>)
    ensures
        ({
            let before = old(banned_token_store).tokens();
            let after = final(banned_token_store).tokens();
            match r {
                Ok(()) => token matches Some(t) && !before.contains(t@) && after == before.insert(
                    t@,
                ),
                Err(AuthAPIError::MissingToken) => token is None && after == before,
                Err(AuthAPIError::InvalidToken) => token is Some && after == before,
                Err(AuthAPIError::UnexpectedError) => token is Some && after == before,
                Err(_) => false,
            }
        }),
{
    let ts = crate::auth::unix_now();
    let now: u64 = if ts < 0 {
        0
    } else {
        ts as u64
    };
    logout_at(banned_token_store, token, jwt_key, now)
}

} // verus!
