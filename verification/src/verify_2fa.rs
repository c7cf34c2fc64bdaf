//! Second-factor verification: checks the echoed attempt identifier and
//! one-time code against the pending challenge, consumes the challenge on an
//! exact match, and establishes the session.
use vstd::prelude::*;

use crate::auth::decode_claims_of;
use crate::auth::generate_auth_token;
use crate::data_stores::TwoFACodeStore;
use crate::data_stores::TwoFACodeStoreError;
use crate::email::email_grammar;
use crate::email::Email;
use crate::two_fa::two_fa_code_format;
use crate::two_fa::uuid_syntax;
use crate::two_fa::LoginAttemptId;
use crate::two_fa::TwoFACode;
use crate::AuthAPIError;

verus! {

/// A verification call as the transport hands it over.
pub struct Verify2FARequest {
    pub email: String,
    pub login_attempt_id: String,
    pub two_fa_code: String,
}

/// Whether the raw verification inputs pass validation.
pub open spec fn verify_2fa_inputs_ok(
    email_raw: Seq<char>,
    attempt_id_raw: Seq<char>,
    code_raw: Seq<char>,
) -> bool {
    email_grammar(email_raw) && uuid_syntax(attempt_id_raw) && two_fa_code_format(code_raw)
}

/// How a verification call ends, barring infrastructure failure.
#[derive(Clone, Copy, Debug, PartialEq, Eq, Structural)]
pub enum TwoFAVerdict {
    Invalid,
    Incorrect,
    Established,
}

/// What verification decides for the pending challenges and raw inputs. A
/// missing challenge and a mismatched pair end alike, and a mismatch does
/// not consume the challenge.
pub open spec fn verify_2fa_verdict(
    codes: Map<Seq<char>, (Seq<char>, Seq<char>)>,
    email_raw: Seq<char>,
    attempt_id_raw: Seq<char>,
    code_raw: Seq<char>,
) -> TwoFAVerdict {
    if !verify_2fa_inputs_ok(email_raw, attempt_id_raw, code_raw) {
        TwoFAVerdict::Invalid
    } else if !codes.contains_key(email_raw) || codes[email_raw] != (attempt_id_raw, code_raw) {
        TwoFAVerdict::Incorrect
    } else {
        TwoFAVerdict::Established
    }
}

/// The pending challenges after a verification call: the challenge is
/// consumed exactly when the call establishes the session.
pub open spec fn verify_2fa_next(
    codes: Map<Seq<char>, (Seq<char>, Seq<char>)>,
    email_raw: Seq<char>,
    attempt_id_raw: Seq<char>,
    code_raw: Seq<char>,
) -> Map<Seq<char>, (Seq<char>, Seq<char>)> {
    if verify_2fa_verdict(codes, email_raw, attempt_id_raw, code_raw)
        == TwoFAVerdict::Established {
        codes.remove(email_raw)
    } else {
        codes
    }
}

/// Completes a challenged login: on an exact match of the stored pair the
/// challenge is removed — making the code single-use — and a session token
/// for the email is handed back; on a mismatch the challenge stays, so the
/// caller may retry. An infrastructure failure after the challenge was
/// consumed leaves it consumed and no token out.
pub fn verify_2fa<TS: TwoFACodeStore>(
    two_fa_code_store: &mut TS,
    request: Verify2FARequest,
    jwt_key: &Vec<u8>,
) -> (r: Result<String, AuthAPIError>)
    ensures
        ({
            let before = old(two_fa_code_store).codes();
            let after = final(two_fa_code_store).codes();
            let e = request.email@;
            let verdict = verify_2fa_verdict(
                before,
                e,
                request.login_attempt_id@,
                request.two_fa_code@,
            );
            let next = verify_2fa_next(before, e, request.login_attempt_id@, request.two_fa_code@);
            match r {
                Ok(token) => verdict == TwoFAVerdict::Established && after == next && (
                exists|exp: u64| decode_claims_of(token@, jwt_key@) == Some((e, exp))),
                Err(AuthAPIError::InvalidCredentials) => verdict == TwoFAVerdict::Invalid && after
                    == before,
                Err(AuthAPIError::IncorrectCredentials) => verdict == TwoFAVerdict::Incorrect
                    && after == before,
                Err(AuthAPIError::UnexpectedError) => verdict != TwoFAVerdict::Invalid && (after
                    == before || (verdict == TwoFAVerdict::Established && after == before.remove(
                    e,
                ))),
                Err(_) => false,
            }
        }),
{
    let Verify2FARequest { email, login_attempt_id, two_fa_code } = request;
    let email = match Email::parse(email) {
        Ok(e) => e,
        Err(_) => {
            return Err(AuthAPIError::InvalidCredentials);
        },
    };
    let login_attempt_id = match LoginAttemptId::parse(login_attempt_id) {
        Ok(id) => id,
        Err(_) => {
            return Err(AuthAPIError::InvalidCredentials);
        },
    };
    let two_fa_code = match TwoFACode::parse(two_fa_code) {
        Ok(c) => c,
        Err(_) => {
            return Err(AuthAPIError::InvalidCredentials);
        },
    };
    let (stored_id, stored_code) = match two_fa_code_store.get_code(&email) {
        Ok(pair) => pair,
        Err(TwoFACodeStoreError::LoginAttemptIdNotFound) => {
            return Err(AuthAPIError::IncorrectCredentials);
        },
        Err(TwoFACodeStoreError::UnexpectedError) => {
            return Err(AuthAPIError::UnexpectedError);
        },
    };
    if !(stored_id == login_attempt_id && stored_code == two_fa_code) {
        return Err(AuthAPIError::IncorrectCredentials);
    }
    match two_fa_code_store.remove_code(&email) {
        Ok(()) => (),
        Err(_) => {
            return Err(AuthAPIError::UnexpectedError);
        },
    }
    match generate_auth_token(&email, jwt_key) {
        Ok(token) => Ok(token),
        Err(_) => Err(AuthAPIError::UnexpectedError),
    }
}

} // verus!
