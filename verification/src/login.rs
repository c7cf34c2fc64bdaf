//! Login: validates the credential syntax, checks the credentials against
//! the user store, and either issues a session token directly or stores and
//! dispatches a second-factor challenge.
use vstd::prelude::*;
use vstd::string::StringExecFns;

use crate::auth::decode_claims_of;
use crate::auth::generate_auth_token;
use crate::data_stores::TwoFACodeStore;
use crate::data_stores::UserModel;
use crate::data_stores::UserStore;
use crate::data_stores::UserStoreError;
use crate::email::email_grammar;
use crate::email::Email;
use crate::email_client::EmailClient;
use crate::password::password_length_ok;
use crate::password::Password;
use crate::two_fa::two_fa_code_format;
use crate::two_fa::uuid_syntax;
use crate::two_fa::LoginAttemptId;
use crate::two_fa::TwoFACode;
use crate::AuthAPIError;

verus! {

/// A login call as the transport hands it over.
pub struct LoginRequest {
    pub email: String,
    pub password: String,
}

/// How a successful login ends: with a session token, or with a challenge
/// whose identifier the caller must echo back. Carries the token, so it has
/// no formatting.
pub enum LoginOutcome {
    DirectlyAuthenticated(String),
    ChallengeIssued(String),
}

/// The part of a challenge reply the caller sees.
#[derive(Debug, PartialEq)]
pub struct TwoFactorAuthResponse {
    pub message: String,
    pub login_attempt_id: String,
}

/// The reply body of a login call.
#[derive(Debug, PartialEq)]
pub enum LoginResponse {
    RegularAuth,
    TwoFactorAuth(TwoFactorAuthResponse),
}

/// Whether the raw login inputs pass validation.
pub open spec fn login_inputs_ok(email_raw: Seq<char>, password_raw: Seq<char>) -> bool {
    email_grammar(email_raw) && password_length_ok(password_raw)
}

/// How a login call ends, barring infrastructure failure.
#[derive(Clone, Copy, Debug, PartialEq, Eq, Structural)]
pub enum LoginVerdict {
    Invalid,
    Incorrect,
    Direct,
    Challenge,
}

/// What login decides for the given records and raw inputs. Unknown email
/// and wrong password end alike, so that account existence does not leak.
pub open spec fn login_verdict(
    users: Map<Seq<char>, UserModel>,
    email_raw: Seq<char>,
    password_raw: Seq<char>,
) -> LoginVerdict {
    if !login_inputs_ok(email_raw, password_raw) {
        LoginVerdict::Invalid
    } else if !users.contains_key(email_raw) || users[email_raw].password != password_raw {
        LoginVerdict::Incorrect
    } else if users[email_raw].requires_2fa {
        LoginVerdict::Challenge
    } else {
        LoginVerdict::Direct
    }
}

/// Authenticates a user. With the second factor off, hands back a token for
/// the login email; with it on, stores a fresh challenge — superseding any
/// pending one — sends the code to the user, and hands back the attempt
/// identifier. An infrastructure failure is reported as unexpected; a
/// failure after the challenge was stored leaves it stored.
pub fn login<US: UserStore, TS: TwoFACodeStore, EC: EmailClient>(
    user_store: &US,
    two_fa_code_store: &mut TS,
    email_client: &EC,
    request: LoginRequest,
    jwt_key: &Vec<u8>,
) -> (r: Result<LoginOutcome, AuthAPIError>)
    ensures
        ({
            let users = user_store.users();
            let before = old(two_fa_code_store).codes();
            let after = final(two_fa_code_store).codes();
            let e = request.email@;
            let verdict = login_verdict(users, e, request.password@);
            match r {
                Ok(LoginOutcome::DirectlyAuthenticated(token)) => verdict == LoginVerdict::Direct
                    && after == before && (exists|exp: u64|
                    decode_claims_of(token@, jwt_key@) == Some((e, exp))),
                Ok(LoginOutcome::ChallengeIssued(id)) => verdict == LoginVerdict::Challenge
                    && uuid_syntax(id@) && (exists|code: Seq<char>|
                    #[trigger] two_fa_code_format(code) && after == before.insert(e, (id@, code))),
                Err(AuthAPIError::InvalidCredentials) => verdict == LoginVerdict::Invalid && after
                    == before,
                Err(AuthAPIError::IncorrectCredentials) => verdict == LoginVerdict::Incorrect
                    && after == before,
                Err(AuthAPIError::UnexpectedError) => verdict != LoginVerdict::Invalid && (after
                    == before || (verdict == LoginVerdict::Challenge && (exists|
                    id2: Seq<char>,
                    code2: Seq<char>,
                |
                    after == #[trigger] before.insert(e, (id2, code2))))),
                Err(_) => false,
            }
        }),
{
    let LoginRequest { email, password } = request;
    let email = match Email::parse(email) {
        Ok(e) => e,
        Err(_) => {
            return Err(AuthAPIError::InvalidCredentials);
        },
    };
    let password = match Password::parse(password) {
        Ok(p) => p,
        Err(_) => {
            return Err(AuthAPIError::InvalidCredentials);
        },
    };
    match user_store.validate_user(&email, &password) {
        Ok(()) => (),
        Err(UserStoreError::UnexpectedError) => {
            return Err(AuthAPIError::UnexpectedError);
        },
        Err(_) => {
            return Err(AuthAPIError::IncorrectCredentials);
        },
    }
    let user = match user_store.get_user(&email) {
        Ok(u) => u,
        Err(UserStoreError::UnexpectedError) => {
            return Err(AuthAPIError::UnexpectedError);
        },
        Err(_) => {
            proof {
                assert(false);
            }
            return Err(AuthAPIError::IncorrectCredentials);
        },
    };
    if user.requires_2fa {
        let login_attempt_id = LoginAttemptId::generate();
        let two_fa_code = TwoFACode::generate();
        match two_fa_code_store.add_code(
            email.clone(),
            login_attempt_id.clone(),
            two_fa_code.clone(),
        ) {
            Ok(()) => (),
            Err(_) => {
                return Err(AuthAPIError::UnexpectedError);
            },
        }
        let mut content = "Your two FA code is `".to_owned();
        content.append(two_fa_code.expose());
        content.append("`.");
        match email_client.send_email(&email, "Two FA code", content.as_str()) {
            Ok(()) => (),
            Err(_) => {
                return Err(AuthAPIError::UnexpectedError);
            },
        }
        Ok(LoginOutcome::ChallengeIssued(login_attempt_id.as_str().to_owned()))
    } else {
        match generate_auth_token(&email, jwt_key) {
            Ok(token) => Ok(LoginOutcome::DirectlyAuthenticated(token)),
            Err(_) => Err(AuthAPIError::UnexpectedError),
        }
    }
}

/// The reply body for a login outcome: a plain acknowledgement for a direct
/// authentication — the token travels beside it — and the attempt
/// identifier for a challenge.
pub fn login_response_of(outcome: &LoginOutcome) -> (r: LoginResponse)
    ensures
        match outcome {
            LoginOutcome::DirectlyAuthenticated(_) => r == LoginResponse::RegularAuth,
            LoginOutcome::ChallengeIssued(id) => r matches LoginResponse::TwoFactorAuth(t)
                && t.login_attempt_id@ == id@ && t.message@ == "2FA required"@,
        },
{
    match outcome {
        LoginOutcome::DirectlyAuthenticated(_) => LoginResponse::RegularAuth,
        LoginOutcome::ChallengeIssued(id) => LoginResponse::TwoFactorAuth(
            TwoFactorAuthResponse {
                message: "2FA required".to_owned(),
                login_attempt_id: id.clone(),
            },
        ),
    }
}

} // verus!
