//! Registration: validates the raw credentials and creates the user record,
//! once per email.
use vstd::prelude::*;

use crate::data_stores::UserModel;
use crate::data_stores::UserStore;
use crate::data_stores::UserStoreError;
use crate::email::email_grammar;
use crate::email::Email;
use crate::password::password_length_ok;
use crate::password::Password;
use crate::user::User;
use crate::AuthAPIError;

verus! {

/// A signup call as the transport hands it over.
pub struct SignupRequest {
    pub email: String,
    pub password: String,
    pub requires_2fa: bool,
}

/// The reply to a successful signup.
#[derive(Debug, PartialEq)]
pub struct SignupResponse {
    pub message: String,
}

/// Whether the raw signup inputs pass validation.
pub open spec fn signup_inputs_ok(email_raw: Seq<char>, password_raw: Seq<char>) -> bool {
    email_grammar(email_raw) && password_length_ok(password_raw)
}

/// How a signup call ends, barring infrastructure failure.
#[derive(Clone, Copy, Debug, PartialEq, Eq, Structural)]
pub enum SignupVerdict {
    Created,
    Invalid,
    AlreadyTaken,
}

/// What signup decides for the given records and raw inputs.
pub open spec fn signup_verdict(
    users: Map<Seq<char>, UserModel>,
    email_raw: Seq<char>,
    password_raw: Seq<char>,
) -> SignupVerdict {
    if !signup_inputs_ok(email_raw, password_raw) {
        SignupVerdict::Invalid
    } else if users.contains_key(email_raw) {
        SignupVerdict::AlreadyTaken
    } else {
        SignupVerdict::Created
    }
}

/// The records after a signup call: unchanged unless it creates.
pub open spec fn signup_next(
    users: Map<Seq<char>, UserModel>,
    email_raw: Seq<char>,
    password_raw: Seq<char>,
    requires_2fa: bool,
) -> Map<Seq<char>, UserModel> {
    if signup_verdict(users, email_raw, password_raw) == SignupVerdict::Created {
        users.insert(email_raw, UserModel { password: password_raw, requires_2fa })
    } else {
        users
    }
}

/// Registers a user: malformed inputs are rejected as invalid credentials,
/// an email already present is rejected as such, and otherwise the record
/// is persisted. An infrastructure failure leaves the records unchanged and
/// is reported as unexpected.
pub fn signup<US: UserStore>(user_store: &mut US, request: SignupRequest) -> (r: Result<
    SignupResponse,
    AuthAPIError,
>)
    ensures
        ({
            let before = old(user_store).users();
            let after = final(user_store).users();
            let verdict = signup_verdict(before, request.email@, request.password@);
            let next = signup_next(before, request.email@, request.password@, request.requires_2fa);
            match r {
                Ok(resp) => verdict == SignupVerdict::Created && after == next && resp.message@
                    == "User created successfully!"@,
                Err(AuthAPIError::InvalidCredentials) => verdict == SignupVerdict::Invalid && after
                    == before,
                Err(AuthAPIError::UserAlreadyExists) => verdict == SignupVerdict::AlreadyTaken
                    && after == before,
                Err(AuthAPIError::UnexpectedError) => verdict != SignupVerdict::Invalid && after
                    == before,
                Err(_) => false,
            }
        }),
{
    let SignupRequest { email, password, requires_2fa } = request;
    let email = match Email::parse(email) {
        Ok(e) => e,
        Err(_) => {
            return Err(AuthAPIError::InvalidCredentials);
        },
    };
    let password = match Password::parse(password) {
        Ok(p) => p,
        Err(_) => {
            return Err(AuthAPIError::InvalidCredentials);
        },
    };
    let user = User::new(email, password, requires_2fa);
    match user_store.add_user(user) {
        Ok(()) => Ok(SignupResponse { message: "User created successfully!".to_owned() }),
        Err(UserStoreError::UserAlreadyExists) => Err(AuthAPIError::UserAlreadyExists),
        Err(_) => Err(AuthAPIError::UnexpectedError),
    }
}

} // verus!
