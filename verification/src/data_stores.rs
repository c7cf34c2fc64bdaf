//! The three persistence contracts the flows are built on: user records,
//! revoked tokens and pending second-factor challenges. Any implementation
//! with these contracts is interchangeable; in-memory references live in
//! this crate, and adapters over outside engines may stand outside it.
use vstd::prelude::*;

use crate::email::Email;
use crate::password::Password;
use crate::two_fa::LoginAttemptId;
use crate::two_fa::TwoFACode;
use crate::user::User;

verus! {

/// What a user store keeps under an email: the record besides its key.
pub ghost struct UserModel {
    pub password: Seq<char>,
    pub requires_2fa: bool,
}

/// How a user store operation can fail.
#[derive(Clone, Copy, Debug, PartialEq, Eq, Structural)]
pub enum UserStoreError {
    UserAlreadyExists,
    UserNotFound,
    InvalidCredentials,
    UnexpectedError,
}

/// How a revoked-token store operation can fail: only through the
/// infrastructure underneath it.
#[derive(Clone, Copy, Debug, PartialEq, Eq, Structural)]
pub enum BannedTokenStoreError {
    UnexpectedError,
}

/// How a challenge store operation can fail.
#[derive(Clone, Copy, Debug, PartialEq, Eq, Structural)]
pub enum TwoFACodeStoreError {
    LoginAttemptIdNotFound,
    UnexpectedError,
}

/// The user record store: one record per email, created once, read for
/// credential checks. `UnexpectedError` stands for an infrastructure
/// failure, which leaves the contents unchanged and carries no verdict on
/// the credentials.
pub trait UserStore {
    /// The records held, as a map from email to the rest of the record.
    spec fn users(&self) -> Map<Seq<char>, UserModel>;

    /// Persists a new record; rejects an email that is already present.
    fn add_user(&mut self, user: User) -> (r: Result<(), UserStoreError>)
        ensures
            match r {
                Ok(()) => !old(self).users().contains_key(user.email@) && final(self).users()
                    == old(self).users().insert(user.email@, user.model()),
                Err(UserStoreError::UserAlreadyExists) => old(self).users().contains_key(
                    user.email@,
                ) && final(self).users() == old(self).users(),
                Err(UserStoreError::UnexpectedError) => final(self).users() == old(self).users(),
                Err(_) => false,
            },
    ;

    /// Returns the record for an email. The password field of the returned
    /// record is not part of the contract: an implementation that hashes at
    /// rest cannot return it.
    fn get_user(&self, email: &Email) -> (r: Result<User, UserStoreError>)
        ensures
            match r {
                Ok(u) => self.users().contains_key(email@) && u.email@ == email@ && u.requires_2fa
                    == self.users()[email@].requires_2fa,
                Err(UserStoreError::UserNotFound) => !self.users().contains_key(email@),
                Err(UserStoreError::UnexpectedError) => true,
                Err(_) => false,
            },
    ;

    /// Checks the supplied password against the stored record without
    /// handing the record out.
    fn validate_user(&self, email: &Email, password: &Password) -> (r: Result<
        (),
        UserStoreError,
    >)
        ensures
            match r {
                Ok(()) => self.users().contains_key(email@) && self.users()[email@].password
                    == password@,
                Err(UserStoreError::UserNotFound) => !self.users().contains_key(email@),
                Err(UserStoreError::InvalidCredentials) => self.users().contains_key(email@)
                    && self.users()[email@].password != password@,
                Err(UserStoreError::UnexpectedError) => true,
                Err(_) => false,
            },
    ;
}

/// The revoked-token ledger: tokens that must be rejected even while
/// cryptographically valid. Revoking again is a no-op success.
pub trait BannedTokenStore {
    /// The tokens currently held as revoked.
    spec fn tokens(&self) -> Set<Seq<char>>;

    /// Marks a token revoked, idempotently.
    fn add_token(&mut self, token: String) -> (r: Result<(), BannedTokenStoreError>)
        ensures
            match r {
                Ok(()) => final(self).tokens() == old(self).tokens().insert(token@),
                Err(BannedTokenStoreError::UnexpectedError) => final(self).tokens() == old(
                    self,
                ).tokens(),
            },
    ;

    /// Whether a token is held as revoked. An infrastructure failure is an
    /// error, never a "not revoked" answer.
    fn contains_token(&self, token: &String) -> (r: Result<bool, BannedTokenStoreError>)
        ensures
            match r {
                Ok(b) => b == self.tokens().contains(token@),
                Err(BannedTokenStoreError::UnexpectedError) => true,
            },
    ;
}

/// The pending-challenge store: at most one outstanding second-factor
/// challenge per email; storing a new one supersedes the old.
pub trait TwoFACodeStore {
    /// The challenges held, as a map from email to the attempt identifier
    /// and code pair.
    spec fn codes(&self) -> Map<Seq<char>, (Seq<char>, Seq<char>)>;

    /// Stores a challenge, unconditionally overwriting any pending one for
    /// the same email.
    fn add_code(&mut self, email: Email, login_attempt_id: LoginAttemptId, code: TwoFACode) -> (r:
        Result<(), TwoFACodeStoreError>)
        ensures
            match r {
                Ok(()) => final(self).codes() == old(self).codes().insert(
                    email@,
                    (login_attempt_id@, code@),
                ),
                Err(TwoFACodeStoreError::UnexpectedError) => final(self).codes() == old(
                    self,
                ).codes(),
                Err(_) => false,
            },
    ;

    /// Deletes the challenge for an email if one is present; absence is not
    /// an error.
    fn remove_code(&mut self, email: &Email) -> (r: Result<(), TwoFACodeStoreError>)
        ensures
            match r {
                Ok(()) => final(self).codes() == old(self).codes().remove(email@),
                Err(TwoFACodeStoreError::UnexpectedError) => final(self).codes() == old(
                    self,
                ).codes(),
                Err(_) => false,
            },
    ;

    /// Returns the pending challenge for an email, or reports that none is
    /// there.
    fn get_code(&self, email: &Email) -> (r: Result<
        (LoginAttemptId, TwoFACode),
        TwoFACodeStoreError,
    >)
        ensures
            match r {
                Ok(pair) => self.codes().contains_key(email@) && self.codes()[email@] == (
                    pair.0@,
                    pair.1@,
                ),
                Err(TwoFACodeStoreError::LoginAttemptIdNotFound) => !self.codes().contains_key(
                    email@,
                ),
                Err(TwoFACodeStoreError::UnexpectedError) => true,
            },
    ;
}

} // verus!
