//! The general guarantees of the flows, stated over the same spec functions
//! that the executable functions' contracts use, and proved once for all
//! inputs.
use vstd::prelude::*;

use crate::auth::decode_claims_of;
use crate::auth::token_verdict;
use crate::auth::TokenCheck;
use crate::data_stores::UserModel;
use crate::login::login_verdict;
use crate::login::LoginVerdict;
use crate::logout::logout_next;
use crate::logout::logout_verdict;
use crate::logout::LogoutVerdict;
use crate::password::password_length_ok;
use crate::signup::signup_next;
use crate::signup::signup_verdict;
use crate::signup::SignupVerdict;
use crate::verify_2fa::verify_2fa_inputs_ok;
use crate::verify_2fa::verify_2fa_next;
use crate::verify_2fa::verify_2fa_verdict;
use crate::verify_2fa::TwoFAVerdict;

verus! {

/// Signup breaks idempotency: once it has created a record for an email, a
/// second signup for the same email is rejected because the email is taken,
/// whatever valid password the second call carries.
pub proof fn lemma_signup_twice_rejected(
    users: Map<Seq<char>, UserModel>,
    email: Seq<char>,
    password1: Seq<char>,
    requires_2fa: bool,
    password2: Seq<char>,
)
    requires
        signup_verdict(users, email, password1) == SignupVerdict::Created,
        password_length_ok(password2),
    ensures
        signup_verdict(signup_next(users, email, password1, requires_2fa), email, password2)
            == SignupVerdict::AlreadyTaken,
{
}

/// A token from a direct login validates while it is unexpired and
/// unrevoked; its claims name the login email as subject, so validation
/// hands that email back.
pub proof fn lemma_direct_login_token_validates(
    users: Map<Seq<char>, UserModel>,
    email: Seq<char>,
    password: Seq<char>,
    banned: Set<Seq<char>>,
    token: Seq<char>,
    key: Seq<u8>,
    exp: u64,
    now: u64,
)
    requires
        login_verdict(users, email, password) == LoginVerdict::Direct,
        decode_claims_of(token, key) == Some((email, exp)),
        !banned.contains(token),
        now < exp,
    ensures
        token_verdict(banned, token, key, now) == TokenCheck::Valid,
{
}

/// A challenge verifies exactly once: the exact stored pair establishes the
/// session and consumes the challenge, and the same values are rejected
/// afterwards.
pub proof fn lemma_challenge_verifies_once(
    codes: Map<Seq<char>, (Seq<char>, Seq<char>)>,
    email: Seq<char>,
    attempt_id: Seq<char>,
    code: Seq<char>,
)
    requires
        verify_2fa_inputs_ok(email, attempt_id, code),
        codes.contains_key(email),
        codes[email] == (attempt_id, code),
    ensures
        verify_2fa_verdict(codes, email, attempt_id, code) == TwoFAVerdict::Established,
        verify_2fa_verdict(
            verify_2fa_next(codes, email, attempt_id, code),
            email,
            attempt_id,
            code,
        ) == TwoFAVerdict::Incorrect,
{
}

/// A fresh challenge supersedes the pending one: after a different pair is
/// stored for an email, the old pair is rejected even though it never
/// expired.
pub proof fn lemma_new_challenge_invalidates_old(
    codes: Map<Seq<char>, (Seq<char>, Seq<char>)>,
    email: Seq<char>,
    attempt_id1: Seq<char>,
    code1: Seq<char>,
    attempt_id2: Seq<char>,
    code2: Seq<char>,
)
    requires
        verify_2fa_inputs_ok(email, attempt_id1, code1),
        (attempt_id1, code1) != (attempt_id2, code2),
    ensures
        verify_2fa_verdict(codes.insert(email, (attempt_id2, code2)), email, attempt_id1, code1)
            == TwoFAVerdict::Incorrect,
{
}

/// A revoked token is rejected for revocation, whatever its signature and
/// expiry say: the ledger is consulted first.
pub proof fn lemma_revoked_token_rejected(
    banned: Set<Seq<char>>,
    token: Seq<char>,
    key: Seq<u8>,
    now: u64,
)
    ensures
        token_verdict(banned.insert(token), token, key, now) == TokenCheck::Revoked,
{
}

/// An unrevoked, unexpired, correctly signed token validates.
pub proof fn lemma_good_token_accepted(
    banned: Set<Seq<char>>,
    token: Seq<char>,
    key: Seq<u8>,
    now: u64,
    sub: Seq<char>,
    exp: u64,
)
    requires
        !banned.contains(token),
        decode_claims_of(token, key) == Some((sub, exp)),
        now < exp,
    ensures
        token_verdict(banned, token, key, now) == TokenCheck::Valid,
{
}

/// Logout without a token fails as a missing token and revokes nothing.
pub proof fn lemma_logout_without_token(banned: Set<Seq<char>>, key: Seq<u8>, now: u64)
    ensures
        logout_verdict(banned, Option::<Seq<char>>::None, key, now) == LogoutVerdict::Missing,
        logout_next(banned, Option::<Seq<char>>::None, key, now) == banned,
{
}

/// Logout with an invalid token is rejected and revokes nothing new.
pub proof fn lemma_logout_invalid_token_revokes_nothing(
    banned: Set<Seq<char>>,
    token: Seq<char>,
    key: Seq<u8>,
    now: u64,
)
    requires
        token_verdict(banned, token, key, now) != TokenCheck::Valid,
    ensures
        logout_verdict(banned, Some(token), key, now) == LogoutVerdict::Rejected,
        logout_next(banned, Some(token), key, now) == banned,
{
}

} // verus!
