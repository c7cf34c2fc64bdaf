//! The user record: an email, a password and the second-factor flag.
use vstd::prelude::*;

use crate::data_stores::UserModel;
use crate::email::Email;
use crate::password::Password;

verus! {

/// One registered user. Created on signup and immutable thereafter.
pub struct User {
    pub email: Email,
    pub password: Password,
    pub requires_2fa: bool,
}

impl User {
    /// What the record stores besides its key: the mathematical model a
    /// user store keeps under the record's email.
    pub open spec fn model(&self) -> UserModel {
        UserModel { password: self.password@, requires_2fa: self.requires_2fa }
    }

    pub fn new(email: Email, password: Password, requires_2fa: bool) -> (r: User)
        ensures
            r.email@ == email@,
            r.password@ == password@,
            r.requires_2fa == requires_2fa,
    {
        User { email, password, requires_2fa }
    }
}

impl Clone for User {
    fn clone(&self) -> (r: Self)
        ensures
            r.email@ == self.email@,
            r.password@ == self.password@,
            r.requires_2fa == self.requires_2fa,
    {
        User {
            email: self.email.clone(),
            password: self.password.clone(),
            requires_2fa: self.requires_2fa,
        }
    }
}

impl PartialEq for User {
    fn eq(&self, other: &Self) -> bool {
        self.email == other.email && self.password == other.password && self.requires_2fa
            == other.requires_2fa
    }
}

impl Eq for User {

}

impl vstd::std_specs::cmp::PartialEqSpecImpl for User {
    open spec fn obeys_eq_spec() -> bool {
        true
    }

    open spec fn eq_spec(&self, other: &User) -> bool {
        self.email@ == other.email@ && self.password@ == other.password@ && self.requires_2fa
            == other.requires_2fa
    }
}

} // verus!
