//! The validated password: a string of 8 to 64 characters, readable only
//! through an explicit accessor.
use vstd::prelude::*;
use vstd::string::StrSliceExecFns;

use crate::ParseError;

verus! {

/// The length bounds a password must satisfy, counted in characters.
pub open spec fn password_length_ok(s: Seq<char>) -> bool {
    8 <= s.len() <= 64
}

/// A validated password. The raw string is reachable only through `expose`,
/// so it cannot leak by accident.
pub struct Password {
    inner: String,
}

impl View for Password {
    type V = Seq<char>;

    closed spec fn view(&self) -> Seq<char> {
        self.inner@
    }
}

impl Password {
    /// Every `Password` has between 8 and 64 characters.
    #[verifier::type_invariant]
    spec fn length_holds(&self) -> bool {
        password_length_ok(self@)
    }

    /// Accepts exactly the strings of 8 to 64 characters and wraps them
    /// unchanged; rejects every other string for its length.
    pub fn parse(raw: String) -> (r: Result<Password, ParseError>)
        ensures
            r matches Ok(p) ==> p@ == raw@,
            r is Ok <==> password_length_ok(raw@),
            r is Err ==> r == Err::<Password, ParseError>(ParseError::InvalidLength),
    {
        let n = raw.as_str().unicode_len();
        if 8 <= n && n <= 64 {
            Ok(Password { inner: raw })
        } else {
            Err(ParseError::InvalidLength)
        }
    }

    /// The raw password string; the explicit gate for reading the secret.
    pub fn expose(&self) -> (r: &str)
        ensures
            r@ == self@,
    {
        self.inner.as_str()
    }
}

impl Clone for Password {
    fn clone(&self) -> (r: Self)
        ensures
            r@ == self@,
    {
        proof {
            use_type_invariant(self);
        }
        Password { inner: self.inner.clone() }
    }
}

impl Default for Password {
    /// The all-NUL placeholder password: eight characters, so it parses.
    fn default() -> (r: Self)
        ensures
            r@ == "\0\0\0\0\0\0\0\0"@,
            password_length_ok(r@),
    {
        proof {
            reveal_strlit("\0\0\0\0\0\0\0\0");
        }
        Password { inner: "\0\0\0\0\0\0\0\0".to_owned() }
    }
}

impl PartialEq for Password {
    fn eq(&self, other: &Self) -> bool {
        self.inner == other.inner
    }
}

impl Eq for Password {

}

impl vstd::std_specs::cmp::PartialEqSpecImpl for Password {
    open spec fn obeys_eq_spec() -> bool {
        true
    }

    open spec fn eq_spec(&self, other: &Password) -> bool {
        self@ == other@
    }
}

} // verus!
