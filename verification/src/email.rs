//! The validated email address that keys every user record.
use vstd::prelude::*;

use crate::ParseError;

verus! {

/// Whether a string satisfies the email grammar that `Email::parse` accepts.
/// Names the result of `validator::ValidateEmail::validate_email`, which
/// depends on the characters of the string alone.
pub uninterp spec fn email_grammar(s: Seq<char>) -> bool;

/// Relies on validator's `ValidateEmail` impl for `&str`: checks the string
/// against the HTML5 email grammar; the result is a function of the
/// characters alone.
#[verifier::external_body]
fn check_email(s: &str) -> (r: bool)
    ensures
        r == email_grammar(s@),
{
    validator::ValidateEmail::validate_email(&s)
}

/// A validated email address. Equality is exact match on the validated
/// string, which is reachable only through `as_str`.
pub struct Email {
    inner: String,
}

impl View for Email {
    type V = Seq<char>;

    closed spec fn view(&self) -> Seq<char> {
        self.inner@
    }
}

impl Email {
    /// Every `Email` satisfies the email grammar: construction is the sole
    /// gate for the invariant.
    #[verifier::type_invariant]
    spec fn grammar_holds(&self) -> bool {
        email_grammar(self@)
    }

    /// Accepts exactly the strings that satisfy the email grammar and wraps
    /// them unchanged; rejects every other string as malformed.
    pub fn parse(raw: String) -> (r: Result<Email, ParseError>)
        ensures
            r matches Ok(e) ==> e@ == raw@ && email_grammar(raw@),
            r is Ok <==> email_grammar(raw@),
            r is Err ==> r == Err::<Email, ParseError>(ParseError::InvalidFormat),
    {
        if check_email(raw.as_str()) {
            Ok(Email { inner: raw })
        } else {
            Err(ParseError::InvalidFormat)
        }
    }

    /// The validated string.
    pub fn as_str(&self) -> (r: &str)
        ensures
            r@ == self@,
    {
        self.inner.as_str()
    }
}

impl Clone for Email {
    fn clone(&self) -> (r: Self)
        ensures
            r@ == self@,
    {
        proof {
            use_type_invariant(self);
        }
        Email { inner: self.inner.clone() }
    }
}

impl PartialEq for Email {
    fn eq(&self, other: &Self) -> bool {
        self.inner == other.inner
    }
}

impl Eq for Email {

}

impl vstd::std_specs::cmp::PartialEqSpecImpl for Email {
    open spec fn obeys_eq_spec() -> bool {
        true
    }

    open spec fn eq_spec(&self, other: &Email) -> bool {
        self@ == other@
    }
}

} // verus!
