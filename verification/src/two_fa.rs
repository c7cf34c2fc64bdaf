//! The two second-factor value types: the attempt identifier that correlates
//! a login with its challenge, and the one-time code itself.
use vstd::prelude::*;
use vstd::string::StrSliceExecFns;
use vstd::string::StringExecFns;

use crate::ParseError;

verus! {

/// Whether a string is syntactically a UUID, in any form `Uuid::parse_str`
/// accepts. Names the result of `uuid::Uuid::parse_str`, which depends on
/// the characters of the string alone.
pub uninterp spec fn uuid_syntax(s: Seq<char>) -> bool;

/// Relies on `uuid::Uuid::parse_str`: whether the string is a syntactically
/// valid UUID; the result is a function of the characters alone.
#[verifier::external_body]
fn check_uuid(s: &str) -> (r: bool)
    ensures
        r == uuid_syntax(s@),
{
    uuid::Uuid::parse_str(s).is_ok()
}

/// Relies on `uuid::Uuid::new_v4` and its `Display` form: a fresh random
/// UUID rendered in the hyphenated format, which `Uuid::parse_str` accepts.
#[verifier::external_body]
fn fresh_uuid_string() -> (r: String)
    ensures
        uuid_syntax(r@),
{
    uuid::Uuid::new_v4().to_string()
}

/// Relies on `rand::random_range`: a uniformly random number drawn from the
/// given (non-empty) range, so at most 999999.
#[verifier::external_body]
fn random_code_number() -> (r: u32)
    ensures
        r <= 999999,
{
    rand::random_range(0..=999999u32)
}

/// The identifier that correlates a login's second-factor challenge with the
/// later verification call: UUID syntax, generated fresh server-side.
pub struct LoginAttemptId {
    inner: String,
}

impl View for LoginAttemptId {
    type V = Seq<char>;

    closed spec fn view(&self) -> Seq<char> {
        self.inner@
    }
}

impl LoginAttemptId {
    /// Every `LoginAttemptId` is syntactically a UUID.
    #[verifier::type_invariant]
    spec fn syntax_holds(&self) -> bool {
        uuid_syntax(self@)
    }

    /// Accepts exactly the strings with UUID syntax and wraps them
    /// unchanged; rejects every other string as malformed.
    pub fn parse(raw: String) -> (r: Result<LoginAttemptId, ParseError>)
        ensures
            r matches Ok(id) ==> id@ == raw@,
            r is Ok <==> uuid_syntax(raw@),
            r is Err ==> r == Err::<LoginAttemptId, ParseError>(ParseError::InvalidFormat),
    {
        if check_uuid(raw.as_str()) {
            Ok(LoginAttemptId { inner: raw })
        } else {
            Err(ParseError::InvalidFormat)
        }
    }

    /// A fresh random attempt identifier; always valid.
    pub fn generate() -> (r: LoginAttemptId)
        ensures
            uuid_syntax(r@),
    {
        LoginAttemptId { inner: fresh_uuid_string() }
    }

    /// The identifier as a string.
    pub fn as_str(&self) -> (r: &str)
        ensures
            r@ == self@,
    {
        self.inner.as_str()
    }
}

impl Clone for LoginAttemptId {
    fn clone(&self) -> (r: Self)
        ensures
            r@ == self@,
    {
        proof {
            use_type_invariant(self);
        }
        LoginAttemptId { inner: self.inner.clone() }
    }
}

impl Default for LoginAttemptId {
    /// A fresh random attempt identifier, as `generate`.
    fn default() -> (r: Self)
        ensures
            uuid_syntax(r@),
    {
        LoginAttemptId::generate()
    }
}

impl PartialEq for LoginAttemptId {
    fn eq(&self, other: &Self) -> bool {
        self.inner == other.inner
    }
}

impl Eq for LoginAttemptId {

}

impl vstd::std_specs::cmp::PartialEqSpecImpl for LoginAttemptId {
    open spec fn obeys_eq_spec() -> bool {
        true
    }

    open spec fn eq_spec(&self, other: &LoginAttemptId) -> bool {
        self@ == other@
    }
}

/// Whether a character is an ASCII digit.
pub open spec fn is_ascii_digit_char(c: char) -> bool {
    48 <= c as u32 <= 57
}

/// The shape of a one-time code: exactly six ASCII digits.
pub open spec fn two_fa_code_format(s: Seq<char>) -> bool {
    s.len() == 6 && (forall|i: int| 0 <= i < s.len() ==> is_ascii_digit_char(#[trigger] s[i]))
}

/// The string of one decimal digit.
fn digit_str(d: u32) -> (r: &'static str)
    requires
        d < 10,
    ensures
        r@.len() == 1,
        r@[0] as u32 == 48 + d,
{
    proof {
        reveal_strlit("0");
        reveal_strlit("1");
        reveal_strlit("2");
        reveal_strlit("3");
        reveal_strlit("4");
        reveal_strlit("5");
        reveal_strlit("6");
        reveal_strlit("7");
        reveal_strlit("8");
        reveal_strlit("9");
    }
    match d {
        0 => "0",
        1 => "1",
        2 => "2",
        3 => "3",
        4 => "4",
        5 => "5",
        6 => "6",
        7 => "7",
        8 => "8",
        _ => "9",
    }
}

/// The divisor that brings the digit for position `j` (most significant
/// first) of a six-digit rendering into the units place.
spec fn place_value(j: int) -> int {
    if j == 0 {
        100000
    } else if j == 1 {
        10000
    } else if j == 2 {
        1000
    } else if j == 3 {
        100
    } else if j == 4 {
        10
    } else {
        1
    }
}

/// The character at position `j` when `n` is written as six decimal digits.
spec fn digit_char_at(n: u32, j: int) -> u32 {
    (48 + (n as int / place_value(j)) % 10) as u32
}

/// `n` written as six decimal digits, most significant first, zero-padded;
/// digits beyond the six lowest of `n` are cut off.
fn six_digit_string(n: u32) -> (r: String)
    ensures
        r@.len() == 6,
        forall|j: int| 0 <= j < 6 ==> (#[trigger] r@[j]) as u32 == digit_char_at(n, j),
        two_fa_code_format(r@),
{
    let mut s = String::new();
    let mut power: u32 = 100000;
    let mut i: usize = 0;
    while i < 6
        invariant
            i <= 6,
            s@.len() == i,
            i < 6 ==> power == place_value(i as int),
            forall|j: int| 0 <= j < i ==> (#[trigger] s@[j]) as u32 == digit_char_at(n, j),
        decreases 6 - i,
    {
        let d = (n / power) % 10;
        let ghost s_prev = s@;
        let piece = digit_str(d);
        s.append(piece);
        proof {
            assert(s@ == s_prev + piece@);
            assert(s@[i as int] == piece@[0]);
            assert(forall|j: int| 0 <= j < i ==> s@[j] == s_prev[j]);
            assert(s@[i as int] as u32 == digit_char_at(n, i as int));
        }
        if power >= 10 {
            power = power / 10;
        }
        i = i + 1;
    }
    proof {
        assert(forall|j: int| 0 <= j < 6 ==> is_ascii_digit_char(#[trigger] s@[j]));
    }
    s
}

/// A one-time second-factor code: exactly six ASCII digits.
pub struct TwoFACode {
    inner: String,
}

impl View for TwoFACode {
    type V = Seq<char>;

    closed spec fn view(&self) -> Seq<char> {
        self.inner@
    }
}

impl TwoFACode {
    /// Every `TwoFACode` is exactly six ASCII digits.
    #[verifier::type_invariant]
    spec fn format_holds(&self) -> bool {
        two_fa_code_format(self@)
    }

    /// Accepts exactly the strings of six ASCII digits and wraps them
    /// unchanged; rejects every other string as malformed.
    pub fn parse(raw: String) -> (r: Result<TwoFACode, ParseError>)
        ensures
            r matches Ok(c) ==> c@ == raw@,
            r is Ok <==> two_fa_code_format(raw@),
            r is Err ==> r == Err::<TwoFACode, ParseError>(ParseError::InvalidFormat),
    {
        let n = raw.as_str().unicode_len();
        if n != 6 {
            return Err(ParseError::InvalidFormat);
        }
        let mut i: usize = 0;
        while i < 6
            invariant
                raw@.len() == 6,
                i <= 6,
                forall|j: int| 0 <= j < i ==> is_ascii_digit_char(#[trigger] raw@[j]),
            decreases 6 - i,
        {
            let c = raw.as_str().get_char(i);
            let v = c as u32;
            if v < 48 || v > 57 {
                return Err(ParseError::InvalidFormat);
            }
            i = i + 1;
        }
        Ok(TwoFACode { inner: raw })
    }

    /// A fresh uniformly random six-digit code; always valid.
    pub fn generate() -> (r: TwoFACode)
        ensures
            two_fa_code_format(r@),
    {
        TwoFACode { inner: six_digit_string(random_code_number()) }
    }

    /// The code as a string; the explicit gate for reading the secret.
    pub fn expose(&self) -> (r: &str)
        ensures
            r@ == self@,
    {
        self.inner.as_str()
    }
}

impl Clone for TwoFACode {
    fn clone(&self) -> (r: Self)
        ensures
            r@ == self@,
    {
        proof {
            use_type_invariant(self);
        }
        TwoFACode { inner: self.inner.clone() }
    }
}

impl Default for TwoFACode {
    /// A fresh uniformly random six-digit code, as `generate`.
    fn default() -> (r: Self)
        ensures
            two_fa_code_format(r@),
    {
        TwoFACode::generate()
    }
}

impl PartialEq for TwoFACode {
    fn eq(&self, other: &Self) -> bool {
        self.inner == other.inner
    }
}

impl Eq for TwoFACode {

}

impl vstd::std_specs::cmp::PartialEqSpecImpl for TwoFACode {
    open spec fn obeys_eq_spec() -> bool {
        true
    }

    open spec fn eq_spec(&self, other: &TwoFACode) -> bool {
        self@ == other@
    }
}

} // verus!
