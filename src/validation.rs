//! Validation rules for the data that clients send: logins, passwords and
//! the length limits of each field.
use crate::session::opt_view;
use vstd::prelude::*;
use vstd::std_specs::iter::IteratorSpec;

verus! {

broadcast use vstd::string::group_string_axioms;

/// Bounds that a failed rule reports.
pub struct ValidationParams {
    pub max: Option<i32>,
    pub min: Option<i32>,
}

/// One failed rule: its code, the message given for it, and its bounds.
pub struct FieldError {
    pub code: Option<String>,
    pub message: Option<String>,
    pub params: ValidationParams,
}

/// The abstract content of a `FieldError`: code, message, minimum, maximum.
pub type Failure = (Option<Seq<char>>, Option<Seq<char>>, Option<i32>, Option<i32>);

pub open spec fn failure_of(e: FieldError) -> Failure {
    (opt_view(e.code), opt_view(e.message), e.params.min, e.params.max)
}

/// A rule that failed on a field.
pub struct FieldFailure {
    pub field: String,
    pub error: FieldError,
}

/// The body of a response to data that failed validation.
pub struct ValidationErrorBody {
    pub reason: String,
    pub errors: Vec<FieldFailure>,
}

/// The abstract content of a list of failures: each field name with what failed.
pub open spec fn failures_of(v: Seq<FieldFailure>) -> Seq<(Seq<char>, Failure)> {
    v.map_values(|f: FieldFailure| (f.field@, failure_of(f.error)))
}

/// The failure that a length rule reports.
pub open spec fn length_failure(min: Option<i32>, max: Option<i32>, message: Option<Seq<char>>) -> Failure {
    (Some("length"@), message, min, max)
}

/// Whether a text's number of characters lies within the optional bounds.
pub open spec fn length_within(s: Seq<char>, min: Option<u64>, max: Option<u64>) -> bool {
    (min matches Some(m) ==> m <= s.len()) && (max matches Some(m) ==> s.len() <= m)
}

/// Relies on validator::ValidateLength::validate_length for `str`, which
/// counts the characters of the text and compares the count with the bounds.
#[verifier::external_body]
fn length_ok(s: &str, min: Option<u64>, max: Option<u64>) -> (r: bool)
    ensures
        r == length_within(s@, min, max),
{
    validator::ValidateLength::<u64>::validate_length(s, min, max, None)
}

/// A length rule on `field`: nothing when `value` is within the bounds, else
/// the failure it reports.
pub(crate) fn check_length(
    field: &str,
    value: &str,
    min: Option<i32>,
    max: Option<i32>,
    message: Option<&str>,
) -> (r: Option<FieldFailure>)
    requires
        min matches Some(m) ==> m >= 0,
        max matches Some(m) ==> m >= 0,
    ensures
        r is None <==> length_within(
            value@,
            match min { Some(m) => Some(m as u64), None => None },
            match max { Some(m) => Some(m as u64), None => None },
        ),
        r matches Some(f) ==> f.field@ == field@ && failure_of(f.error) == length_failure(
            min,
            max,
            match message { Some(m) => Some(m@), None => None },
        ),
{
    let lo: Option<u64> = match min {
        Some(m) => Some(m as u64),
        None => None,
    };
    let hi: Option<u64> = match max {
        Some(m) => Some(m as u64),
        None => None,
    };
    if length_ok(value, lo, hi) {
        None
    } else {
        let text: Option<String> = match message {
            Some(m) => Some(m.to_owned()),
            None => None,
        };
        Some(FieldFailure {
            field: field.to_owned(),
            error: FieldError {
                code: Some("length".to_owned()),
                message: text,
                params: ValidationParams { max, min },
            },
        })
    }
}

/// An ASCII character that `char::is_whitespace` accepts.
pub open spec fn is_ascii_space(c: char) -> bool {
    c == ' ' || ('\t' <= c && c <= '\r')
}

/// A login is plain ASCII without whitespace.
pub open spec fn login_acceptable(s: Seq<char>) -> bool {
    vstd::utf8::is_ascii_chars(s) && forall|i: int| 0 <= i < s.len() ==> !is_ascii_space(#[trigger] s[i])
}

fn field_error(code: &str, message: &str) -> (e: FieldError)
    ensures
        failure_of(e) == (Some(code@), Some(message@), None::<i32>, None::<i32>),
{
    FieldError {
        code: Some(code.to_owned()),
        message: Some(message.to_owned()),
        params: ValidationParams { max: None, min: None },
    }
}

/// Whether an ASCII text holds a whitespace character.
fn holds_space(s: &str) -> (r: bool)
    ensures
        r == exists|i: int| 0 <= i < s@.len() && is_ascii_space(#[trigger] s@[i]),
{
    let mut found = false;
    let ghost mut seen: int = 0;
    for c in it: s.chars()
        invariant
            it.seq() == s@,
            seen == it.index(),
            found == exists|i: int| 0 <= i < seen && is_ascii_space(#[trigger] s@[i]),
    {
        proof {
            assert(s@[seen] == c);
        }
        if c == ' ' || ('\t' <= c && c <= '\r') {
            found = true;
        }
        proof {
            seen = seen + 1;
        }
    }
    found
}

/// Accepts a login made of ASCII characters other than whitespace.
pub fn validate_user_login(login: &str) -> (r: Result<(), FieldError>)
    ensures
        r is Ok <==> login_acceptable(login@),
        r matches Err(e) ==> failure_of(e) == (
            Some("2137"@),
            Some("username contains whitespace or non-ascii characters"@),
            None::<i32>,
            None::<i32>,
        ),
{
    if !login.is_ascii() || holds_space(login) {
        Err(field_error("2137", "username contains whitespace or non-ascii characters"))
    } else {
        Ok(())
    }
}

/// Accepts a password made of ASCII characters.
pub fn validate_user_password(password: &str) -> (r: Result<(), FieldError>)
    ensures
        r is Ok <==> vstd::utf8::is_ascii_chars(password@),
        r matches Err(e) ==> failure_of(e) == (
            Some("2138"@),
            Some("login contains non-ascii characters"@),
            None::<i32>,
            None::<i32>,
        ),
{
    if !password.is_ascii() {
        Err(field_error("2138", "login contains non-ascii characters"))
    } else {
        Ok(())
    }
}

} // verus!
