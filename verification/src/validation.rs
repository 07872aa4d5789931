//! Request-shape validation (field lengths and email format) and the
//! whitespace rules the business layer applies.

use vstd::prelude::*;
use vstd::string::StrSliceExecFns;
use validator::ValidateEmail;
use crate::dto::{CreateUserRequest, UpdateUserRequest};
use crate::errors::{FieldError, FieldErrorView, field_errors_view};

verus! {

/// Whether the email validator accepts this text as an email address.
pub uninterp spec fn email_ok(s: Seq<char>) -> bool;

/// Relies on validator's `ValidateEmail::validate_email`: a check of the
/// characters alone, against the HTML5 email grammar.
#[verifier::external_body]
fn email_is_valid(s: &str) -> (r: bool)
    ensures
        r == email_ok(s@),
{
    s.validate_email()
}

/// A character the whitespace trimming of the business rules removes:
/// the Unicode `White_Space` set.
pub open spec fn is_space(c: char) -> bool {
    c == ' ' || c == '\t' || c == '\n' || c == '\r' || c == '\u{b}' || c == '\u{c}'
        || c == '\u{85}' || c == '\u{a0}' || c == '\u{1680}' || c == '\u{2028}' || c == '\u{2029}'
        || c == '\u{202f}' || c == '\u{205f}' || c == '\u{3000}' || ('\u{2000}' <= c && c
        <= '\u{200a}')
}

/// Whether the text is empty after trimming whitespace: every character is
/// whitespace (an empty text is blank).
pub open spec fn is_blank(s: Seq<char>) -> bool {
    forall|i: int| 0 <= i < s.len() ==> is_space(s[i])
}

fn char_is_space(c: char) -> (r: bool)
    ensures
        r == is_space(c),
{
    c == ' ' || c == '\t' || c == '\n' || c == '\r' || c == '\u{b}' || c == '\u{c}'
        || c == '\u{85}' || c == '\u{a0}' || c == '\u{1680}' || c == '\u{2028}' || c == '\u{2029}'
        || c == '\u{202f}' || c == '\u{205f}' || c == '\u{3000}' || ('\u{2000}' <= c && c
        <= '\u{200a}')
}

/// Whether `s` trims down to the empty string.
pub fn str_is_blank(s: &str) -> (r: bool)
    ensures
        r == is_blank(s@),
{
    let len = s.unicode_len();
    let mut i: usize = 0;
    while i < len
        invariant
            len == s@.len(),
            0 <= i <= len,
            forall|j: int| 0 <= j < i ==> is_space(s@[j]),
        decreases len - i,
    {
        let c = s.get_char(i);
        if !char_is_space(c) {
            return false;
        }
        i = i + 1;
    }
    true
}

/// The name constraint of the request shape: 1 to 100 characters.
pub open spec fn name_len_ok(s: Seq<char>) -> bool {
    1 <= s.len() && s.len() <= 100
}

/// The email length constraint of the request shape: at most 255 characters.
pub open spec fn email_len_ok(s: Seq<char>) -> bool {
    s.len() <= 255
}

pub open spec fn name_error() -> FieldErrorView {
    FieldErrorView { field: "name"@, message: "Name must be between 1 and 100 characters"@ }
}

pub open spec fn email_format_error() -> FieldErrorView {
    FieldErrorView { field: "email"@, message: "Invalid email format"@ }
}

pub open spec fn email_len_error() -> FieldErrorView {
    FieldErrorView { field: "email"@, message: "Email must not exceed 255 characters"@ }
}

/// Every violation a create request carries, in field order, with one entry
/// per violated constraint.
pub open spec fn create_request_errors(name: Seq<char>, email: Seq<char>) -> Seq<FieldErrorView> {
    (if name_len_ok(name) { Seq::<FieldErrorView>::empty() } else { seq![name_error()] }) + (
    if email_ok(email) { Seq::<FieldErrorView>::empty() } else { seq![email_format_error()] }) + (
    if email_len_ok(email) { Seq::<FieldErrorView>::empty() } else { seq![email_len_error()] })
}

/// Every violation an update request carries; an omitted field is never
/// checked.
pub open spec fn update_request_errors(name: Option<Seq<char>>, email: Option<Seq<char>>)
    -> Seq<FieldErrorView> {
    (match name {
        Some(n) => if name_len_ok(n) { Seq::<FieldErrorView>::empty() } else { seq![name_error()] },
        None => Seq::<FieldErrorView>::empty(),
    }) + (match email {
        Some(e) => (if email_ok(e) { Seq::<FieldErrorView>::empty() } else {
            seq![email_format_error()]
        }) + (if email_len_ok(e) { Seq::<FieldErrorView>::empty() } else {
            seq![email_len_error()]
        }),
        None => Seq::<FieldErrorView>::empty(),
    })
}

/// Checks the shape of a create request, reporting every violated field
/// together rather than stopping at the first.
pub fn validate_create(req: &CreateUserRequest) -> (errs: Vec<FieldError>)
    ensures
        field_errors_view(errs@) == create_request_errors(req.name@, req.email@),
        errs@.len() == 0 <==> (name_len_ok(req.name@) && email_ok(req.email@) && email_len_ok(
            req.email@,
        )),
{
    let mut errs: Vec<FieldError> = Vec::new();
    let name_len = req.name.as_str().unicode_len();
    if name_len < 1 || name_len > 100 {
        errs.push(FieldError::new("name", "Name must be between 1 and 100 characters"));
    }
    if !email_is_valid(req.email.as_str()) {
        errs.push(FieldError::new("email", "Invalid email format"));
    }
    let email_len = req.email.as_str().unicode_len();
    if email_len > 255 {
        errs.push(FieldError::new("email", "Email must not exceed 255 characters"));
    }
    proof {
        assert(field_errors_view(errs@) =~= create_request_errors(req.name@, req.email@));
    }
    errs
}

/// Checks the shape of an update request: each supplied field is held to the
/// same constraints as in a create request, omitted fields pass.
pub fn validate_update(req: &UpdateUserRequest) -> (errs: Vec<FieldError>)
    ensures
        field_errors_view(errs@) == update_request_errors(req@.name, req@.email),
        errs@.len() == 0 <==> ({
            &&& (req@.name matches Some(n) ==> name_len_ok(n))
            &&& (req@.email matches Some(e) ==> email_ok(e) && email_len_ok(e))
        }),
{
    let mut errs: Vec<FieldError> = Vec::new();
    match &req.name {
        Some(name) => {
            let name_len = name.as_str().unicode_len();
            if name_len < 1 || name_len > 100 {
                errs.push(FieldError::new("name", "Name must be between 1 and 100 characters"));
            }
        },
        None => {},
    }
    match &req.email {
        Some(email) => {
            if !email_is_valid(email.as_str()) {
                errs.push(FieldError::new("email", "Invalid email format"));
            }
            let email_len = email.as_str().unicode_len();
            if email_len > 255 {
                errs.push(FieldError::new("email", "Email must not exceed 255 characters"));
            }
        },
        None => {},
    }
    proof {
        assert(field_errors_view(errs@) =~= update_request_errors(req@.name, req@.email));
    }
    errs
}

} // verus!
