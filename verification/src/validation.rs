//! Structured-input validation for the register and login use cases:
//! required fields, email format (checked by the validator crate behind a
//! trusted wrapper) and length bounds, reported as per-field messages.

use vstd::prelude::*;

use crate::model::LoginUserSchema;
use crate::model::RegisterUserSchema;
use crate::response::string_views;

verus! {

/// Whether the validator crate accepts `s` as a well-formed email address:
/// a function of the string alone, named here rather than spelled out.
pub uninterp spec fn email_ok(s: Seq<char>) -> bool;

/// Relies on `validator::validate_email`: the outcome is a function of the
/// string alone.
#[verifier::external_body]
fn check_email(s: &str) -> (r: bool)
    ensures
        r == email_ok(s@),
{
    validator::validate_email(s)
}

/// A display name is required: present, non-empty, at most 255 characters.
pub open spec fn spec_valid_name(n: Option<String>) -> bool {
    n matches Some(s) && 1 <= s@.len() <= 255
}

/// An email is required: present, well-formed, at most 510 characters.
pub open spec fn spec_valid_email(e: Option<String>) -> bool {
    e matches Some(s) && s@.len() <= 510 && email_ok(s@)
}

/// A password is required: present and non-empty.
pub open spec fn spec_valid_password(p: Option<String>) -> bool {
    p matches Some(s) && s@.len() >= 1
}

pub open spec fn spec_valid_register(schema: RegisterUserSchema) -> bool {
    spec_valid_name(schema.name) && spec_valid_email(schema.email) && spec_valid_password(
        schema.password,
    )
}

pub open spec fn spec_valid_login(schema: LoginUserSchema) -> bool {
    spec_valid_email(schema.email) && spec_valid_password(schema.password)
}

/// The per-field messages a registration body earns, in field order.
pub open spec fn spec_register_errors(schema: RegisterUserSchema) -> Seq<Seq<char>> {
    (if spec_valid_name(schema.name) {
        Seq::<Seq<char>>::empty()
    } else {
        seq!["name is required, at most 255 characters"@]
    }) + (if spec_valid_email(schema.email) {
        Seq::<Seq<char>>::empty()
    } else {
        seq!["email is required, a well-formed address of at most 510 characters"@]
    }) + (if spec_valid_password(schema.password) {
        Seq::<Seq<char>>::empty()
    } else {
        seq!["password is required"@]
    })
}

/// The per-field messages a login body earns, in field order.
pub open spec fn spec_login_errors(schema: LoginUserSchema) -> Seq<Seq<char>> {
    (if spec_valid_email(schema.email) {
        Seq::<Seq<char>>::empty()
    } else {
        seq!["email is required, a well-formed address of at most 510 characters"@]
    }) + (if spec_valid_password(schema.password) {
        Seq::<Seq<char>>::empty()
    } else {
        seq!["password is required"@]
    })
}

fn name_is_valid(n: &Option<String>) -> (r: bool)
    ensures
        r == spec_valid_name(*n),
{
    match n {
        Some(s) => {
            let len = s.as_str().unicode_len();
            1 <= len && len <= 255
        },
        None => false,
    }
}

fn email_is_valid(e: &Option<String>) -> (r: bool)
    ensures
        r == spec_valid_email(*e),
{
    match e {
        Some(s) => s.as_str().unicode_len() <= 510 && check_email(s.as_str()),
        None => false,
    }
}

fn password_is_valid(p: &Option<String>) -> (r: bool)
    ensures
        r == spec_valid_password(*p),
{
    match p {
        Some(s) => s.as_str().unicode_len() >= 1,
        None => false,
    }
}

/// Check a registration body; an empty result means it is valid.
pub fn validate_register(schema: &RegisterUserSchema) -> (errs: Vec<String>)
    ensures
        string_views(errs@) == spec_register_errors(*schema),
        errs@.len() == 0 <==> spec_valid_register(*schema),
{
    let mut errs: Vec<String> = Vec::new();
    if !name_is_valid(&schema.name) {
        errs.push("name is required, at most 255 characters".to_owned());
    }
    if !email_is_valid(&schema.email) {
        errs.push(
            "email is required, a well-formed address of at most 510 characters".to_owned(),
        );
    }
    if !password_is_valid(&schema.password) {
        errs.push("password is required".to_owned());
    }
    proof {
        assert(string_views(errs@) =~= spec_register_errors(*schema));
    }
    errs
}

/// Check a login body; an empty result means it is valid.
pub fn validate_login(schema: &LoginUserSchema) -> (errs: Vec<String>)
    ensures
        string_views(errs@) == spec_login_errors(*schema),
        errs@.len() == 0 <==> spec_valid_login(*schema),
{
    let mut errs: Vec<String> = Vec::new();
    if !email_is_valid(&schema.email) {
        errs.push(
            "email is required, a well-formed address of at most 510 characters".to_owned(),
        );
    }
    if !password_is_valid(&schema.password) {
        errs.push("password is required".to_owned());
    }
    proof {
        assert(string_views(errs@) =~= spec_login_errors(*schema));
    }
    errs
}

} // verus!
