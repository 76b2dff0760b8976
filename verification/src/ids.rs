//! User identifiers: 128-bit values generated at random, carried in tokens
//! as their canonical hyphenated text form via the uuid crate.

use vstd::prelude::*;

verus! {

/// The canonical hyphenated text form of the 128-bit identifier `v`, as the
/// uuid crate's `Display` renders it: a function of the value alone.
pub uninterp spec fn uuid_str(v: u128) -> Seq<char>;

/// What the uuid crate parses the string `s` into, if anything: a function
/// of the string alone.
pub uninterp spec fn uuid_of(s: Seq<char>) -> Option<u128>;

/// Relies on `uuid::Uuid::new_v4`: a randomly generated identifier, about
/// which nothing is promised.
#[verifier::external_body]
pub fn generate_user_id() -> (r: u128) {
    uuid::Uuid::new_v4().as_u128()
}

/// Relies on `uuid::Uuid::to_string` (via `from_u128`): the hyphenated form
/// is 36 characters, is a function of the value alone, and `Uuid::parse_str`
/// accepts it and returns the same value.
#[verifier::external_body]
pub fn user_id_to_string(v: u128) -> (r: String)
    ensures
        r@ == uuid_str(v),
        r@.len() == 36,
        uuid_of(r@) == Some(v),
{
    uuid::Uuid::from_u128(v).to_string()
}

/// Relies on `uuid::Uuid::parse_str` (and `as_u128`): the outcome is a
/// function of the string alone.
#[verifier::external_body]
pub fn parse_user_id(s: &str) -> (r: Option<u128>)
    ensures
        r == uuid_of(s@),
{
    match uuid::Uuid::parse_str(s) {
        Ok(u) => Some(u.as_u128()),
        Err(_) => None,
    }
}

} // verus!
