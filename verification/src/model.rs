//! Data model of the auth core: the stored user record and the structured
//! request bodies of the register and login use cases.

use vstd::prelude::*;

verus! {

/// A stored identity record. The id is a randomly generated 128-bit value
/// (not sequential, to avoid enumeration); `password` holds the salted PHC
/// hash string, never the raw credential; timestamps are seconds since the
/// epoch.
#[derive(Clone, Debug)]
pub struct User {
    pub id: u128,
    pub name: String,
    pub email: String,
    pub photo: String,
    pub verified: bool,
    pub password: String,
    pub role: String,
    pub created_at: u64,
    pub updated_at: u64,
}

/// Body of a registration request. Fields arrive optional and are checked
/// for presence by validation before use.
#[derive(Clone, Debug)]
pub struct RegisterUserSchema {
    pub name: Option<String>,
    pub email: Option<String>,
    pub password: Option<String>,
    pub photo: Option<String>,
}

/// Body of a login request.
#[derive(Clone, Debug)]
pub struct LoginUserSchema {
    pub email: Option<String>,
    pub password: Option<String>,
}

} // verus!
