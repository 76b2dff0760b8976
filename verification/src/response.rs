//! The uniform response envelope: success flag, application-level business
//! code, human-readable message, optional per-field error details, optional
//! payload, and an optional cookie instruction for the transport layer to
//! apply. Business codes map onto transport status codes by fixed ranges.

use vstd::prelude::*;

verus! {

/// Outcomes that can be rendered into the envelope: each carries an
/// application-level business code and, possibly, per-field detail strings.
pub trait Error {
    fn get_business_code(&self) -> i32;

    fn get_error_details(&self) -> Option<Vec<&str>>;
}

/// What the transport layer must do to the client's `token` cookie: set it
/// to `value` under `path`, HTTP-only, expiring after `max_age_seconds`
/// (negative to drop it at once).
#[derive(Clone, Debug)]
pub struct CookieInstruction {
    pub name: String,
    pub value: String,
    pub path: String,
    pub http_only: bool,
    pub max_age_seconds: i64,
}

/// The views of a sequence of borrowed strings.
pub open spec fn str_views(v: Seq<&str>) -> Seq<Seq<char>> {
    v.map_values(|s: &str| s@)
}

/// The views of a sequence of owned strings.
pub open spec fn string_views(v: Seq<String>) -> Seq<Seq<char>> {
    v.map_values(|s: String| s@)
}

/// The transport status that a business code resolves to: the success family
/// maps to 200, unauthorized to 401, duplicate email to 409, invalid login
/// or parameters to 400, and everything else is an internal error, 500.
pub open spec fn spec_http_status(code: int) -> int {
    if 1000 <= code <= 2999 {
        200
    } else if code == 4001 {
        401
    } else if code == 4009 {
        409
    } else if code == 4010 {
        400
    } else if 8000 <= code < 9000 {
        400
    } else {
        500
    }
}

/// The uniform response envelope.
pub struct APIResponse<T> {
    pub success: bool,
    pub business_code: i32,
    pub message: String,
    pub error_details: Option<Vec<String>>,
    pub results: Option<T>,
    pub cookies: Option<CookieInstruction>,
}

impl<T> APIResponse<T> {
    pub fn new(
        success: bool,
        business_code: i32,
        msg: &str,
        err_details: Option<Vec<&str>>,
        results: Option<T>,
    ) -> (r: Self)
        ensures
            r.success == success,
            r.business_code == business_code,
            r.message@ == msg@,
            err_details matches Some(v) ==> (r.error_details matches Some(w) && string_views(w@)
                == str_views(v@)),
            err_details is None ==> r.error_details is None,
            r.results == results,
            r.cookies is None,
    {
        let error_details = match err_details {
            Some(v) => {
                let n = v.len();
                let mut w: Vec<String> = Vec::new();
                for i in 0..n
                    invariant
                        n == v.len(),
                        w@.len() == i,
                        forall|k: int| 0 <= k < i ==> w@[k]@ == v@[k]@,
                {
                    w.push(v[i].to_owned());
                }
                proof {
                    assert(string_views(w@) =~= str_views(v@));
                }
                Some(w)
            },
            None => None,
        };
        APIResponse {
            success,
            business_code,
            message: msg.to_owned(),
            error_details,
            results,
            cookies: None,
        }
    }

    pub fn ok() -> (r: Self)
        ensures
            r.success == true,
            r.business_code == 1000,
            r.message@ == "Everything is okay"@,
            r.error_details is None,
            r.results is None,
            r.cookies is None,
    {
        APIResponse {
            success: true,
            business_code: 1000,
            message: "Everything is okay".to_owned(),
            error_details: None,
            results: None,
            cookies: None,
        }
    }

    pub fn unauthorized() -> (r: Self)
        ensures
            r.success == false,
            r.business_code == 4001,
            r.message@ == "Unauthorized Access"@,
            r.error_details is None,
            r.results is None,
            r.cookies is None,
    {
        APIResponse {
            success: false,
            business_code: 4001,
            message: "Unauthorized Access".to_owned(),
            error_details: None,
            results: None,
            cookies: None,
        }
    }

    pub fn unknown_internal_error() -> (r: Self)
        ensures
            r.success == false,
            r.business_code == 9999,
            r.message@ == "An unknown cause internal error has occured!"@,
            r.error_details is None,
            r.results is None,
            r.cookies is None,
    {
        APIResponse {
            success: false,
            business_code: 9999,
            message: "An unknown cause internal error has occured!".to_owned(),
            error_details: None,
            results: None,
            cookies: None,
        }
    }

    /// Per-field validation failures, already rendered as messages.
    pub fn validation_error(errs: Vec<String>) -> (r: Self)
        ensures
            r.success == false,
            r.business_code == 4010,
            r.message@ == "Invalid parameters entered"@,
            r.error_details == Some(errs),
            r.results is None,
            r.cookies is None,
    {
        APIResponse {
            success: false,
            business_code: 4010,
            message: "Invalid parameters entered".to_owned(),
            error_details: Some(errs),
            results: None,
            cookies: None,
        }
    }

    pub fn with_cookie(self, c: CookieInstruction) -> (r: Self)
        ensures
            r.success == self.success,
            r.business_code == self.business_code,
            r.message == self.message,
            r.error_details == self.error_details,
            r.results == self.results,
            r.cookies == Some(c),
    {
        APIResponse { cookies: Some(c), ..self }
    }

    /// The transport status this envelope resolves to.
    pub fn http_status(&self) -> (r: u16)
        ensures
            r as int == spec_http_status(self.business_code as int),
    {
        if 1000 <= self.business_code && self.business_code <= 2999 {
            200
        } else if self.business_code == 4001 {
            401
        } else if self.business_code == 4009 {
            409
        } else if self.business_code == 4010 {
            400
        } else if 8000 <= self.business_code && self.business_code < 9000 {
            400
        } else {
            500
        }
    }
}

/// A user record as exposed to clients: everything but the password hash.
#[derive(Clone, Debug)]
pub struct FilteredUser {
    pub id: String,
    pub name: String,
    pub email: String,
    pub role: String,
    pub photo: String,
    pub verified: bool,
    pub created_at: u64,
    pub updated_at: u64,
}

#[derive(Clone, Debug)]
pub struct UserData {
    pub user: FilteredUser,
}

#[derive(Clone, Debug)]
pub struct UserResponse {
    pub status: String,
    pub data: UserData,
}

/// Payload of a successful registration: the generated account id.
#[derive(Clone, Copy, Debug, PartialEq, Eq, Structural)]
pub struct RegistrationSuccessResponse {
    pub account_id: u128,
}

/// Payload of a successful login: the signed session token.
#[derive(Clone, Debug)]
pub struct LoginSuccessResponse {
    pub token: String,
}

} // verus!
