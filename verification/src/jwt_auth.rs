//! The per-request authentication middleware: extract a candidate token from the
//! `token` cookie or, failing that, from the `Authorization` header behind a
//! `Bearer ` scheme prefix; verify it; parse its subject as a user id. Any
//! missing, malformed or expired token is rejected with the one
//! `Unauthorized` outcome before a protected handler could run.

use vstd::prelude::*;

use crate::ids::parse_user_id;
use crate::ids::uuid_of;
use crate::token::spec_verify;
use crate::token::TokenService;

verus! {

/// Rejections of the middleware. A missing, malformed or expired token is
/// `Unauthorized`; a valid token whose subject does not parse as a user id
/// is the distinct `MalformedSubject`, carrying the offending subject.
#[derive(Debug, PartialEq, Eq)]
pub enum GateError {
    Unauthorized,
    MalformedSubject(String),
}

/// The scheme prefix stripped from the `Authorization` header.
pub open spec fn bearer_prefix() -> Seq<char> {
    seq!['B', 'e', 'a', 'r', 'e', 'r', ' ']
}

/// The view of an optional borrowed string.
pub open spec fn opt_view(o: Option<&String>) -> Option<Seq<char>> {
    match o {
        Some(s) => Some(s@),
        None => None,
    }
}

/// The candidate token of a request: the `token` cookie when present, else
/// what follows a `Bearer ` prefix in the `Authorization` header. A header
/// that is shorter than the prefix or carries another scheme yields no
/// candidate (extraction fails closed on malformed headers).
pub open spec fn spec_extract_token(cookie: Option<Seq<char>>, header: Option<Seq<char>>) -> Option<
    Seq<char>,
> {
    match cookie {
        Some(c) => Some(c),
        None => match header {
            Some(h) => if h.len() >= 7 && h.subrange(0, 7) == bearer_prefix() {
                Some(h.skip(7))
            } else {
                None
            },
            None => None,
        },
    }
}

/// The claims a request authenticates with, if any: its candidate token must
/// exist and must verify — signature and strict expiry — under `secret` at
/// time `now`.
pub open spec fn spec_gate_claims(
    cookie: Option<Seq<char>>,
    header: Option<Seq<char>>,
    secret: Seq<char>,
    now: u64,
) -> Option<(Seq<char>, u64, u64)> {
    match spec_extract_token(cookie, header) {
        Some(t) => spec_verify(t, secret, now),
        None => None,
    }
}

/// The subject id a request resolves to, if the middleware lets it through: the
/// authenticated claims must exist and their subject must parse as a user
/// id.
pub open spec fn spec_gate_subject(
    cookie: Option<Seq<char>>,
    header: Option<Seq<char>>,
    secret: Seq<char>,
    now: u64,
) -> Option<u128> {
    match spec_gate_claims(cookie, header, secret, now) {
        Some((sub, iat, exp)) => uuid_of(sub),
        None => None,
    }
}

/// The authenticated caller of a request that passed the middleware.
#[derive(Clone, Copy, Debug, PartialEq, Eq, Structural)]
pub struct JwtMiddleware {
    pub user_id: u128,
}

/// Pick the candidate token out of the request's cookie and header values.
pub fn extract_token(cookie_token: Option<&String>, auth_header: Option<&String>) -> (r: Option<
    String,
>)
    ensures
        match r {
            Some(t) => spec_extract_token(opt_view(cookie_token), opt_view(auth_header)) == Some(
                t@,
            ),
            None => spec_extract_token(opt_view(cookie_token), opt_view(auth_header)) is None,
        },
{
    match cookie_token {
        Some(c) => Some(c.clone()),
        None => match auth_header {
            Some(h) => {
                let hs = h.as_str();
                let n = hs.unicode_len();
                if n < 7 {
                    return None;
                }
                let scheme = hs.substring_char(0, 7).to_owned();
                let expected = "Bearer ".to_owned();
                proof {
                    reveal_strlit("Bearer ");
                    assert("Bearer "@ =~= bearer_prefix());
                }
                if scheme == expected {
                    proof {
                        assert(h@.skip(7) =~= h@.subrange(7, n as int));
                    }
                    Some(hs.substring_char(7, n).to_owned())
                } else {
                    None
                }
            },
            None => None,
        },
    }
}

impl JwtMiddleware {
    /// Screen one request: resolve to the authenticated user id or
    /// to a rejection, before any protected handler is reached.
    pub fn from_request(
        cookie_token: Option<&String>,
        auth_header: Option<&String>,
        token_service: &TokenService,
        now: u64,
    ) -> (r: Result<JwtMiddleware, GateError>)
        ensures
            spec_gate_claims(
                opt_view(cookie_token),
                opt_view(auth_header),
                token_service.secret@,
                now,
            ) is None ==> r == Err::<JwtMiddleware, GateError>(GateError::Unauthorized),
            r matches Ok(m) ==> spec_gate_subject(
                opt_view(cookie_token),
                opt_view(auth_header),
                token_service.secret@,
                now,
            ) == Some(m.user_id),
            spec_gate_claims(
                opt_view(cookie_token),
                opt_view(auth_header),
                token_service.secret@,
                now,
            ) matches Some((sub, iat, exp)) ==> match uuid_of(sub) {
                Some(id) => r == Ok::<JwtMiddleware, GateError>((JwtMiddleware { user_id: id })),
                None => r matches Err(e) && e matches GateError::MalformedSubject(s) && s@ == sub,
            },
    {
        let token = match extract_token(cookie_token, auth_header) {
            Some(t) => t,
            None => {
                return Err(GateError::Unauthorized);
            },
        };
        let claims = match token_service.verify(token.as_str(), now) {
            Ok(c) => c,
            Err(_) => {
                return Err(GateError::Unauthorized);
            },
        };
        match parse_user_id(claims.sub.as_str()) {
            Some(id) => Ok(JwtMiddleware { user_id: id }),
            None => Err(GateError::MalformedSubject(claims.sub)),
        }
    }
}

} // verus!
