//! Token service: issues and verifies signed, stateless session tokens
//! carrying a subject identifier, an issued-at time and an expiry. Signing
//! and signature checking are done by the jsonwebtoken crate behind trusted
//! wrappers; expiry is enforced strictly by verified code against a clock
//! value supplied by the caller.

use vstd::prelude::*;

verus! {

/// How long an issued session token stays valid, in seconds: fixed at sixty
/// minutes after issuance.
pub const TOKEN_TTL_SECONDS: u64 = 3600;

/// The payload of a signed session token.
#[derive(Clone, Debug, PartialEq, Eq)]
pub struct TokenClaims {
    /// Subject: the user id, in its hyphenated text form.
    pub sub: String,
    /// Issued-at time, seconds since the epoch.
    pub iat: u64,
    /// Expiry time, seconds since the epoch.
    pub exp: u64,
}

/// The serialized, signed token that encoding the claims `(sub, iat, exp)`
/// under `secret` produces: a function of those arguments alone, named here
/// rather than spelled out.
pub uninterp spec fn token_of(sub: Seq<char>, iat: u64, exp: u64, secret: Seq<char>) -> Seq<char>;

/// The claims that `token` carries under `secret`, if its structure and its
/// signature check out, independent of any clock: a function of the two
/// strings alone.
pub uninterp spec fn token_claims(token: Seq<char>, secret: Seq<char>) -> Option<
    (Seq<char>, u64, u64),
>;

/// Relies on `jsonwebtoken::encode` with the default header (HS256) and
/// `EncodingKey::from_secret`: HMAC signing cannot fail and serializing a
/// string-keyed map cannot fail, so the call succeeds; the result is a
/// function of the claims and the secret; and `jsonwebtoken::decode` under
/// the same secret yields the same claims back.
#[verifier::external_body]
fn jwt_encode(sub: &str, iat: u64, exp: u64, secret: &str) -> (r: Option<String>)
    ensures
        r is Some,
        r matches Some(t) ==> t@ == token_of(sub@, iat, exp, secret@),
        r matches Some(t) ==> token_claims(t@, secret@) == Some((sub@, iat, exp)),
{
    let mut claims = serde_json::Map::new();
    claims.insert("sub".to_string(), serde_json::Value::from(sub));
    claims.insert("iat".to_string(), serde_json::Value::from(iat));
    claims.insert("exp".to_string(), serde_json::Value::from(exp));
    jsonwebtoken::encode(
        &jsonwebtoken::Header::default(),
        &serde_json::Value::Object(claims),
        &jsonwebtoken::EncodingKey::from_secret(secret.as_bytes()),
    )
        .ok()
}

/// Relies on `jsonwebtoken::decode` with the default validation except that
/// expiry checking is turned off (verified code enforces expiry strictly,
/// with no leeway): the outcome is then a function of the token and the
/// secret alone, and a malformed or wrongly signed token yields `None`.
#[verifier::external_body]
fn jwt_decode(token: &str, secret: &str) -> (r: Option<TokenClaims>)
    ensures
        r matches Some(c) ==> token_claims(token@, secret@) == Some((c.sub@, c.iat, c.exp)),
        r is None ==> token_claims(token@, secret@) is None,
{
    let mut validation = jsonwebtoken::Validation::default();
    validation.validate_exp = false;
    let key = jsonwebtoken::DecodingKey::from_secret(secret.as_bytes());
    let data = jsonwebtoken::decode::<serde_json::Value>(token, &key, &validation).ok()?;
    let sub = data.claims.get("sub")?.as_str()?.to_string();
    let iat = data.claims.get("iat")?.as_u64()?;
    let exp = data.claims.get("exp")?.as_u64()?;
    Some(TokenClaims { sub, iat, exp })
}

/// Failures of the token service. Issuance reports `EncodingFailed`;
/// verification collapses every cause — bad structure, wrong signature,
/// elapsed expiry — into the single `InvalidToken` outcome, so that nothing
/// useful is surfaced to a forger.
#[derive(Debug, PartialEq, Eq, Structural)]
pub enum TokenError {
    EncodingFailed,
    InvalidToken,
}

/// What verification of `token` under `secret` at time `now` yields: the
/// carried claims when the signature checks out and the expiry has not
/// elapsed, and nothing otherwise. Expiry is strict: a token is live only
/// while `now < exp`.
pub open spec fn spec_verify(token: Seq<char>, secret: Seq<char>, now: u64) -> Option<
    (Seq<char>, u64, u64),
> {
    match token_claims(token, secret) {
        Some((sub, iat, exp)) => if now < exp {
            Some((sub, iat, exp))
        } else {
            None
        },
        None => None,
    }
}

/// Issues and verifies signed session tokens with a symmetric secret that is
/// configured at startup and never rotated.
pub struct TokenService {
    pub secret: String,
}

impl TokenService {
    pub fn new(secret: String) -> (r: Self)
        ensures
            r.secret == secret,
    {
        TokenService { secret }
    }

    /// Build claims `iat = now`, `exp = now + ttl`, `sub = sub` and sign
    /// them. Signing with a symmetric secret cannot fail, so the result is
    /// always `Ok`; the error arm exists because issuance reports any
    /// signing failure as `EncodingFailed` rather than exposing a cause.
    pub fn issue(&self, sub: &str, now: u64, ttl: u64) -> (r: Result<String, TokenError>)
        requires
            now + ttl <= u64::MAX,
        ensures
            r is Ok,
            r matches Ok(t) ==> t@ == token_of(sub@, now, (now + ttl) as u64, self.secret@),
            r matches Ok(t) ==> token_claims(t@, self.secret@) == Some(
                (sub@, now, (now + ttl) as u64),
            ),
    {
        match jwt_encode(sub, now, now + ttl, &self.secret) {
            Some(t) => Ok(t),
            None => Err(TokenError::EncodingFailed),
        }
    }

    /// Validate the signature and then the expiry, strictly, against `now`.
    /// Every failure is the single `InvalidToken` outcome.
    pub fn verify(&self, token: &str, now: u64) -> (r: Result<TokenClaims, TokenError>)
        ensures
            spec_verify(token@, self.secret@, now) is None ==> r == Err::<
                TokenClaims,
                TokenError,
            >(TokenError::InvalidToken),
            spec_verify(token@, self.secret@, now) matches Some((sub, iat, exp)) ==> (r matches Ok(
                c,
            ) && c.sub@ == sub && c.iat == iat && c.exp == exp),
    {
        match jwt_decode(token, &self.secret) {
            Some(c) => {
                if now < c.exp {
                    Ok(c)
                } else {
                    Err(TokenError::InvalidToken)
                }
            },
            None => Err(TokenError::InvalidToken),
        }
    }
}

} // verus!
