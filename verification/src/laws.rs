//! The library-wide laws, each proved from the contracts the modules state:
//! what registration guarantees a later login, how duplicate emails are
//! rejected, why failed logins are indistinguishable, when tokens verify,
//! and what the middleware lets through on either transport path.

use vstd::prelude::*;

use crate::hashing::phc_matches;
use crate::ids::uuid_of;
use crate::jwt_auth::bearer_prefix;
use crate::jwt_auth::spec_extract_token;
use crate::jwt_auth::spec_gate_claims;
use crate::jwt_auth::spec_gate_subject;
use crate::model::User;
use crate::response::APIResponse;
use crate::service::spec_incorrect_login;
use crate::store::lemma_find_user_occupied;
use crate::store::lemma_find_user_push_fresh;
use crate::store::spec_find_user;
use crate::token::spec_verify;
use crate::token::token_claims;

verus! {

/// Law: registering a fresh email appends a record that a later login with
/// the same credentials finds and accepts. `register_new_user` appends a
/// record `u` whose email was not in the store and whose stored hash matches
/// the chosen password; the lookup then yields exactly `u`, and the accepted
/// password is the one that was registered — the hypotheses of
/// `login_user`'s success clause.
pub proof fn lemma_register_then_login(users: Seq<User>, u: User, password: Seq<char>)
    requires
        spec_find_user(users, u.email@) is None,
        phc_matches(u.password@, password),
    ensures
        spec_find_user(users.push(u), u.email@) == Some(u),
        spec_find_user(users.push(u), u.email@) matches Some(w) && phc_matches(
            w.password@,
            password,
        ),
{
    lemma_find_user_push_fresh(users, u, u.email@);
}

/// Law: a registration that reuses the email of any existing record is
/// rejected as a duplicate, whatever password it carries: the guarding
/// lookup finds a record, and `register_new_user` then reports
/// `RegisterEmailAlreadyExist` with the store unchanged, before any hashing
/// work — no clause of its contract reads the password on this path.
pub proof fn lemma_duplicate_email_rejected(users: Seq<User>, i: int, email: Seq<char>)
    requires
        0 <= i < users.len(),
        users[i].email@ == email,
    ensures
        spec_find_user(users, email) is Some,
{
    lemma_find_user_occupied(users, email, i);
}

/// Law: the envelope of a login that failed on an unknown email and the
/// envelope of one that failed on a wrong password agree in every
/// client-visible field — same flag, same business code, same message, no
/// details, no payload — so the caller cannot tell the two apart.
pub proof fn lemma_login_failures_indistinguishable<T>(r1: APIResponse<T>, r2: APIResponse<T>)
    requires
        spec_incorrect_login(r1),
        spec_incorrect_login(r2),
    ensures
        r1.success == r2.success,
        r1.business_code == r2.business_code,
        r1.message@ == r2.message@,
        r1.error_details is None && r2.error_details is None,
        r1.results is None && r2.results is None,
{
}

/// Law: a token that `issue` built at `now` with a positive lifetime is
/// accepted by verification at that same moment and yields the same subject
/// back.
pub proof fn lemma_issue_then_verify(
    token: Seq<char>,
    sub: Seq<char>,
    secret: Seq<char>,
    now: u64,
    ttl: u64,
)
    requires
        now + ttl <= u64::MAX,
        ttl > 0,
        token_claims(token, secret) == Some((sub, now, (now + ttl) as u64)),
    ensures
        spec_verify(token, secret, now) == Some((sub, now, (now + ttl) as u64)),
{
}

/// Law: a token whose expiry has elapsed is rejected even when its signature
/// still checks out (its claims still decode under the right secret).
pub proof fn lemma_expired_token_rejected(
    token: Seq<char>,
    sub: Seq<char>,
    iat: u64,
    exp: u64,
    secret: Seq<char>,
    now: u64,
)
    requires
        token_claims(token, secret) == Some((sub, iat, exp)),
        exp <= now,
    ensures
        spec_verify(token, secret, now) is None,
{
}

/// Law: a request with no candidate token, one whose token does not decode
/// under the secret, and one whose token has expired all authenticate no
/// claims, so the middleware resolves each to the same `Unauthorized` rejection
/// before any protected handler could run.
pub proof fn lemma_gate_rejects(
    cookie: Option<Seq<char>>,
    header: Option<Seq<char>>,
    secret: Seq<char>,
    now: u64,
)
    requires
        match spec_extract_token(cookie, header) {
            None => true,
            Some(t) => token_claims(t, secret) is None || (token_claims(t, secret) matches Some(
                (sub, iat, exp),
            ) && exp <= now),
        },
    ensures
        spec_gate_claims(cookie, header, secret, now) is None,
        spec_gate_subject(cookie, header, secret, now) is None,
{
}

/// Law: a valid, unexpired token authenticates the same subject id whether
/// it arrives in the `token` cookie or behind the `Bearer ` prefix of the
/// `Authorization` header.
pub proof fn lemma_gate_accepts_both_paths(
    token: Seq<char>,
    sub: Seq<char>,
    iat: u64,
    exp: u64,
    id: u128,
    secret: Seq<char>,
    now: u64,
)
    requires
        token_claims(token, secret) == Some((sub, iat, exp)),
        now < exp,
        uuid_of(sub) == Some(id),
    ensures
        spec_gate_subject(Some(token), None, secret, now) == Some(id),
        spec_gate_subject(None, Some(bearer_prefix() + token), secret, now) == Some(id),
{
    let h = bearer_prefix() + token;
    assert(h.subrange(0, 7) =~= bearer_prefix());
    assert(h.skip(7) =~= token);
}

/// Law (round trip, one direction): every hash that `hash` may hand back for
/// a password verifies against that password — `hash` ensures
/// `phc_matches` of its result, and `verify` returns exactly `phc_matches`.
/// The converse, that any other password is rejected, is a cryptographic
/// property of argon2 that no contract here states; the tests exercise it.
pub proof fn lemma_hash_then_verify(stored: Seq<char>, password: Seq<char>)
    requires
        phc_matches(stored, password),
    ensures
        phc_matches(stored, password) == true,
{
}

} // verus!
