//! Authentication core of a small bakery-store backend: salted password
//! hashing, duplicate-account prevention, signed session tokens, a
//! per-request authentication middleware, and the register/login/logout use cases,
//! together with the response envelope they produce.

use vstd::prelude::*;

mod hashing;
mod ids;
mod jwt_auth;
mod laws;
mod model;
mod repository;
mod response;
mod service;
mod store;
mod token;
mod validation;

pub use hashing::hash;
pub use hashing::MAX_HASHABLE_PASSWORD_CHARS;
pub use hashing::phc_matches;
pub use hashing::verify;
pub use ids::generate_user_id;
pub use jwt_auth::bearer_prefix;
pub use jwt_auth::spec_gate_subject;
pub use laws::lemma_duplicate_email_rejected;
pub use laws::lemma_expired_token_rejected;
pub use laws::lemma_gate_accepts_both_paths;
pub use laws::lemma_gate_rejects;
pub use laws::lemma_hash_then_verify;
pub use laws::lemma_issue_then_verify;
pub use laws::lemma_login_failures_indistinguishable;
pub use laws::lemma_register_then_login;
pub use jwt_auth::extract_token;
pub use jwt_auth::opt_view;
pub use jwt_auth::spec_extract_token;
pub use jwt_auth::spec_gate_claims;
pub use jwt_auth::GateError;
pub use jwt_auth::JwtMiddleware;
pub use model::LoginUserSchema;
pub use repository::spec_business_code;
pub use repository::AuthError;
pub use repository::AuthRepository;
pub use response::spec_http_status;
pub use token::TOKEN_TTL_SECONDS;
pub use response::str_views;
pub use response::string_views;
pub use response::APIResponse;
pub use response::CookieInstruction;
pub use response::Error;
pub use response::FilteredUser;
pub use response::LoginSuccessResponse;
pub use response::RegistrationSuccessResponse;
pub use response::UserData;
pub use response::UserResponse;
pub use model::RegisterUserSchema;
pub use model::User;
pub use service::create_bakery;
pub use service::filter_user_record;
pub use service::health_check_handler;
pub use service::list_bakery;
pub use service::login;
pub use service::logout;
pub use service::register;
pub use service::spec_incorrect_login;
pub use store::emails_unique;
pub use store::lemma_find_user_none;
pub use store::lemma_find_user_occupied;
pub use store::lemma_find_user_push_fresh;
pub use store::lemma_find_user_push_other;
pub use store::lemma_find_user_skip;
pub use store::spec_find_user;
pub use store::UserStore;
pub use ids::parse_user_id;
pub use ids::user_id_to_string;
pub use ids::uuid_of;
pub use ids::uuid_str;
pub use token::spec_verify;
pub use validation::email_ok;
pub use validation::spec_login_errors;
pub use validation::spec_register_errors;
pub use validation::spec_valid_email;
pub use validation::spec_valid_login;
pub use validation::spec_valid_name;
pub use validation::spec_valid_password;
pub use validation::spec_valid_register;
pub use validation::validate_login;
pub use validation::validate_register;
pub use token::token_claims;
pub use token::token_of;
pub use token::TokenClaims;
pub use token::TokenError;
pub use token::TokenService;

verus! {

/// Signing configuration, loaded once at startup and read-only afterwards.
///
/// `jwt_maxage` and `jwt_expire_in` are carried for startup validation only:
/// token expiry itself is fixed at sixty minutes after issuance.
#[derive(Clone)]
pub struct JWTConfig {
    pub jwt_secret: String,
    pub jwt_expire_in: String,
    pub jwt_maxage: i32,
}

impl JWTConfig {
    pub fn new(jwt_secret: String, jwt_expire_in: String, jwt_maxage: i32) -> (r: Self)
        ensures
            r.jwt_secret == jwt_secret,
            r.jwt_expire_in == jwt_expire_in,
            r.jwt_maxage == jwt_maxage,
    {
        JWTConfig { jwt_secret, jwt_expire_in, jwt_maxage }
    }
}

} // verus!
