//! Register and login against the user store: duplicate-account prevention,
//! salted password hashing and checking, and token issuance on a successful
//! login.

use vstd::prelude::*;

use crate::hashing::hash;
use crate::hashing::MAX_HASHABLE_PASSWORD_CHARS;
use crate::hashing::phc_matches;
use crate::hashing::verify;
use crate::ids::generate_user_id;
use crate::ids::user_id_to_string;
use crate::ids::uuid_of;
use crate::ids::uuid_str;
use crate::model::LoginUserSchema;
use crate::model::RegisterUserSchema;
use crate::model::User;
use crate::response::Error;
use crate::store::emails_unique;
use crate::store::lemma_find_user_none;
use crate::store::spec_find_user;
use crate::store::UserStore;
use crate::token::token_claims;
use crate::token::token_of;
use crate::token::TokenService;
use crate::token::TOKEN_TTL_SECONDS;
use crate::JWTConfig;

verus! {

/// Failures of the auth use cases. The domain errors (`RegisterEmailAlreadyExist`,
/// `IncorrectLogin`) are surfaced with their own business codes; the
/// infrastructure errors stay opaque to the client.
#[derive(Debug, PartialEq, Eq)]
pub enum AuthError {
    RegisterEmailAlreadyExist,
    PasswordHashingFailed,
    DatabaseError(String),
    IncorrectLogin,
    TokenEncodingError,
}

/// The business code of each failure. An unknown email and a wrong password
/// share one code, so a caller cannot tell the two apart.
pub open spec fn spec_business_code(e: AuthError) -> int {
    match e {
        AuthError::RegisterEmailAlreadyExist => 4009,
        AuthError::IncorrectLogin => 4010,
        AuthError::DatabaseError(_) => 9000,
        AuthError::PasswordHashingFailed => 9001,
        AuthError::TokenEncodingError => 9002,
    }
}

impl Error for AuthError {
    fn get_business_code(&self) -> (r: i32)
        ensures
            r as int == spec_business_code(*self),
    {
        match self {
            AuthError::RegisterEmailAlreadyExist => 4009,
            AuthError::IncorrectLogin => 4010,
            AuthError::DatabaseError(_) => 9000,
            AuthError::PasswordHashingFailed => 9001,
            AuthError::TokenEncodingError => 9002,
        }
    }

    fn get_error_details(&self) -> (r: Option<Vec<&str>>)
        ensures
            match *self {
                AuthError::DatabaseError(_) => (r matches Some(v) && v@.len() == 1 && (
                *self matches AuthError::DatabaseError(e) && v@[0]@ == e@)),
                _ => r is None,
            },
    {
        match self {
            AuthError::DatabaseError(e) => Some(vec![e.as_str()]),
            _ => None,
        }
    }
}

impl AuthError {
    /// The human-readable message of each failure; never carries internal
    /// detail.
    pub fn message(&self) -> (r: String)
        ensures
            *self matches AuthError::RegisterEmailAlreadyExist ==> r@ == "Email already exist"@,
            *self matches AuthError::PasswordHashingFailed ==> r@ == "Password Hashing Error"@,
            *self matches AuthError::DatabaseError(_) ==> r@ == "Database Error"@,
            *self matches AuthError::IncorrectLogin ==> r@ == "Incorrect Login information"@,
            *self matches AuthError::TokenEncodingError ==> r@ == "Token Encoding Error"@,
    {
        match self {
            AuthError::RegisterEmailAlreadyExist => "Email already exist".to_owned(),
            AuthError::PasswordHashingFailed => "Password Hashing Error".to_owned(),
            AuthError::DatabaseError(_) => "Database Error".to_owned(),
            AuthError::IncorrectLogin => "Incorrect Login information".to_owned(),
            AuthError::TokenEncodingError => "Token Encoding Error".to_owned(),
        }
    }
}

/// The credential store and token issuance, over the user store and the
/// signing configuration.
pub struct AuthRepository {
    pub store: UserStore,
    pub jwt_config: JWTConfig,
}

impl AuthRepository {
    pub fn new(store: UserStore, jwt_config: JWTConfig) -> (r: Self)
        ensures
            r.store == store,
            r.jwt_config == jwt_config,
    {
        AuthRepository { store, jwt_config }
    }

    /// Register a new account: reject a duplicate email before any hashing
    /// work, then hash the password with a fresh salt and append the record
    /// with `verified = false` and role `"user"`.
    pub fn register_new_user(&mut self, register_schema: RegisterUserSchema, now: u64) -> (r:
        Result<u128, AuthError>)
        requires
            old(self).store@.len() < usize::MAX,
            register_schema.name is Some,
            register_schema.email is Some,
            register_schema.password is Some,
        ensures
            final(self).jwt_config == old(self).jwt_config,
            spec_find_user(old(self).store@, register_schema.email.unwrap()@) is Some ==> (r
                == Err::<u128, AuthError>(AuthError::RegisterEmailAlreadyExist)
                && final(self).store@ == old(self).store@),
            r is Err ==> final(self).store@ == old(self).store@,
            (spec_find_user(old(self).store@, register_schema.email.unwrap()@) is None && r is Err)
                ==> r == Err::<u128, AuthError>(AuthError::PasswordHashingFailed),
            (spec_find_user(old(self).store@, register_schema.email.unwrap()@) is None
                && register_schema.password.unwrap()@.len() <= MAX_HASHABLE_PASSWORD_CHARS) ==> r is Ok,
            r matches Ok(id) ==> {
                &&& final(self).store@ == old(self).store@.push(final(self).store@.last())
                &&& final(self).store@.last().id == id
                &&& final(self).store@.last().name == register_schema.name.unwrap()
                &&& final(self).store@.last().email == register_schema.email.unwrap()
                &&& phc_matches(
                    final(self).store@.last().password@,
                    register_schema.password.unwrap()@,
                )
                &&& final(self).store@.last().verified == false
                &&& final(self).store@.last().role@ == "user"@
                &&& final(self).store@.last().photo@ == (if register_schema.photo is Some {
                    register_schema.photo.unwrap()@
                } else {
                    Seq::<char>::empty()
                })
                &&& final(self).store@.last().created_at == now
                &&& final(self).store@.last().updated_at == now
            },
            (emails_unique(old(self).store@)) ==> emails_unique(final(self).store@),
    {
        let reg_name = register_schema.name.unwrap();
        let reg_email = register_schema.email.unwrap();
        let reg_password = register_schema.password.unwrap();
        let reg_photo = match register_schema.photo {
            Some(p) => p,
            None => String::new(),
        };

        if self.store.find_user_by_email(&reg_email).is_some() {
            return Err(AuthError::RegisterEmailAlreadyExist);
        }

        let hashed_password = match hash(reg_password.as_str()) {
            Some(h) => h,
            None => {
                return Err(AuthError::PasswordHashingFailed);
            },
        };

        let new_user = User {
            id: generate_user_id(),
            name: reg_name,
            email: reg_email,
            photo: reg_photo,
            verified: false,
            password: hashed_password,
            role: "user".to_owned(),
            created_at: now,
            updated_at: now,
        };
        proof {
            if emails_unique(self.store@) {
                lemma_find_user_none(self.store@, new_user.email@);
                assert forall|i: int, j: int|
                    0 <= i < self.store@.push(new_user).len() && 0 <= j < self.store@.push(
                        new_user,
                    ).len() && i != j implies self.store@.push(new_user)[i].email@
                    != self.store@.push(new_user)[j].email@ by {
                    if i < self.store@.len() && j < self.store@.len() {
                        assert(self.store@[i].email@ != self.store@[j].email@);
                    }
                }
            }
        }
        let id = self.store.insert_user(new_user);
        Ok(id)
    }

    /// Log in: look the account up by email, check the password against the
    /// stored hash, and on a match issue a token good for sixty minutes.
    /// An unknown email and a wrong password fail identically.
    pub fn login_user(&self, login_schema: LoginUserSchema, now: u64) -> (r: Result<
        String,
        AuthError,
    >)
        requires
            login_schema.email is Some,
            login_schema.password is Some,
            now + TOKEN_TTL_SECONDS <= u64::MAX,
        ensures
            spec_find_user(self.store@, login_schema.email.unwrap()@) is None ==> r == Err::<
                String,
                AuthError,
            >(AuthError::IncorrectLogin),
            spec_find_user(self.store@, login_schema.email.unwrap()@) matches Some(u) ==> (
            !phc_matches(u.password@, login_schema.password.unwrap()@) ==> r == Err::<
                String,
                AuthError,
            >(AuthError::IncorrectLogin)),
            spec_find_user(self.store@, login_schema.email.unwrap()@) matches Some(u) ==> (
            phc_matches(u.password@, login_schema.password.unwrap()@) ==> (r matches Ok(t) && t@
                == token_of(
                uuid_str(u.id),
                now,
                (now + TOKEN_TTL_SECONDS) as u64,
                self.jwt_config.jwt_secret@,
            ) && token_claims(t@, self.jwt_config.jwt_secret@) == Some(
                (uuid_str(u.id), now, (now + TOKEN_TTL_SECONDS) as u64),
            ) && uuid_of(uuid_str(u.id)) == Some(u.id))),
    {
        let login_email = login_schema.email.unwrap();
        let login_password = login_schema.password.unwrap();

        let user = match self.store.find_user_by_email(&login_email) {
            Some(u) => u,
            None => {
                return Err(AuthError::IncorrectLogin);
            },
        };

        if !verify(login_password.as_str(), user.password.as_str()) {
            return Err(AuthError::IncorrectLogin);
        }

        let sub = user_id_to_string(user.id);
        let service = TokenService::new(self.jwt_config.jwt_secret.clone());
        match service.issue(sub.as_str(), now, TOKEN_TTL_SECONDS) {
            Ok(token) => Ok(token),
            Err(_) => Err(AuthError::TokenEncodingError),
        }
    }
}

} // verus!
