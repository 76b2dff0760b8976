//! The auth use cases as the transport layer sees them: validate the input,
//! run the credential store and token service, and render the outcome into
//! the uniform response envelope. Also the two bakery-catalog placeholders
//! and the health check.

use vstd::prelude::*;

use crate::hashing::phc_matches;
use crate::hashing::MAX_HASHABLE_PASSWORD_CHARS;
use crate::ids::user_id_to_string;
use crate::ids::uuid_of;
use crate::ids::uuid_str;
use crate::jwt_auth::JwtMiddleware;
use crate::model::LoginUserSchema;
use crate::model::RegisterUserSchema;
use crate::model::User;
use crate::repository::AuthError;
use crate::repository::AuthRepository;
use crate::response::string_views;
use crate::response::str_views;
use crate::response::APIResponse;
use crate::response::CookieInstruction;
use crate::response::Error;
use crate::response::FilteredUser;
use crate::response::LoginSuccessResponse;
use crate::response::RegistrationSuccessResponse;
use crate::store::emails_unique;
use crate::store::spec_find_user;
use crate::token::token_claims;
use crate::token::token_of;
use crate::token::TOKEN_TTL_SECONDS;
use crate::validation::spec_login_errors;
use crate::validation::spec_register_errors;
use crate::validation::spec_valid_login;
use crate::validation::spec_valid_register;
use crate::validation::validate_login;
use crate::validation::validate_register;

verus! {

/// The envelope of a failed login: one shape for an unknown email and for a
/// wrong password, so the caller cannot tell which happened.
pub open spec fn spec_incorrect_login<T>(r: APIResponse<T>) -> bool {
    &&& r.success == false
    &&& r.business_code == 4010
    &&& r.message@ == "Incorrect Login information"@
    &&& r.error_details is None
    &&& r.results is None
    &&& r.cookies is None
}

/// A user record as exposed to clients: drops the password hash, renders the
/// id in its text form.
pub fn filter_user_record(user: &User) -> (r: FilteredUser)
    ensures
        r.id@ == uuid_str(user.id),
        r.name == user.name,
        r.email == user.email,
        r.role == user.role,
        r.photo == user.photo,
        r.verified == user.verified,
        r.created_at == user.created_at,
        r.updated_at == user.updated_at,
{
    FilteredUser {
        id: user_id_to_string(user.id),
        name: user.name.clone(),
        email: user.email.clone(),
        role: user.role.clone(),
        photo: user.photo.clone(),
        verified: user.verified,
        created_at: user.created_at,
        updated_at: user.updated_at,
    }
}

/// Register: validate the body, then create the account. Validation failures
/// come back with per-field messages; a duplicate email is a distinguishable
/// client error; a hashing failure stays opaque.
pub fn register(register_schema: RegisterUserSchema, repo: &mut AuthRepository, now: u64) -> (r:
    APIResponse<RegistrationSuccessResponse>)
    requires
        old(repo).store@.len() < usize::MAX,
    ensures
        final(repo).jwt_config == old(repo).jwt_config,
        emails_unique(old(repo).store@) ==> emails_unique(final(repo).store@),
        r.cookies is None,
        !spec_valid_register(register_schema) ==> {
            &&& final(repo).store@ == old(repo).store@
            &&& r.success == false
            &&& r.business_code == 4010
            &&& r.message@ == "Invalid Parameter entered"@
            &&& r.error_details matches Some(d) && string_views(d@) == spec_register_errors(
                register_schema,
            )
            &&& r.results is None
        },
        spec_valid_register(register_schema) ==> (spec_find_user(
            old(repo).store@,
            register_schema.email.unwrap()@,
        ) is Some ==> {
            &&& final(repo).store@ == old(repo).store@
            &&& r.success == false
            &&& r.business_code == 4009
            &&& r.message@ == "Email already exist"@
            &&& r.error_details is None
            &&& r.results is None
        }),
        spec_valid_register(register_schema) ==> (spec_find_user(
            old(repo).store@,
            register_schema.email.unwrap()@,
        ) is None ==> {
            ||| {
                &&& r.success == true
                &&& r.business_code == 1001
                &&& r.message@ == "User registration successful"@
                &&& r.error_details is None
                &&& final(repo).store@ == old(repo).store@.push(final(repo).store@.last())
                &&& r.results matches Some(p) && p.account_id == final(repo).store@.last().id
                &&& final(repo).store@.last().name == register_schema.name.unwrap()
                &&& final(repo).store@.last().email == register_schema.email.unwrap()
                &&& phc_matches(
                    final(repo).store@.last().password@,
                    register_schema.password.unwrap()@,
                )
                &&& final(repo).store@.last().verified == false
                &&& final(repo).store@.last().role@ == "user"@
                &&& final(repo).store@.last().photo@ == (if register_schema.photo is Some {
                    register_schema.photo.unwrap()@
                } else {
                    Seq::<char>::empty()
                })
                &&& final(repo).store@.last().created_at == now
                &&& final(repo).store@.last().updated_at == now
            }
            ||| {
                &&& register_schema.password.unwrap()@.len() > MAX_HASHABLE_PASSWORD_CHARS
                &&& r.success == false
                &&& r.business_code == 9001
                &&& r.message@ == "Password Hashing Error"@
                &&& r.error_details is None
                &&& r.results is None
                &&& final(repo).store@ == old(repo).store@
            }
        }),
{
    let errs = validate_register(&register_schema);
    if errs.len() > 0 {
        let n = errs.len();
        let mut details: Vec<&str> = Vec::new();
        for i in 0..n
            invariant
                n == errs@.len(),
                details@.len() == i,
                forall|k: int| 0 <= k < i ==> details@[k]@ == errs@[k]@,
        {
            details.push(errs[i].as_str());
        }
        proof {
            assert(str_views(details@) =~= string_views(errs@));
        }
        return APIResponse::new(false, 4010, "Invalid Parameter entered", Some(details), None);
    }

    match repo.register_new_user(register_schema, now) {
        Ok(id) => APIResponse::new(
            true,
            1001,
            "User registration successful",
            None,
            Some(RegistrationSuccessResponse { account_id: id }),
        ),
        Err(e) => {
            let code = e.get_business_code();
            let msg = e.message();
            let details = e.get_error_details();
            APIResponse::new(false, code, msg.as_str(), details, None)
        },
    }
}

/// Login: validate the body, check the credentials, and on a match hand the
/// token back together with the cookie instruction that installs it.
pub fn login(login_schema: LoginUserSchema, repo: &AuthRepository, now: u64) -> (r: APIResponse<
    LoginSuccessResponse,
>)
    requires
        now + TOKEN_TTL_SECONDS <= u64::MAX,
    ensures
        !spec_valid_login(login_schema) ==> {
            &&& r.success == false
            &&& r.business_code == 4010
            &&& r.message@ == "Invalid parameters entered"@
            &&& r.error_details matches Some(d) && string_views(d@) == spec_login_errors(
                login_schema,
            )
            &&& r.results is None
            &&& r.cookies is None
        },
        spec_valid_login(login_schema) ==> (spec_find_user(
            repo.store@,
            login_schema.email.unwrap()@,
        ) is None ==> spec_incorrect_login(r)),
        spec_valid_login(login_schema) ==> (spec_find_user(
            repo.store@,
            login_schema.email.unwrap()@,
        ) matches Some(u) ==> (!phc_matches(u.password@, login_schema.password.unwrap()@)
            ==> spec_incorrect_login(r))),
        spec_valid_login(login_schema) ==> (spec_find_user(
            repo.store@,
            login_schema.email.unwrap()@,
        ) matches Some(u) ==> (phc_matches(u.password@, login_schema.password.unwrap()@) ==> {
            &&& r.success == true
            &&& r.business_code == 2000
            &&& r.message@ == "Login success"@
            &&& r.error_details is None
            &&& r.results matches Some(p) && p.token@ == token_of(
                uuid_str(u.id),
                now,
                (now + TOKEN_TTL_SECONDS) as u64,
                repo.jwt_config.jwt_secret@,
            )
            &&& r.results matches Some(p) && token_claims(p.token@, repo.jwt_config.jwt_secret@)
                == Some((uuid_str(u.id), now, (now + TOKEN_TTL_SECONDS) as u64))
            &&& uuid_of(uuid_str(u.id)) == Some(u.id)
            &&& r.cookies matches Some(c) && r.results matches Some(p) && c.value == p.token
                && c.name@ == "token"@ && c.path@ == "/"@ && c.http_only == true
                && c.max_age_seconds == 3600
        })),
{
    let errs = validate_login(&login_schema);
    if errs.len() > 0 {
        return APIResponse::validation_error(errs);
    }

    match repo.login_user(login_schema, now) {
        Ok(tk) => APIResponse::new(
            true,
            2000,
            "Login success",
            None,
            Some(LoginSuccessResponse { token: tk.clone() }),
        ).with_cookie(
            CookieInstruction {
                name: "token".to_owned(),
                value: tk,
                path: "/".to_owned(),
                http_only: true,
                max_age_seconds: 3600,
            },
        ),
        Err(e) => {
            let code = e.get_business_code();
            let msg = e.message();
            let details = e.get_error_details();
            APIResponse::new(false, code, msg.as_str(), details, None)
        },
    }
}

/// Logout: only a caller that passed the middleware reaches this; it instructs the
/// client to drop the session cookie. The token itself stays valid until its
/// expiry — there is no server-side revocation.
pub fn logout(_auth: JwtMiddleware) -> (r: APIResponse<()>)
    ensures
        r.success == true,
        r.business_code == 2000,
        r.message@ == "Logout complete"@,
        r.error_details is None,
        r.results is None,
        r.cookies matches Some(c) && c.name@ == "token"@ && c.value@ == Seq::<char>::empty()
            && c.path@ == "/"@ && c.http_only == true && c.max_age_seconds == -1,
{
    APIResponse::new(true, 2000, "Logout complete", None, None).with_cookie(
        CookieInstruction {
            name: "token".to_owned(),
            value: String::new(),
            path: "/".to_owned(),
            http_only: true,
            max_age_seconds: -1,
        },
    )
}

/// Catalog creation placeholder: answers with the plain success envelope.
pub fn create_bakery() -> (r: APIResponse<()>)
    ensures
        r.success == true,
        r.business_code == 1000,
        r.results is None,
        r.cookies is None,
{
    APIResponse::ok()
}

/// Catalog listing placeholder: answers with the opaque
/// internal-error envelope.
pub fn list_bakery() -> (r: APIResponse<()>)
    ensures
        r.success == false,
        r.business_code == 9999,
        r.results is None,
        r.cookies is None,
{
    APIResponse::unknown_internal_error()
}

/// Liveness probe.
pub fn health_check_handler() -> (r: APIResponse<()>)
    ensures
        r.success == true,
        r.business_code == 1000,
        r.message@ == "I'm alive!"@,
        r.error_details is None,
        r.results is None,
        r.cookies is None,
{
    APIResponse::new(true, 1000, "I'm alive!", None, None)
}

} // verus!
