use bakery_auth::create_bakery;
use bakery_auth::extract_token;
use bakery_auth::filter_user_record;
use bakery_auth::health_check_handler;
use bakery_auth::list_bakery;
use bakery_auth::APIResponse;
use bakery_auth::AuthError;
use bakery_auth::CookieInstruction;
use bakery_auth::Error;
use bakery_auth::User;

#[test]
fn http_status_follows_business_code_ranges() {
    let codes_and_statuses = [
        (1000, 200),
        (1001, 200),
        (2000, 200),
        (2999, 200),
        (3000, 500),
        (4001, 401),
        (4009, 409),
        (4010, 400),
        (8000, 400),
        (8999, 400),
        (9000, 500),
        (9999, 500),
        (0, 500),
        (-5, 500),
    ];
    for (code, status) in codes_and_statuses {
        let r = APIResponse::<()>::new(false, code, "m", None, None);
        assert_eq!(r.http_status(), status, "business code {code}");
    }
}

#[test]
fn envelope_constructors() {
    let ok = APIResponse::<()>::ok();
    assert!(ok.success);
    assert_eq!(ok.business_code, 1000);
    assert_eq!(ok.message, "Everything is okay");
    assert!(ok.error_details.is_none());
    assert!(ok.results.is_none());
    assert!(ok.cookies.is_none());

    let unauthorized = APIResponse::<()>::unauthorized();
    assert!(!unauthorized.success);
    assert_eq!(unauthorized.business_code, 4001);
    assert_eq!(unauthorized.message, "Unauthorized Access");

    let internal = APIResponse::<()>::unknown_internal_error();
    assert!(!internal.success);
    assert_eq!(internal.business_code, 9999);
    assert_eq!(internal.message, "An unknown cause internal error has occured!");

    let validation = APIResponse::<()>::validation_error(vec!["field is bad".to_string()]);
    assert!(!validation.success);
    assert_eq!(validation.business_code, 4010);
    assert_eq!(validation.message, "Invalid parameters entered");
    assert_eq!(validation.error_details, Some(vec!["field is bad".to_string()]));
}

#[test]
fn new_copies_details_and_with_cookie_attaches() {
    let r = APIResponse::<u32>::new(
        true,
        1000,
        "made it",
        Some(vec!["one", "two"]),
        Some(5),
    );
    assert_eq!(r.message, "made it");
    assert_eq!(
        r.error_details,
        Some(vec!["one".to_string(), "two".to_string()])
    );
    assert_eq!(r.results, Some(5));
    assert!(r.cookies.is_none());

    let with = r.with_cookie(CookieInstruction {
        name: "token".to_string(),
        value: "abc".to_string(),
        path: "/".to_string(),
        http_only: true,
        max_age_seconds: 3600,
    });
    assert_eq!(with.results, Some(5));
    let c = with.cookies.expect("cookie attached");
    assert_eq!(c.name, "token");
    assert_eq!(c.value, "abc");
}

#[test]
fn auth_error_codes_messages_details() {
    assert_eq!(AuthError::RegisterEmailAlreadyExist.get_business_code(), 4009);
    assert_eq!(AuthError::IncorrectLogin.get_business_code(), 4010);
    assert_eq!(AuthError::DatabaseError("boom".to_string()).get_business_code(), 9000);
    assert_eq!(AuthError::PasswordHashingFailed.get_business_code(), 9001);
    assert_eq!(AuthError::TokenEncodingError.get_business_code(), 9002);

    assert_eq!(AuthError::RegisterEmailAlreadyExist.message(), "Email already exist");
    assert_eq!(AuthError::PasswordHashingFailed.message(), "Password Hashing Error");
    assert_eq!(AuthError::DatabaseError("boom".to_string()).message(), "Database Error");
    assert_eq!(AuthError::IncorrectLogin.message(), "Incorrect Login information");
    assert_eq!(AuthError::TokenEncodingError.message(), "Token Encoding Error");

    assert!(AuthError::IncorrectLogin.get_error_details().is_none());
    let db = AuthError::DatabaseError("boom".to_string());
    assert_eq!(db.get_error_details(), Some(vec!["boom"]));
}

#[test]
fn filtered_user_drops_hash_and_renders_id() {
    let user = User {
        id: 0x0123_4567_89ab_cdef_0123_4567_89ab_cdef,
        name: "A".to_string(),
        email: "a@x.com".to_string(),
        photo: "avatar.png".to_string(),
        verified: false,
        password: "$argon2id$...".to_string(),
        role: "user".to_string(),
        created_at: 1_000,
        updated_at: 2_000,
    };
    let fu = filter_user_record(&user);
    assert_eq!(fu.name, "A");
    assert_eq!(fu.email, "a@x.com");
    assert_eq!(fu.role, "user");
    assert_eq!(fu.photo, "avatar.png");
    assert!(!fu.verified);
    assert_eq!(fu.created_at, 1_000);
    assert_eq!(fu.updated_at, 2_000);
    assert_eq!(fu.id.len(), 36);
    let parsed = uuid::Uuid::parse_str(&fu.id).expect("canonical uuid text");
    assert_eq!(parsed.as_u128(), user.id);
}

#[test]
fn stub_endpoints() {
    let health = health_check_handler();
    assert!(health.success);
    assert_eq!(health.business_code, 1000);
    assert_eq!(health.message, "I'm alive!");

    let created = create_bakery();
    assert!(created.success);
    assert_eq!(created.business_code, 1000);

    let listed = list_bakery();
    assert!(!listed.success);
    assert_eq!(listed.business_code, 9999);
}

#[test]
fn extraction_prefers_cookie_and_strips_bearer() {
    let cookie = "cookie-token".to_string();
    let header = "Bearer header-token".to_string();

    assert_eq!(
        extract_token(Some(&cookie), Some(&header)),
        Some("cookie-token".to_string())
    );
    assert_eq!(
        extract_token(None, Some(&header)),
        Some("header-token".to_string())
    );
    assert_eq!(extract_token(None, None), None);

    let bare = "Bearer ".to_string();
    assert_eq!(extract_token(None, Some(&bare)), Some(String::new()));

    let short = "Bear".to_string();
    assert_eq!(extract_token(None, Some(&short)), None);

    let wrong_scheme = "Token header-token".to_string();
    assert_eq!(extract_token(None, Some(&wrong_scheme)), None);
}
