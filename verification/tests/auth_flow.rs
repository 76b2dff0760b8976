use bakery_auth::login;
use bakery_auth::logout;
use bakery_auth::register;
use bakery_auth::AuthRepository;
use bakery_auth::JWTConfig;
use bakery_auth::JwtMiddleware;
use bakery_auth::LoginUserSchema;
use bakery_auth::RegisterUserSchema;
use bakery_auth::TokenService;
use bakery_auth::UserStore;

fn new_repo(secret: &str) -> AuthRepository {
    AuthRepository::new(
        UserStore::new(),
        JWTConfig::new(secret.to_string(), "60m".to_string(), 3600),
    )
}

fn register_schema(name: &str, email: &str, password: &str) -> RegisterUserSchema {
    RegisterUserSchema {
        name: Some(name.to_string()),
        email: Some(email.to_string()),
        password: Some(password.to_string()),
        photo: None,
    }
}

fn login_schema(email: &str, password: &str) -> LoginUserSchema {
    LoginUserSchema {
        email: Some(email.to_string()),
        password: Some(password.to_string()),
    }
}

#[test]
fn register_then_login_succeeds() {
    let mut repo = new_repo("s3cret");
    let r = register(register_schema("A", "a@x.com", "secret123"), &mut repo, 1_000);
    assert!(r.success);
    assert_eq!(r.business_code, 1001);
    assert_eq!(r.message, "User registration successful");
    assert!(r.results.is_some());

    let l = login(login_schema("a@x.com", "secret123"), &repo, 2_000);
    assert!(l.success);
    assert_eq!(l.business_code, 2000);
    assert_eq!(l.message, "Login success");
    let token = l.results.expect("login payload").token;
    assert!(!token.is_empty());
    let cookie = l.cookies.expect("login cookie");
    assert_eq!(cookie.name, "token");
    assert_eq!(cookie.value, token);
    assert_eq!(cookie.path, "/");
    assert!(cookie.http_only);
    assert_eq!(cookie.max_age_seconds, 3600);

    let service = TokenService::new("s3cret".to_string());
    let claims = service.verify(&token, 2_000).expect("fresh login token verifies");
    assert_eq!(claims.iat, 2_000);
    assert_eq!(claims.exp, 2_000 + 3_600);
}

#[test]
fn duplicate_email_rejected_regardless_of_password() {
    let mut repo = new_repo("s3cret");
    let first = register(register_schema("A", "a@x.com", "secret123"), &mut repo, 1_000);
    assert!(first.success);

    let same_password = register(register_schema("B", "a@x.com", "secret123"), &mut repo, 1_100);
    assert!(!same_password.success);
    assert_eq!(same_password.business_code, 4009);
    assert_eq!(same_password.message, "Email already exist");

    let other_password = register(register_schema("C", "a@x.com", "other456"), &mut repo, 1_200);
    assert!(!other_password.success);
    assert_eq!(other_password.business_code, 4009);
    assert_eq!(other_password.message, "Email already exist");
}

#[test]
fn login_failures_are_indistinguishable() {
    let mut repo = new_repo("s3cret");
    let r = register(register_schema("A", "a@x.com", "secret123"), &mut repo, 1_000);
    assert!(r.success);

    let wrong_password = login(login_schema("a@x.com", "not-the-one"), &repo, 2_000);
    let unknown_email = login(login_schema("b@y.com", "secret123"), &repo, 2_000);

    assert!(!wrong_password.success);
    assert!(!unknown_email.success);
    assert_eq!(wrong_password.business_code, unknown_email.business_code);
    assert_eq!(wrong_password.business_code, 4010);
    assert_eq!(wrong_password.message, unknown_email.message);
    assert_eq!(wrong_password.message, "Incorrect Login information");
    assert!(wrong_password.error_details.is_none());
    assert!(unknown_email.error_details.is_none());
    assert!(wrong_password.results.is_none());
    assert!(unknown_email.results.is_none());
}

#[test]
fn register_validation_reports_each_field() {
    let mut repo = new_repo("s3cret");
    let empty = RegisterUserSchema { name: None, email: None, password: None, photo: None };
    let r = register(empty, &mut repo, 1_000);
    assert!(!r.success);
    assert_eq!(r.business_code, 4010);
    assert_eq!(r.message, "Invalid Parameter entered");
    let details = r.error_details.expect("per-field messages");
    assert_eq!(details.len(), 3);
    assert_eq!(details[0], "name is required, at most 255 characters");
    assert_eq!(
        details[1],
        "email is required, a well-formed address of at most 510 characters"
    );
    assert_eq!(details[2], "password is required");
}

#[test]
fn register_rejects_malformed_email() {
    let mut repo = new_repo("s3cret");
    let r = register(register_schema("A", "not-an-email", "secret123"), &mut repo, 1_000);
    assert!(!r.success);
    assert_eq!(r.business_code, 4010);
    let details = r.error_details.expect("per-field messages");
    assert_eq!(details.len(), 1);
    assert_eq!(
        details[0],
        "email is required, a well-formed address of at most 510 characters"
    );
}

#[test]
fn register_rejects_overlong_name() {
    let mut repo = new_repo("s3cret");
    let long_name: String = "x".repeat(256);
    let r = register(register_schema(&long_name, "a@x.com", "secret123"), &mut repo, 1_000);
    assert!(!r.success);
    assert_eq!(r.business_code, 4010);
    let details = r.error_details.expect("per-field messages");
    assert_eq!(details, vec!["name is required, at most 255 characters".to_string()]);
}

#[test]
fn register_accepts_name_at_length_bound() {
    let mut repo = new_repo("s3cret");
    let name_at_bound: String = "x".repeat(255);
    let r = register(register_schema(&name_at_bound, "a@x.com", "secret123"), &mut repo, 1_000);
    assert!(r.success);
    assert_eq!(r.business_code, 1001);
}

#[test]
fn register_rejects_overlong_email() {
    let mut repo = new_repo("s3cret");
    let long_email = format!("{}@x.com", "a".repeat(510));
    let r = register(register_schema("A", &long_email, "secret123"), &mut repo, 1_000);
    assert!(!r.success);
    assert_eq!(r.business_code, 4010);
    let details = r.error_details.expect("per-field messages");
    assert_eq!(
        details,
        vec!["email is required, a well-formed address of at most 510 characters".to_string()]
    );
}

#[test]
fn register_rejects_empty_password() {
    let mut repo = new_repo("s3cret");
    let r = register(register_schema("A", "a@x.com", ""), &mut repo, 1_000);
    assert!(!r.success);
    assert_eq!(r.business_code, 4010);
    let details = r.error_details.expect("per-field messages");
    assert_eq!(details, vec!["password is required".to_string()]);
}

#[test]
fn login_validation_reports_fields() {
    let repo = new_repo("s3cret");
    let r = login(LoginUserSchema { email: None, password: None }, &repo, 1_000);
    assert!(!r.success);
    assert_eq!(r.business_code, 4010);
    assert_eq!(r.message, "Invalid parameters entered");
    let details = r.error_details.expect("per-field messages");
    assert_eq!(details.len(), 2);
    assert_eq!(
        details[0],
        "email is required, a well-formed address of at most 510 characters"
    );
    assert_eq!(details[1], "password is required");
}

#[test]
fn full_scenario() {
    let mut repo = new_repo("scenario-secret");
    let now: u64 = 1_700_000_000;

    let r = register(register_schema("A", "a@x.com", "secret123"), &mut repo, now);
    assert!(r.success);
    let account_id = r.results.expect("registration payload").account_id;

    let again = register(register_schema("A", "a@x.com", "secret123"), &mut repo, now + 1);
    assert!(!again.success);
    assert_eq!(again.business_code, 4009);

    let l = login(login_schema("a@x.com", "secret123"), &repo, now + 2);
    assert!(l.success);
    let token = l.results.expect("login payload").token;

    let wrong = login(login_schema("a@x.com", "wrong"), &repo, now + 3);
    assert!(!wrong.success);
    assert_eq!(wrong.business_code, 4010);
    assert_eq!(wrong.message, "Incorrect Login information");

    let service = TokenService::new("scenario-secret".to_string());
    let auth = JwtMiddleware::from_request(Some(&token), None, &service, now + 4)
        .expect("fresh token accepted");
    assert_eq!(auth.user_id, account_id);

    let out = logout(auth);
    assert!(out.success);
    assert_eq!(out.business_code, 2000);
    assert_eq!(out.message, "Logout complete");
    let cookie = out.cookies.expect("logout cookie");
    assert_eq!(cookie.name, "token");
    assert_eq!(cookie.value, "");
    assert_eq!(cookie.path, "/");
    assert!(cookie.http_only);
    assert_eq!(cookie.max_age_seconds, -1);
}

#[test]
fn registered_record_fields_and_photo_default() {
    let mut repo = new_repo("s3cret");
    let plain = register(register_schema("B", "b@y.com", "secret123"), &mut repo, 900);
    assert!(plain.success);
    let without_photo = repo
        .store
        .find_user_by_email(&"b@y.com".to_string())
        .expect("inserted record");
    assert_eq!(without_photo.photo, "");

    let mut schema = register_schema("A", "a@x.com", "secret123");
    schema.photo = Some("avatar.png".to_string());
    let r = register(schema, &mut repo, 1_000);
    assert!(r.success);

    let store = repo.store;
    let found = store.find_user_by_email(&"a@x.com".to_string()).expect("inserted record");
    assert_eq!(found.photo, "avatar.png");
    assert_eq!(found.role, "user");
    assert!(!found.verified);
    assert_eq!(found.created_at, 1_000);
    assert_eq!(found.updated_at, 1_000);
    assert_ne!(found.password, "secret123");
}
