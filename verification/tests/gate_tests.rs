use rbac_auth::auth::{AuthHandler, LoginRequest, RegisterRequest};
use rbac_auth::errors::AppError;
use rbac_auth::gate::{
    authorize_request, begin_request, extract_bearer_token, finish_request, required_permission,
    GateStep, HttpMethod,
};
use rbac_auth::ids::{parse_uuid, UuidValue};
use rbac_auth::models::{Permission, RolePermission, User, UserRole};
use rbac_auth::password::Encryption;
use rbac_auth::rbac::RbacSnapshot;

const SECRET: &str = "0123456789abcdef0123456789abcdef";
const NOW: u64 = 1_700_000_000;
const USER_ID: u128 = 0xf47ac10b_58cc_4372_a567_0e02b2c3d479;

fn stored_user(password: &str) -> User {
    User {
        id: UuidValue { value: USER_ID },
        username: "alice".to_string(),
        email: "alice@example.com".to_string(),
        password_hash: Encryption::hash_password(password).unwrap(),
        created_at: 0,
        updated_at: 0,
    }
}

fn handler() -> AuthHandler {
    AuthHandler::new(SECRET.to_string(), 3600)
}

fn login_token() -> String {
    let req = LoginRequest { username: "alice".to_string(), password: "pw-of-8-chars".to_string() };
    let resp = handler().login(&req, Ok(stored_user("pw-of-8-chars")), NOW).unwrap();
    assert_eq!(resp.user.username, "alice");
    resp.token
}

fn empty_snapshot() -> RbacSnapshot {
    RbacSnapshot { user_roles: vec![], role_permissions: vec![], permissions: vec![] }
}

fn granting_snapshot(permission_name: &str) -> RbacSnapshot {
    RbacSnapshot {
        user_roles: vec![
            UserRole { user_id: UuidValue { value: USER_ID }, role_id: UuidValue { value: 10 }, created_at: 0 },
        ],
        role_permissions: vec![
            RolePermission { role_id: UuidValue { value: 10 }, permission_id: UuidValue { value: 100 }, created_at: 0 },
        ],
        permissions: vec![
            Permission {
                id: UuidValue { value: 100 },
                name: permission_name.to_string(),
                description: None,
                created_at: 0,
                updated_at: 0,
            },
        ],
    }
}

#[test]
fn login_with_valid_credentials_yields_a_working_token() {
    let token = login_token();
    let header = format!("Bearer {}", token);
    let admitted = authorize_request(
        Some(&header),
        "/api/users",
        &HttpMethod::Get,
        SECRET,
        NOW,
        &empty_snapshot(),
    )
    .unwrap();
    assert_eq!(admitted.user_id.value, USER_ID);
    assert_eq!(admitted.claims.exp, NOW + 3600);
}

#[test]
fn login_with_a_wrong_password_is_unauthorized() {
    let req = LoginRequest { username: "alice".to_string(), password: "wrong-password".to_string() };
    let r = handler().login(&req, Ok(stored_user("pw-of-8-chars")), NOW);
    assert_eq!(r, Err(AppError::InvalidCredentials));
    assert_eq!(AppError::InvalidCredentials.status_code(), 401);
}

#[test]
fn login_with_an_unknown_name_is_the_same_generic_failure() {
    let req = LoginRequest { username: "nobody".to_string(), password: "pw-of-8-chars".to_string() };
    let lookup: Result<User, AppError> = Err(AppError::NotFound("Resource not found".to_string()));
    assert_eq!(handler().login(&req, lookup, NOW), Err(AppError::InvalidCredentials));
}

#[test]
fn login_with_a_corrupt_stored_digest_is_a_server_error() {
    let mut user = stored_user("pw-of-8-chars");
    user.password_hash = "not-a-digest".to_string();
    let req = LoginRequest { username: "alice".to_string(), password: "pw-of-8-chars".to_string() };
    let r = handler().login(&req, Ok(user), NOW);
    assert_eq!(
        r,
        Err(AppError::DatabaseError("Stored credential digest is malformed".to_string()))
    );
    assert_eq!(AppError::DatabaseError(String::new()).status_code(), 500);
}

#[test]
fn login_keeps_infrastructure_failures_distinct() {
    let req = LoginRequest { username: "alice".to_string(), password: "pw-of-8-chars".to_string() };
    let lookup: Result<User, AppError> = Err(AppError::ConnectionError("pool dry".to_string()));
    let r = handler().login(&req, lookup, NOW);
    assert_eq!(r, Err(AppError::ConnectionError("pool dry".to_string())));
}

#[test]
fn an_admin_route_needs_the_named_permission() {
    let token = login_token();
    let header = format!("Bearer {}", token);
    // without the grant: forbidden, 403
    let denied = authorize_request(
        Some(&header),
        "/api/user_roles",
        &HttpMethod::Post,
        SECRET,
        NOW,
        &empty_snapshot(),
    );
    assert_eq!(denied, Err(AppError::Forbidden));
    assert_eq!(AppError::Forbidden.status_code(), 403);
    // after granting the permission's role to the user: admitted
    let admitted = authorize_request(
        Some(&header),
        "/api/user_roles",
        &HttpMethod::Post,
        SECRET,
        NOW,
        &granting_snapshot("admin.create_user_role"),
    );
    assert!(admitted.is_ok());
    // the grant of a different permission does not help
    let still_denied = authorize_request(
        Some(&header),
        "/api/user_roles",
        &HttpMethod::Delete,
        SECRET,
        NOW,
        &granting_snapshot("admin.create_user_role"),
    );
    assert_eq!(still_denied, Err(AppError::Forbidden));
}

#[test]
fn a_missing_header_is_unauthorized() {
    let r = authorize_request(
        None,
        "/api/users",
        &HttpMethod::Get,
        SECRET,
        NOW,
        &empty_snapshot(),
    );
    assert_eq!(r, Err(AppError::Unauthorized("Missing Authorization header".to_string())));
    assert_eq!(AppError::Unauthorized(String::new()).status_code(), 401);
}

#[test]
fn a_header_without_the_bearer_scheme_is_unauthorized() {
    let r = authorize_request(
        Some("Basic dXNlcjpwdw=="),
        "/api/users",
        &HttpMethod::Get,
        SECRET,
        NOW,
        &empty_snapshot(),
    );
    assert_eq!(r, Err(AppError::Unauthorized("Invalid Authorization header".to_string())));
}

#[test]
fn an_expired_token_is_unauthorized() {
    let token = login_token();
    let header = format!("Bearer {}", token);
    let r = authorize_request(
        Some(&header),
        "/api/users",
        &HttpMethod::Get,
        SECRET,
        NOW + 3600,
        &empty_snapshot(),
    );
    assert_eq!(r, Err(AppError::Unauthorized("Invalid or expired token".to_string())));
}

#[test]
fn a_tampered_token_is_indistinguishable_from_an_expired_one() {
    let token = login_token();
    let mut bytes = token.clone().into_bytes();
    let last = bytes.len() - 1;
    bytes[last] = if bytes[last] == b'A' { b'B' } else { b'A' };
    let tampered = String::from_utf8(bytes).unwrap();
    let header = format!("Bearer {}", tampered);
    let r = authorize_request(
        Some(&header),
        "/api/users",
        &HttpMethod::Get,
        SECRET,
        NOW,
        &empty_snapshot(),
    );
    // the same uniform message as the expired case
    assert_eq!(r, Err(AppError::Unauthorized("Invalid or expired token".to_string())));
}

#[test]
fn a_token_whose_subject_is_no_identifier_is_unauthorized() {
    let token = rbac_auth::token::issue("not-an-identifier", 3600, SECRET, NOW);
    let header = format!("Bearer {}", token);
    let r = begin_request(Some(&header), "/api/users", &HttpMethod::Get, SECRET, NOW);
    assert_eq!(r, Err(AppError::Unauthorized("Invalid user ID in token".to_string())));
}

#[test]
fn the_route_table_names_only_the_admin_mutations() {
    assert_eq!(
        required_permission("/api/user_roles", &HttpMethod::Post),
        Some("admin.create_user_role")
    );
    assert_eq!(
        required_permission("/api/user_roles/f47ac10b-58cc-4372-a567-0e02b2c3d479", &HttpMethod::Delete),
        Some("admin.delete_user_role")
    );
    assert_eq!(required_permission("/api/user_roles", &HttpMethod::Get), None);
    assert_eq!(required_permission("/api/users", &HttpMethod::Post), None);
    assert_eq!(required_permission("/api/roles", &HttpMethod::Delete), None);
}

#[test]
fn the_two_phase_pipeline_matches_the_one_shot_answer() {
    let token = login_token();
    let header = format!("Bearer {}", token);
    let step = begin_request(Some(&header), "/api/user_roles", &HttpMethod::Post, SECRET, NOW)
        .unwrap();
    match step {
        GateStep::NeedsPermission { context, permission } => {
            assert_eq!(permission, "admin.create_user_role");
            let snapshot = granting_snapshot("admin.create_user_role");
            let allowed = snapshot.has_permission(&context.user_id, &permission);
            assert!(allowed);
            let admitted = finish_request(context, Ok(allowed)).unwrap();
            assert_eq!(admitted.user_id.value, USER_ID);
        },
        GateStep::Admitted(_) => panic!("an admin mutation must ask the resolver"),
    }
}

#[test]
fn a_resolver_fault_is_never_admission_and_never_forbidden() {
    let token = login_token();
    let header = format!("Bearer {}", token);
    let step = begin_request(Some(&header), "/api/user_roles", &HttpMethod::Post, SECRET, NOW)
        .unwrap();
    match step {
        GateStep::NeedsPermission { context, .. } => {
            let fault = Err(AppError::ConnectionError("timeout".to_string()));
            let r = finish_request(context, fault);
            assert_eq!(r, Err(AppError::ConnectionError("timeout".to_string())));
            assert_eq!(AppError::ConnectionError(String::new()).status_code(), 503);
        },
        GateStep::Admitted(_) => panic!("an admin mutation must ask the resolver"),
    }
}

#[test]
fn bearer_extraction_takes_what_follows_the_scheme() {
    assert_eq!(extract_bearer_token("Bearer abc.def.ghi"), Some("abc.def.ghi"));
    assert_eq!(extract_bearer_token("Bearer "), Some(""));
    assert_eq!(extract_bearer_token("bearer abc"), None);
    assert_eq!(extract_bearer_token("Token abc"), None);
    assert_eq!(extract_bearer_token(""), None);
}

#[test]
fn register_then_login_round_trips() {
    let register = RegisterRequest {
        username: "bob".to_string(),
        email: "bob@example.com".to_string(),
        password: "another-pw-8".to_string(),
    };
    let prepared = handler().register(&register).unwrap();
    assert_eq!(prepared.username, "bob");
    assert_eq!(prepared.email, "bob@example.com");
    // the data layer stores the record; a later login sees the stored row
    let stored = User {
        id: UuidValue { value: 42 },
        username: prepared.username,
        email: prepared.email,
        password_hash: prepared.password_hash,
        created_at: 5,
        updated_at: 5,
    };
    let login = LoginRequest { username: "bob".to_string(), password: "another-pw-8".to_string() };
    let resp = handler().login(&login, Ok(stored), NOW).unwrap();
    assert_eq!(resp.user.id, UuidValue { value: 42 });
    let header = format!("Bearer {}", resp.token);
    let admitted = authorize_request(
        Some(&header),
        "/api/roles",
        &HttpMethod::Get,
        SECRET,
        NOW,
        &empty_snapshot(),
    )
    .unwrap();
    assert_eq!(admitted.user_id, UuidValue { value: 42 });
}

#[test]
fn the_identity_in_the_token_is_the_one_admitted() {
    let token = login_token();
    let header = format!("Bearer {}", token);
    let admitted = authorize_request(
        Some(&header),
        "/api/users",
        &HttpMethod::Get,
        SECRET,
        NOW,
        &empty_snapshot(),
    )
    .unwrap();
    assert_eq!(parse_uuid(&admitted.claims.sub), Some(admitted.user_id));
    assert_eq!(admitted.claims.sub, "f47ac10b-58cc-4372-a567-0e02b2c3d479");
}
