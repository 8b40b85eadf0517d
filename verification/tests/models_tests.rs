use rbac_auth::ids::UuidValue;
use rbac_auth::models::{
    Permission, PermissionResponse, Role, RolePermission, RolePermissionResponse, RoleResponse,
    User, UserResponse, UserRole, UserRoleResponse,
};

fn uid(n: u128) -> UuidValue {
    UuidValue { value: n }
}

#[test]
fn a_user_response_drops_the_digest_and_keeps_the_rest() {
    let user = User {
        id: uid(7),
        username: "alice".to_string(),
        email: "alice@example.com".to_string(),
        password_hash: "$argon2id$...".to_string(),
        created_at: 11,
        updated_at: 12,
    };
    let response = UserResponse::from(user);
    assert_eq!(
        response,
        UserResponse {
            id: uid(7),
            username: "alice".to_string(),
            email: "alice@example.com".to_string(),
            created_at: 11,
            updated_at: 12,
        }
    );
}

#[test]
fn role_and_permission_responses_carry_every_field() {
    let role = Role {
        id: uid(1),
        name: "operators".to_string(),
        description: Some("runs things".to_string()),
        created_at: 1,
        updated_at: 2,
    };
    let rr = RoleResponse::from(role);
    assert_eq!(rr.id, uid(1));
    assert_eq!(rr.name, "operators");
    assert_eq!(rr.description, Some("runs things".to_string()));

    let permission = Permission {
        id: uid(2),
        name: "admin.create_user_role".to_string(),
        description: None,
        created_at: 3,
        updated_at: 4,
    };
    let pr = PermissionResponse::from(permission);
    assert_eq!(pr.id, uid(2));
    assert_eq!(pr.name, "admin.create_user_role");
    assert_eq!(pr.description, None);
}

#[test]
fn edge_responses_carry_their_keys() {
    let ur = UserRole { user_id: uid(5), role_id: uid(6), created_at: 9 };
    assert_eq!(
        UserRoleResponse::from(ur),
        UserRoleResponse { user_id: uid(5), role_id: uid(6), created_at: 9 }
    );
    let rp = RolePermission { role_id: uid(6), permission_id: uid(8), created_at: 10 };
    assert_eq!(
        RolePermissionResponse::from(rp),
        RolePermissionResponse { role_id: uid(6), permission_id: uid(8), created_at: 10 }
    );
}
