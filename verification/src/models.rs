//! The stored records the core works over, as plain data: identifiers are
//! `UuidValue`s and timestamps whole seconds since the epoch.  The
//! `*Response` types are what handlers return to the HTTP layer; notably,
//! `UserResponse` omits the password digest.

use vstd::prelude::*;
use crate::ids::UuidValue;

verus! {

#[derive(Debug, Clone, PartialEq, Eq)]
pub struct User {
    pub id: UuidValue,
    pub username: String,
    pub email: String,
    pub password_hash: String,
    pub created_at: i64,
    pub updated_at: i64,
}

#[derive(Debug, Clone, PartialEq, Eq)]
pub struct NewUser {
    pub username: String,
    pub email: String,
    pub password_hash: String,
}

#[derive(Debug, Clone, PartialEq, Eq)]
pub struct UpdateUser {
    pub username: Option<String>,
    pub email: Option<String>,
    pub password_hash: Option<String>,
    pub updated_at: i64,
}

#[derive(Debug, Clone, PartialEq, Eq)]
pub struct UserResponse {
    pub id: UuidValue,
    pub username: String,
    pub email: String,
    pub created_at: i64,
    pub updated_at: i64,
}

/// What a stored user looks like to callers: the digest is stripped,
/// everything else is carried over.
pub open spec fn spec_user_response(user: User) -> UserResponse {
    UserResponse {
        id: user.id,
        username: user.username,
        email: user.email,
        created_at: user.created_at,
        updated_at: user.updated_at,
    }
}

impl From<User> for UserResponse {
    /// Strip the password digest; everything else is carried over.
    fn from(user: User) -> (r: UserResponse) {
        UserResponse {
            id: user.id,
            username: user.username,
            email: user.email,
            created_at: user.created_at,
            updated_at: user.updated_at,
        }
    }
}

impl vstd::std_specs::convert::FromSpecImpl<User> for UserResponse {
    open spec fn obeys_from_spec() -> bool {
        true
    }

    open spec fn from_spec(user: User) -> UserResponse {
        spec_user_response(user)
    }
}

#[derive(Debug, Clone, PartialEq, Eq)]
pub struct Role {
    pub id: UuidValue,
    pub name: String,
    pub description: Option<String>,
    pub created_at: i64,
    pub updated_at: i64,
}

#[derive(Debug, Clone, PartialEq, Eq)]
pub struct NewRole {
    pub name: String,
    pub description: Option<String>,
}

#[derive(Debug, Clone, PartialEq, Eq)]
pub struct UpdateRole {
    pub name: Option<String>,
    pub description: Option<String>,
    pub updated_at: i64,
}

#[derive(Debug, Clone, PartialEq, Eq)]
pub struct RoleResponse {
    pub id: UuidValue,
    pub name: String,
    pub description: Option<String>,
    pub created_at: i64,
    pub updated_at: i64,
}

impl From<Role> for RoleResponse {
    fn from(role: Role) -> (r: RoleResponse) {
        RoleResponse {
            id: role.id,
            name: role.name,
            description: role.description,
            created_at: role.created_at,
            updated_at: role.updated_at,
        }
    }
}

impl vstd::std_specs::convert::FromSpecImpl<Role> for RoleResponse {
    open spec fn obeys_from_spec() -> bool {
        true
    }

    open spec fn from_spec(role: Role) -> RoleResponse {
        RoleResponse {
            id: role.id,
            name: role.name,
            description: role.description,
            created_at: role.created_at,
            updated_at: role.updated_at,
        }
    }
}

#[derive(Debug, Clone, PartialEq, Eq)]
pub struct Permission {
    pub id: UuidValue,
    pub name: String,
    pub description: Option<String>,
    pub created_at: i64,
    pub updated_at: i64,
}

#[derive(Debug, Clone, PartialEq, Eq)]
pub struct NewPermission {
    pub name: String,
    pub description: Option<String>,
}

#[derive(Debug, Clone, PartialEq, Eq)]
pub struct UpdatePermission {
    pub name: Option<String>,
    pub description: Option<String>,
    pub updated_at: i64,
}

#[derive(Debug, Clone, PartialEq, Eq)]
pub struct PermissionResponse {
    pub id: UuidValue,
    pub name: String,
    pub description: Option<String>,
    pub created_at: i64,
    pub updated_at: i64,
}

impl From<Permission> for PermissionResponse {
    fn from(permission: Permission) -> (r: PermissionResponse) {
        PermissionResponse {
            id: permission.id,
            name: permission.name,
            description: permission.description,
            created_at: permission.created_at,
            updated_at: permission.updated_at,
        }
    }
}

impl vstd::std_specs::convert::FromSpecImpl<Permission> for PermissionResponse {
    open spec fn obeys_from_spec() -> bool {
        true
    }

    open spec fn from_spec(permission: Permission) -> PermissionResponse {
        PermissionResponse {
            id: permission.id,
            name: permission.name,
            description: permission.description,
            created_at: permission.created_at,
            updated_at: permission.updated_at,
        }
    }
}

/// A role granted to a user: one edge of the assignment relation.
#[derive(Debug, Clone, Copy, PartialEq, Eq, Structural)]
pub struct UserRole {
    pub user_id: UuidValue,
    pub role_id: UuidValue,
    pub created_at: i64,
}

#[derive(Debug, Clone, Copy, PartialEq, Eq, Structural)]
pub struct NewUserRole {
    pub user_id: UuidValue,
    pub role_id: UuidValue,
}

#[derive(Debug, Clone, Copy, PartialEq, Eq, Structural)]
pub struct UserRoleResponse {
    pub user_id: UuidValue,
    pub role_id: UuidValue,
    pub created_at: i64,
}

impl From<UserRole> for UserRoleResponse {
    fn from(user_role: UserRole) -> (r: UserRoleResponse) {
        UserRoleResponse {
            user_id: user_role.user_id,
            role_id: user_role.role_id,
            created_at: user_role.created_at,
        }
    }
}

impl vstd::std_specs::convert::FromSpecImpl<UserRole> for UserRoleResponse {
    open spec fn obeys_from_spec() -> bool {
        true
    }

    open spec fn from_spec(user_role: UserRole) -> UserRoleResponse {
        UserRoleResponse {
            user_id: user_role.user_id,
            role_id: user_role.role_id,
            created_at: user_role.created_at,
        }
    }
}

/// A permission attached to a role: one edge of the grant relation.
#[derive(Debug, Clone, Copy, PartialEq, Eq, Structural)]
pub struct RolePermission {
    pub role_id: UuidValue,
    pub permission_id: UuidValue,
    pub created_at: i64,
}

#[derive(Debug, Clone, Copy, PartialEq, Eq, Structural)]
pub struct NewRolePermission {
    pub role_id: UuidValue,
    pub permission_id: UuidValue,
}

#[derive(Debug, Clone, Copy, PartialEq, Eq, Structural)]
pub struct RolePermissionResponse {
    pub role_id: UuidValue,
    pub permission_id: UuidValue,
    pub created_at: i64,
}

impl From<RolePermission> for RolePermissionResponse {
    fn from(role_permission: RolePermission) -> (r: RolePermissionResponse) {
        RolePermissionResponse {
            role_id: role_permission.role_id,
            permission_id: role_permission.permission_id,
            created_at: role_permission.created_at,
        }
    }
}

impl vstd::std_specs::convert::FromSpecImpl<RolePermission> for RolePermissionResponse {
    open spec fn obeys_from_spec() -> bool {
        true
    }

    open spec fn from_spec(role_permission: RolePermission) -> RolePermissionResponse {
        RolePermissionResponse {
            role_id: role_permission.role_id,
            permission_id: role_permission.permission_id,
            created_at: role_permission.created_at,
        }
    }
}

} // verus!
