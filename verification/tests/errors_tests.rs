use rbac_auth::errors::{AppError, DbError, DbErrorKind};

fn unique_violation(constraint: Option<&str>, message: &str) -> DbError {
    DbError::Database {
        kind: DbErrorKind::UniqueViolation,
        constraint: constraint.map(|c| c.to_string()),
        message: message.to_string(),
    }
}

#[test]
fn not_found_maps_to_not_found() {
    assert_eq!(
        AppError::from_db_error(DbError::NotFound),
        AppError::NotFound("Resource not found".to_string())
    );
}

#[test]
fn the_named_constraints_get_friendly_conflicts() {
    assert_eq!(
        AppError::from_db_error(unique_violation(Some("users_username_key"), "dup")),
        AppError::Conflict("User already exists".to_string())
    );
    assert_eq!(
        AppError::from_db_error(unique_violation(Some("users_email_key"), "dup")),
        AppError::Conflict("User already exists".to_string())
    );
    assert_eq!(
        AppError::from_db_error(unique_violation(Some("roles_name_key"), "dup")),
        AppError::Conflict("Role already exists".to_string())
    );
    assert_eq!(
        AppError::from_db_error(unique_violation(Some("permissions_name_key"), "dup")),
        AppError::Conflict("Permission already exists".to_string())
    );
}

#[test]
fn other_constraints_get_the_generic_conflict() {
    assert_eq!(
        AppError::from_db_error(unique_violation(Some("user_roles_user_id_role_id_key"), "dup")),
        AppError::Conflict(
            "Duplicate entry for constraint: user_roles_user_id_role_id_key".to_string()
        )
    );
    assert_eq!(
        AppError::from_db_error(unique_violation(None, "dup")),
        AppError::Conflict("Duplicate entry".to_string())
    );
}

#[test]
fn the_remaining_kinds_map_to_their_classes() {
    assert_eq!(
        AppError::from_db_error(DbError::Database {
            kind: DbErrorKind::ForeignKeyViolation,
            constraint: None,
            message: "bad fk".to_string(),
        }),
        AppError::BadRequest("Invalid reference: bad fk".to_string())
    );
    assert_eq!(
        AppError::from_db_error(DbError::Database {
            kind: DbErrorKind::SerializationFailure,
            constraint: None,
            message: "conflict".to_string(),
        }),
        AppError::DatabaseError("Transaction conflict: conflict".to_string())
    );
    assert_eq!(
        AppError::from_db_error(DbError::Database {
            kind: DbErrorKind::Other,
            constraint: None,
            message: "boom".to_string(),
        }),
        AppError::DatabaseError("Database error: boom".to_string())
    );
    assert_eq!(
        AppError::from_db_error(DbError::QueryBuilder("q".to_string())),
        AppError::BadRequest("Invalid query: q".to_string())
    );
    assert_eq!(
        AppError::from_db_error(DbError::Deserialization("d".to_string())),
        AppError::BadRequest("Invalid data format: d".to_string())
    );
    assert_eq!(
        AppError::from_db_error(DbError::Serialization("s".to_string())),
        AppError::DatabaseError("Serialization error: s".to_string())
    );
    assert_eq!(
        AppError::from_db_error(DbError::RollbackErrorOnCommit {
            rollback_message: "r".to_string(),
            commit_message: "c".to_string(),
        }),
        AppError::DatabaseError("Transaction failed: rollback=r, commit=c".to_string())
    );
    assert_eq!(
        AppError::from_db_error(DbError::RollbackTransaction),
        AppError::DatabaseError("Transaction rolled back".to_string())
    );
    assert_eq!(
        AppError::from_db_error(DbError::AlreadyInTransaction),
        AppError::DatabaseError("Already in transaction".to_string())
    );
    assert_eq!(
        AppError::from_db_error(DbError::NotInTransaction),
        AppError::DatabaseError("Not in transaction".to_string())
    );
    assert_eq!(
        AppError::from_db_error(DbError::BrokenTransactionManager),
        AppError::DatabaseError("Transaction manager error".to_string())
    );
    assert_eq!(
        AppError::from_db_error(DbError::Other("weird".to_string())),
        AppError::DatabaseError("Unknown database error: weird".to_string())
    );
}

#[test]
fn status_codes_follow_the_taxonomy() {
    assert_eq!(AppError::BadRequest("m".to_string()).status_code(), 400);
    assert_eq!(AppError::Unauthorized("m".to_string()).status_code(), 401);
    assert_eq!(AppError::InvalidCredentials.status_code(), 401);
    assert_eq!(AppError::Forbidden.status_code(), 403);
    assert_eq!(AppError::NotFound("m".to_string()).status_code(), 404);
    assert_eq!(AppError::Conflict("m".to_string()).status_code(), 409);
    assert_eq!(AppError::DatabaseError("m".to_string()).status_code(), 500);
    assert_eq!(AppError::ConnectionError("m".to_string()).status_code(), 503);
    assert_eq!(AppError::HashingError("m".to_string()).status_code(), 400);
    assert_eq!(AppError::JwtError("m".to_string()).status_code(), 500);
}

#[test]
fn messages_are_stable_and_minimal() {
    assert_eq!(AppError::BadRequest("x".to_string()).message(), "Bad Request: x");
    assert_eq!(AppError::Unauthorized("x".to_string()).message(), "Unauthorized: x");
    assert_eq!(AppError::InvalidCredentials.message(), "Invalid Credentials");
    assert_eq!(AppError::Forbidden.message(), "Forbidden");
    assert_eq!(AppError::NotFound("x".to_string()).message(), "Not Found: x");
    assert_eq!(AppError::Conflict("x".to_string()).message(), "Conflict: x");
    assert_eq!(AppError::DatabaseError("x".to_string()).message(), "Database Error: x");
    assert_eq!(AppError::ConnectionError("x".to_string()).message(), "Connection Error: x");
    assert_eq!(AppError::HashingError("x".to_string()).message(), "Hashing Error: x");
    assert_eq!(AppError::JwtError("x".to_string()).message(), "JWT Error: x");
}
