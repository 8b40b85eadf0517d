//! The error taxonomy of the service and the mapping from data-layer
//! failures onto it.
//!
//! `AppError` is the single tagged union every layer reports through; the
//! HTTP layer turns it into a status code and a minimal message.  `DbError`
//! mirrors, as plain data, everything the mapping reads from the database
//! driver's error value; the host application converts the driver's type
//! into `DbError`, and the classification itself is verified here.

use vstd::prelude::*;
use crate::strutil::str_eq;

verus! {

#[derive(Debug, Clone, PartialEq, Eq)]
pub enum AppError {
    BadRequest(String),
    Unauthorized(String),
    InvalidCredentials,
    Forbidden,
    NotFound(String),
    Conflict(String),
    DatabaseError(String),
    ConnectionError(String),
    HashingError(String),
    JwtError(String),
}

/// The mathematical image of an `AppError`: the same variants with the
/// message strings abstracted to character sequences.  Contracts all over
/// the crate pin results down in terms of this view.
pub enum AppErrorView {
    BadRequest(Seq<char>),
    Unauthorized(Seq<char>),
    InvalidCredentials,
    Forbidden,
    NotFound(Seq<char>),
    Conflict(Seq<char>),
    DatabaseError(Seq<char>),
    ConnectionError(Seq<char>),
    HashingError(Seq<char>),
    JwtError(Seq<char>),
}

impl View for AppError {
    type V = AppErrorView;

    open spec fn view(&self) -> AppErrorView {
        match self {
            AppError::BadRequest(m) => AppErrorView::BadRequest(m@),
            AppError::Unauthorized(m) => AppErrorView::Unauthorized(m@),
            AppError::InvalidCredentials => AppErrorView::InvalidCredentials,
            AppError::Forbidden => AppErrorView::Forbidden,
            AppError::NotFound(m) => AppErrorView::NotFound(m@),
            AppError::Conflict(m) => AppErrorView::Conflict(m@),
            AppError::DatabaseError(m) => AppErrorView::DatabaseError(m@),
            AppError::ConnectionError(m) => AppErrorView::ConnectionError(m@),
            AppError::HashingError(m) => AppErrorView::HashingError(m@),
            AppError::JwtError(m) => AppErrorView::JwtError(m@),
        }
    }
}

impl AppErrorView {
    /// The HTTP status each variant maps to at the boundary.
    pub open spec fn status_code(&self) -> u16 {
        match self {
            AppErrorView::BadRequest(_) => 400,
            AppErrorView::Unauthorized(_) => 401,
            AppErrorView::InvalidCredentials => 401,
            AppErrorView::Forbidden => 403,
            AppErrorView::NotFound(_) => 404,
            AppErrorView::Conflict(_) => 409,
            AppErrorView::DatabaseError(_) => 500,
            AppErrorView::ConnectionError(_) => 503,
            AppErrorView::HashingError(_) => 400,
            AppErrorView::JwtError(_) => 500,
        }
    }

    /// The stable, minimal text shown to callers.
    pub open spec fn message(&self) -> Seq<char> {
        match self {
            AppErrorView::BadRequest(m) => "Bad Request: "@ + *m,
            AppErrorView::Unauthorized(m) => "Unauthorized: "@ + *m,
            AppErrorView::InvalidCredentials => "Invalid Credentials"@,
            AppErrorView::Forbidden => "Forbidden"@,
            AppErrorView::NotFound(m) => "Not Found: "@ + *m,
            AppErrorView::Conflict(m) => "Conflict: "@ + *m,
            AppErrorView::DatabaseError(m) => "Database Error: "@ + *m,
            AppErrorView::ConnectionError(m) => "Connection Error: "@ + *m,
            AppErrorView::HashingError(m) => "Hashing Error: "@ + *m,
            AppErrorView::JwtError(m) => "JWT Error: "@ + *m,
        }
    }
}

impl AppError {
    pub fn status_code(&self) -> (c: u16)
        ensures
            c == self@.status_code(),
    {
        match self {
            AppError::BadRequest(_) => 400,
            AppError::Unauthorized(_) => 401,
            AppError::InvalidCredentials => 401,
            AppError::Forbidden => 403,
            AppError::NotFound(_) => 404,
            AppError::Conflict(_) => 409,
            AppError::DatabaseError(_) => 500,
            AppError::ConnectionError(_) => 503,
            AppError::HashingError(_) => 400,
            AppError::JwtError(_) => 500,
        }
    }

    pub fn message(&self) -> (r: String)
        ensures
            r@ == self@.message(),
    {
        match self {
            AppError::BadRequest(m) => String::from_str("Bad Request: ").concat(m.as_str()),
            AppError::Unauthorized(m) => String::from_str("Unauthorized: ").concat(m.as_str()),
            AppError::InvalidCredentials => String::from_str("Invalid Credentials"),
            AppError::Forbidden => String::from_str("Forbidden"),
            AppError::NotFound(m) => String::from_str("Not Found: ").concat(m.as_str()),
            AppError::Conflict(m) => String::from_str("Conflict: ").concat(m.as_str()),
            AppError::DatabaseError(m) => String::from_str("Database Error: ").concat(m.as_str()),
            AppError::ConnectionError(m) => String::from_str("Connection Error: ").concat(
                m.as_str(),
            ),
            AppError::HashingError(m) => String::from_str("Hashing Error: ").concat(m.as_str()),
            AppError::JwtError(m) => String::from_str("JWT Error: ").concat(m.as_str()),
        }
    }
}

/// The classes of database error the classification distinguishes.
#[derive(Debug, Clone, Copy, PartialEq, Eq, Structural)]
pub enum DbErrorKind {
    UniqueViolation,
    ForeignKeyViolation,
    SerializationFailure,
    Other,
}

/// A database failure, reduced to the fields the classification reads:
/// the kind, the violated constraint's name, and the driver's message.
#[derive(Debug, Clone, PartialEq, Eq)]
pub enum DbError {
    NotFound,
    Database { kind: DbErrorKind, constraint: Option<String>, message: String },
    QueryBuilder(String),
    Deserialization(String),
    Serialization(String),
    RollbackErrorOnCommit { rollback_message: String, commit_message: String },
    RollbackTransaction,
    AlreadyInTransaction,
    NotInTransaction,
    BrokenTransactionManager,
    Other(String),
}

/// Which conflict a unique-constraint violation reports: the constraints of
/// the four entity tables get a friendly message, the rest a generic one.
pub open spec fn spec_conflict_of(constraint: Option<String>) -> AppErrorView {
    match constraint {
        Some(c) => if c@ == "users_username_key"@ || c@ == "users_email_key"@ {
            AppErrorView::Conflict("User already exists"@)
        } else if c@ == "roles_name_key"@ {
            AppErrorView::Conflict("Role already exists"@)
        } else if c@ == "permissions_name_key"@ {
            AppErrorView::Conflict("Permission already exists"@)
        } else {
            AppErrorView::Conflict("Duplicate entry for constraint: "@ + c@)
        },
        None => AppErrorView::Conflict("Duplicate entry"@),
    }
}

/// The full classification of a database failure.
pub open spec fn spec_from_db_error(e: DbError) -> AppErrorView {
    match e {
        DbError::NotFound => AppErrorView::NotFound("Resource not found"@),
        DbError::Database { kind, constraint, message } => match kind {
            DbErrorKind::UniqueViolation => spec_conflict_of(constraint),
            DbErrorKind::ForeignKeyViolation => AppErrorView::BadRequest(
                "Invalid reference: "@ + message@,
            ),
            DbErrorKind::SerializationFailure => AppErrorView::DatabaseError(
                "Transaction conflict: "@ + message@,
            ),
            DbErrorKind::Other => AppErrorView::DatabaseError("Database error: "@ + message@),
        },
        DbError::QueryBuilder(m) => AppErrorView::BadRequest("Invalid query: "@ + m@),
        DbError::Deserialization(m) => AppErrorView::BadRequest("Invalid data format: "@ + m@),
        DbError::Serialization(m) => AppErrorView::DatabaseError("Serialization error: "@ + m@),
        DbError::RollbackErrorOnCommit { rollback_message, commit_message } => {
            AppErrorView::DatabaseError(
                "Transaction failed: rollback="@ + rollback_message@ + ", commit="@
                    + commit_message@,
            )
        },
        DbError::RollbackTransaction => AppErrorView::DatabaseError("Transaction rolled back"@),
        DbError::AlreadyInTransaction => AppErrorView::DatabaseError("Already in transaction"@),
        DbError::NotInTransaction => AppErrorView::DatabaseError("Not in transaction"@),
        DbError::BrokenTransactionManager => AppErrorView::DatabaseError(
            "Transaction manager error"@,
        ),
        DbError::Other(m) => AppErrorView::DatabaseError("Unknown database error: "@ + m@),
    }
}

impl AppError {
    /// Classify a database failure.  Deny-by-default is preserved: no
    /// database failure ever maps to a non-error outcome, and the
    /// authorization path treats every resulting value as terminal.
    pub fn from_db_error(e: DbError) -> (r: AppError)
        ensures
            r@ == spec_from_db_error(e),
    {
        match e {
            DbError::NotFound => AppError::NotFound(String::from_str("Resource not found")),
            DbError::Database { kind, constraint, message } => match kind {
                DbErrorKind::UniqueViolation => match constraint {
                    Some(c) => {
                        if str_eq(c.as_str(), "users_username_key") || str_eq(
                            c.as_str(),
                            "users_email_key",
                        ) {
                            AppError::Conflict(String::from_str("User already exists"))
                        } else if str_eq(c.as_str(), "roles_name_key") {
                            AppError::Conflict(String::from_str("Role already exists"))
                        } else if str_eq(c.as_str(), "permissions_name_key") {
                            AppError::Conflict(String::from_str("Permission already exists"))
                        } else {
                            AppError::Conflict(
                                String::from_str("Duplicate entry for constraint: ").concat(
                                    c.as_str(),
                                ),
                            )
                        }
                    },
                    None => AppError::Conflict(String::from_str("Duplicate entry")),
                },
                DbErrorKind::ForeignKeyViolation => AppError::BadRequest(
                    String::from_str("Invalid reference: ").concat(message.as_str()),
                ),
                DbErrorKind::SerializationFailure => AppError::DatabaseError(
                    String::from_str("Transaction conflict: ").concat(message.as_str()),
                ),
                DbErrorKind::Other => AppError::DatabaseError(
                    String::from_str("Database error: ").concat(message.as_str()),
                ),
            },
            DbError::QueryBuilder(m) => AppError::BadRequest(
                String::from_str("Invalid query: ").concat(m.as_str()),
            ),
            DbError::Deserialization(m) => AppError::BadRequest(
                String::from_str("Invalid data format: ").concat(m.as_str()),
            ),
            DbError::Serialization(m) => AppError::DatabaseError(
                String::from_str("Serialization error: ").concat(m.as_str()),
            ),
            DbError::RollbackErrorOnCommit { rollback_message, commit_message } => {
                AppError::DatabaseError(
                    String::from_str("Transaction failed: rollback=").concat(
                        rollback_message.as_str(),
                    ).concat(", commit=").concat(commit_message.as_str()),
                )
            },
            DbError::RollbackTransaction => AppError::DatabaseError(
                String::from_str("Transaction rolled back"),
            ),
            DbError::AlreadyInTransaction => AppError::DatabaseError(
                String::from_str("Already in transaction"),
            ),
            DbError::NotInTransaction => AppError::DatabaseError(
                String::from_str("Not in transaction"),
            ),
            DbError::BrokenTransactionManager => AppError::DatabaseError(
                String::from_str("Transaction manager error"),
            ),
            DbError::Other(m) => AppError::DatabaseError(
                String::from_str("Unknown database error: ").concat(m.as_str()),
            ),
        }
    }
}

} // verus!
