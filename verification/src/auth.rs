//! Login and registration: credential verification and token issuance.
//!
//! The handler holds the signing secret and the session lifetime.  Looking
//! a user up by name is the data layer's job, so `login` takes the lookup's
//! outcome and the clock as arguments and decides everything after that
//! point; `register` prepares the record the data layer will insert.

use vstd::prelude::*;
use crate::errors::{AppError, AppErrorView};
use crate::ids::spec_format_uuid;
use crate::ids::format_uuid;
use crate::models::{spec_user_response, NewUser, User, UserResponse};
use crate::password::{digest_parses, password_verifies, Encryption};
use crate::token::{issue, signed_claims};
use crate::users::prepare_new_user;

verus! {

#[derive(Debug, Clone, PartialEq, Eq)]
pub struct RegisterRequest {
    pub username: String,
    pub email: String,
    pub password: String,
}

#[derive(Debug, Clone, PartialEq, Eq)]
pub struct LoginRequest {
    pub username: String,
    pub password: String,
}

#[derive(Debug, Clone, PartialEq, Eq)]
pub struct LoginResponse {
    pub user: UserResponse,
    pub token: String,
}

pub struct AuthHandler {
    pub jwt_secret: String,
    pub expiration_seconds: i64,
}

impl AuthHandler {
    pub fn new(jwt_secret: String, expiration_seconds: i64) -> (r: AuthHandler)
        ensures
            r.jwt_secret == jwt_secret,
            r.expiration_seconds == expiration_seconds,
    {
        AuthHandler { jwt_secret, expiration_seconds }
    }

    /// Prepare the stored record for a new account.  The data layer
    /// inserts it and reports the stored row back.
    pub fn register(&self, req: &RegisterRequest) -> (r: Result<NewUser, AppError>)
        ensures
            r matches Ok(n) ==> n.username@ == req.username@ && n.email@ == req.email@
                && digest_parses(n.password_hash@) && password_verifies(
                req.password@,
                n.password_hash@,
            ),
            req.password@.len() < 0x4000_0000 ==> r is Ok,
            r matches Err(e) ==> e@ is HashingError,
    {
        prepare_new_user(req.username.as_str(), req.email.as_str(), req.password.as_str())
    }

    /// Decide a login attempt from the lookup's outcome, the request and
    /// the clock.  An unknown name and a wrong password are the same
    /// generic credential failure — the caller learns which no more than
    /// it must; an infrastructure failure keeps its own identity, and a
    /// malformed stored digest is a server-side data fault, reported in
    /// the 500 class rather than read as wrong credentials or blamed on
    /// the caller.  With valid credentials success is owed: the token
    /// carries the user's identifier and expires `expiration_seconds`
    /// from `now`.
    pub fn login(&self, req: &LoginRequest, user_lookup: Result<User, AppError>, now: u64) -> (r:
        Result<LoginResponse, AppError>)
        requires
            self.expiration_seconds > 0,
            now + self.expiration_seconds <= u64::MAX,
        ensures
            user_lookup matches Err(e) ==> r == (if e@ is NotFound {
                Err::<LoginResponse, AppError>(AppError::InvalidCredentials)
            } else {
                Err::<LoginResponse, AppError>(e)
            }),
            user_lookup matches Ok(user) ==> {
                &&& !digest_parses(user.password_hash@) ==> (r matches Err(e2) && e2@
                    == AppErrorView::DatabaseError("Stored credential digest is malformed"@))
                &&& (digest_parses(user.password_hash@) && !password_verifies(
                    req.password@,
                    user.password_hash@,
                )) ==> r == Err::<LoginResponse, AppError>(AppError::InvalidCredentials)
                &&& (digest_parses(user.password_hash@) && password_verifies(
                    req.password@,
                    user.password_hash@,
                )) ==> (r matches Ok(resp) && resp.user == spec_user_response(user)
                    && signed_claims(resp.token@, self.jwt_secret@) == Some(
                    (spec_format_uuid(user.id), (now + self.expiration_seconds) as u64),
                ))
            },
    {
        let user = match user_lookup {
            Ok(user) => user,
            Err(e) => {
                return match e {
                    AppError::NotFound(_) => Err(AppError::InvalidCredentials),
                    other => Err(other),
                };
            },
        };
        let is_valid = match Encryption::verify_password(
            req.password.as_str(),
            user.password_hash.as_str(),
        ) {
            Ok(b) => b,
            Err(_) => {
                return Err(
                    AppError::DatabaseError(
                        String::from_str("Stored credential digest is malformed"),
                    ),
                );
            },
        };
        if is_valid {
            let subject = format_uuid(&user.id);
            let ttl = self.expiration_seconds as u64;
            let token = issue(subject.as_str(), ttl, self.jwt_secret.as_str(), now);
            Ok(LoginResponse { user: UserResponse::from(user), token })
        } else {
            Err(AppError::InvalidCredentials)
        }
    }
}

} // verus!
