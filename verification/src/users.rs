//! The compute half of user creation and update: hashing the password and
//! assembling the record the data layer stores.  The insert and update
//! statements themselves are the host's I/O.

use vstd::prelude::*;
use crate::errors::AppError;
use crate::models::{NewUser, UpdateUser};
use crate::password::{digest_parses, password_verifies, Encryption};

verus! {

/// Build the record for a new user: the password is replaced by a fresh
/// salted digest that verifies against it.  Success is owed for any
/// password under the hashing cap of 2^30 characters.
pub fn prepare_new_user(username: &str, email: &str, password: &str) -> (r: Result<
    NewUser,
    AppError,
>)
    ensures
        r matches Ok(n) ==> n.username@ == username@ && n.email@ == email@ && digest_parses(
            n.password_hash@,
        ) && password_verifies(password@, n.password_hash@),
        password@.len() < 0x4000_0000 ==> r is Ok,
        r matches Err(e) ==> e@ is HashingError,
{
    let password_hash = match Encryption::hash_password(password) {
        Ok(h) => h,
        Err(e) => {
            return Err(e);
        },
    };
    Ok(
        NewUser {
            username: String::from_str(username),
            email: String::from_str(email),
            password_hash,
        },
    )
}

/// Build the change set for a user update: fields left as `None` are kept,
/// a new password is hashed, and the update is stamped with the clock
/// value the host supplies.  Without a new password nothing can fail;
/// with one, success is owed under the hashing cap of 2^30 characters.
pub fn prepare_user_update(
    username: Option<String>,
    email: Option<String>,
    password: Option<&str>,
    updated_at: i64,
) -> (r: Result<UpdateUser, AppError>)
    ensures
        password is None ==> r is Ok,
        (password matches Some(p) && p@.len() < 0x4000_0000) ==> r is Ok,
        r matches Ok(u) ==> {
            &&& u.username == username
            &&& u.email == email
            &&& u.updated_at == updated_at
            &&& match (password, u.password_hash) {
                (Some(p), Some(h)) => digest_parses(h@) && password_verifies(p@, h@),
                (None, None) => true,
                _ => false,
            }
        },
        r matches Err(e) ==> e@ is HashingError,
{
    let password_hash = match password {
        Some(p) => match Encryption::hash_password(p) {
            Ok(h) => Some(h),
            Err(e) => {
                return Err(e);
            },
        },
        None => None,
    };
    Ok(UpdateUser { username, email, password_hash, updated_at })
}

} // verus!
