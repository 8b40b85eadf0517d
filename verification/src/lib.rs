//! Verified core of a role-based-access-control REST backend: credential
//! hashing and verification, signed time-bound session tokens, permission
//! resolution over the user/role/permission join graph, and the request
//! authentication pipeline that ties them together.

pub mod config;
pub mod errors;
pub mod strutil;
pub mod ids;
pub mod models;
pub mod rbac;
pub mod repo;
pub mod gate;
pub mod requests;
pub mod users;
pub mod auth;
pub mod password;
pub mod token;
