//! Process configuration: database, server and auth settings, with the
//! startup validation rules. Loading from the environment is I/O and lives
//! with the host application; the checks themselves are verified here.

use vstd::prelude::*;

verus! {

#[derive(Debug, Clone, PartialEq, Eq)]
pub struct Database {
    pub url: String,
}

#[derive(Debug, Clone, PartialEq, Eq)]
pub struct Server {
    pub host: String,
    pub port: u16,
}

#[derive(Debug, Clone, PartialEq, Eq)]
pub struct Auth {
    pub jwt_secret: String,
    pub expiration_seconds: i64,
}

#[derive(Debug, Clone, PartialEq, Eq)]
pub struct Config {
    pub database: Database,
    pub server: Server,
    pub auth: Auth,
}

pub fn default_server_host() -> (r: String)
    ensures
        r@ == "127.0.0.1"@,
{
    String::from_str("127.0.0.1")
}

pub fn default_server_port() -> (r: u16)
    ensures
        r == 8000,
{
    8000
}

pub fn default_expiration_seconds() -> (r: i64)
    ensures
        r == 3600,
{
    3600
}

impl Config {
    /// A configuration is acceptable when the database URL is not blank,
    /// the signing secret is long enough to resist exhaustive search, and
    /// the session lifetime is positive.
    pub open spec fn is_valid(&self) -> bool {
        &&& !crate::strutil::spec_is_blank(self.database.url@)
        &&& self.auth.jwt_secret@.len() >= 32
        &&& self.auth.expiration_seconds > 0
    }

    /// Check the configuration, reporting the first rule broken.  Lengths
    /// count characters, so a secret of multi-byte characters clears the
    /// bar only with thirty-two full characters — at least as strict as a
    /// byte count.
    pub fn validate(&self) -> (r: Result<(), String>)
        ensures
            r is Ok <==> self.is_valid(),
            crate::strutil::spec_is_blank(self.database.url@) ==> (r matches Err(m) && m@
                == "DATABASE_URL is required"@),
            !crate::strutil::spec_is_blank(self.database.url@) && self.auth.jwt_secret@.len()
                < 32 ==> (r matches Err(m) && m@ == "AUTH__JWT_SECRET must be at least 32 characters long"@),
            !crate::strutil::spec_is_blank(self.database.url@) && self.auth.jwt_secret@.len() >= 32
                && self.auth.expiration_seconds <= 0 ==> (r matches Err(m) && m@
                == "AUTH__EXPIRATION_SECONDS must be positive"@),
    {
        if crate::strutil::is_blank(self.database.url.as_str()) {
            return Err(String::from_str("DATABASE_URL is required"));
        }
        if self.auth.jwt_secret.as_str().unicode_len() < 32 {
            return Err(String::from_str("AUTH__JWT_SECRET must be at least 32 characters long"));
        }
        if self.auth.expiration_seconds <= 0 {
            return Err(String::from_str("AUTH__EXPIRATION_SECONDS must be positive"));
        }
        Ok(())
    }
}

} // verus!
