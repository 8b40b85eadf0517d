//! The request bodies of the HTTP API and their admission rules.  The
//! rules the host framework used to derive — minimum lengths, a shaped
//! address, identifier well-formedness — are spelled out and verified
//! here; the host calls `validate` before handing a body to a handler.

use vstd::prelude::*;
use crate::ids::{format_uuid, lemma_uuid_round_trip, parse_uuid, UuidValue};

verus! {

/// A well-shaped address: exactly one `@`, with text on both sides.
pub open spec fn spec_is_email(s: Seq<char>) -> bool {
    exists|i: int|
        {
            &&& 0 < i < s.len() - 1
            &&& #[trigger] s[i] == '@'
            &&& forall|j: int| 0 <= j < s.len() && j != i ==> s[j] != '@'
        }
}

pub fn is_email(s: &str) -> (r: bool)
    ensures
        r == spec_is_email(s@),
{
    let len = s.unicode_len();
    let mut at: Option<usize> = None;
    let mut i: usize = 0;
    while i < len
        invariant
            len == s@.len(),
            i <= len,
            match at {
                Some(p) => p < i && s@[p as int] == '@' && forall|j: int|
                    0 <= j < i && j != p ==> s@[j] != '@',
                None => forall|j: int| 0 <= j < i ==> s@[j] != '@',
            },
        decreases len - i,
    {
        if s.get_char(i) == '@' {
            if at.is_some() {
                let ghost p = at->0;
                assert(forall|k: int|
                    0 <= k < s@.len() && k != p ==> !(s@[k] == '@' && forall|j: int|
                        0 <= j < s@.len() && j != k ==> s@[j] != '@')) by {
                    assert(s@[p as int] == '@');
                }
                assert(!spec_is_email(s@)) by {
                    assert(s@[p as int] == '@' && s@[i as int] == '@' && p != i);
                }
                return false;
            }
            at = Some(i);
        }
        i += 1;
    }
    match at {
        Some(p) => {
            if 0 < p && p + 1 < len {
                assert(spec_is_email(s@)) by {
                    assert(s@[p as int] == '@');
                }
                true
            } else {
                assert(!spec_is_email(s@)) by {
                    if exists|q: int|
                        {
                            &&& 0 < q < s@.len() - 1
                            &&& #[trigger] s@[q] == '@'
                            &&& forall|j: int| 0 <= j < s@.len() && j != q ==> s@[j] != '@'
                        } {
                        let q = choose|q: int|
                            {
                                &&& 0 < q < s@.len() - 1
                                &&& #[trigger] s@[q] == '@'
                                &&& forall|j: int| 0 <= j < s@.len() && j != q ==> s@[j] != '@'
                            };
                        assert(q == p);
                    }
                }
                false
            }
        },
        None => {
            assert(!spec_is_email(s@)) by {
                if exists|q: int|
                    {
                        &&& 0 < q < s@.len() - 1
                        &&& #[trigger] s@[q] == '@'
                        &&& forall|j: int| 0 <= j < s@.len() && j != q ==> s@[j] != '@'
                    } {
                    let q = choose|q: int|
                        {
                            &&& 0 < q < s@.len() - 1
                            &&& #[trigger] s@[q] == '@'
                            &&& forall|j: int| 0 <= j < s@.len() && j != q ==> s@[j] != '@'
                        };
                    assert(s@[q] != '@');
                }
            }
            false
        },
    }
}

/// An identifier value is always presentable: its canonical text parses
/// back.  The check mirrors the host's field validator; the round-trip
/// law makes it provably vacuous.
pub fn validate_uuid(id: &UuidValue) -> (r: bool)
    ensures
        r,
{
    let text = format_uuid(id);
    proof {
        lemma_uuid_round_trip(*id);
    }
    parse_uuid(text.as_str()).is_some()
}

#[derive(Debug, Clone, PartialEq, Eq)]
pub struct CreatePermissionRequest {
    pub name: String,
    pub description: Option<String>,
}

impl CreatePermissionRequest {
    /// The name needs at least two characters; a description, when given,
    /// may not be empty.
    pub open spec fn spec_valid(&self) -> bool {
        &&& self.name@.len() >= 2
        &&& match self.description {
            Some(d) => d@.len() >= 1,
            None => true,
        }
    }

    pub fn validate(&self) -> (r: bool)
        ensures
            r == self.spec_valid(),
    {
        self.name.as_str().unicode_len() >= 2 && match &self.description {
            Some(d) => d.as_str().unicode_len() >= 1,
            None => true,
        }
    }
}

#[derive(Debug, Clone, PartialEq, Eq)]
pub struct UpdatePermissionRequest {
    pub name: Option<String>,
    pub description: Option<String>,
}

impl UpdatePermissionRequest {
    pub open spec fn spec_valid(&self) -> bool {
        &&& match self.name {
            Some(n) => n@.len() >= 2,
            None => true,
        }
        &&& match self.description {
            Some(d) => d@.len() >= 1,
            None => true,
        }
    }

    pub fn validate(&self) -> (r: bool)
        ensures
            r == self.spec_valid(),
    {
        (match &self.name {
            Some(n) => n.as_str().unicode_len() >= 2,
            None => true,
        }) && match &self.description {
            Some(d) => d.as_str().unicode_len() >= 1,
            None => true,
        }
    }
}

#[derive(Debug, Clone, PartialEq, Eq)]
pub struct CreateRoleRequest {
    pub name: String,
    pub description: Option<String>,
}

impl CreateRoleRequest {
    pub open spec fn spec_valid(&self) -> bool {
        &&& self.name@.len() >= 2
        &&& match self.description {
            Some(d) => d@.len() >= 1,
            None => true,
        }
    }

    pub fn validate(&self) -> (r: bool)
        ensures
            r == self.spec_valid(),
    {
        self.name.as_str().unicode_len() >= 2 && match &self.description {
            Some(d) => d.as_str().unicode_len() >= 1,
            None => true,
        }
    }
}

#[derive(Debug, Clone, PartialEq, Eq)]
pub struct UpdateRoleRequest {
    pub name: Option<String>,
    pub description: Option<String>,
}

impl UpdateRoleRequest {
    pub open spec fn spec_valid(&self) -> bool {
        &&& match self.name {
            Some(n) => n@.len() >= 2,
            None => true,
        }
        &&& match self.description {
            Some(d) => d@.len() >= 1,
            None => true,
        }
    }

    pub fn validate(&self) -> (r: bool)
        ensures
            r == self.spec_valid(),
    {
        (match &self.name {
            Some(n) => n.as_str().unicode_len() >= 2,
            None => true,
        }) && match &self.description {
            Some(d) => d.as_str().unicode_len() >= 1,
            None => true,
        }
    }
}

#[derive(Debug, Clone, PartialEq, Eq)]
pub struct CreateUserRequest {
    pub username: String,
    pub email: String,
    pub password: String,
}

impl CreateUserRequest {
    /// At least three characters of username, a shaped address, and at
    /// least eight characters of password.
    pub open spec fn spec_valid(&self) -> bool {
        &&& self.username@.len() >= 3
        &&& spec_is_email(self.email@)
        &&& self.password@.len() >= 8
    }

    pub fn validate(&self) -> (r: bool)
        ensures
            r == self.spec_valid(),
    {
        self.username.as_str().unicode_len() >= 3 && is_email(self.email.as_str())
            && self.password.as_str().unicode_len() >= 8
    }
}

#[derive(Debug, Clone, PartialEq, Eq)]
pub struct UpdateUserRequest {
    pub username: Option<String>,
    pub email: Option<String>,
    pub password: Option<String>,
}

impl UpdateUserRequest {
    pub open spec fn spec_valid(&self) -> bool {
        &&& match self.username {
            Some(n) => n@.len() >= 3,
            None => true,
        }
        &&& match self.email {
            Some(e) => spec_is_email(e@),
            None => true,
        }
        &&& match self.password {
            Some(p) => p@.len() >= 8,
            None => true,
        }
    }

    pub fn validate(&self) -> (r: bool)
        ensures
            r == self.spec_valid(),
    {
        (match &self.username {
            Some(n) => n.as_str().unicode_len() >= 3,
            None => true,
        }) && (match &self.email {
            Some(e) => is_email(e.as_str()),
            None => true,
        }) && match &self.password {
            Some(p) => p.as_str().unicode_len() >= 8,
            None => true,
        }
    }
}

#[derive(Debug, Clone, Copy, PartialEq, Eq, Structural)]
pub struct CreateUserRoleRequest {
    pub user_id: UuidValue,
    pub role_id: UuidValue,
}

impl CreateUserRoleRequest {
    pub fn validate(&self) -> (r: bool)
        ensures
            r,
    {
        validate_uuid(&self.user_id) && validate_uuid(&self.role_id)
    }
}

#[derive(Debug, Clone, Copy, PartialEq, Eq, Structural)]
pub struct CreateRolePermissionRequest {
    pub role_id: UuidValue,
    pub permission_id: UuidValue,
}

impl CreateRolePermissionRequest {
    pub fn validate(&self) -> (r: bool)
        ensures
            r,
    {
        validate_uuid(&self.role_id) && validate_uuid(&self.permission_id)
    }
}

} // verus!
