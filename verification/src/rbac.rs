//! Permission resolution over the role/permission join graph.
//!
//! A user's effective permission set is the union, over the roles assigned
//! to the user, of each role's permissions.  `has_permission` decides
//! membership against a snapshot of the three relations — the data layer
//! hands the core one consistent snapshot per check, so a check never sees
//! a role without its permissions.  The check is deny-by-default: the
//! answer is `true` exactly when a full join path exists.

use vstd::prelude::*;
use crate::ids::UuidValue;
use crate::models::{Permission, RolePermission, UserRole};
use crate::strutil::str_eq;

verus! {

/// One consistent reading of the assignment and grant relations.
#[derive(Debug, Clone, PartialEq, Eq)]
pub struct RbacSnapshot {
    pub user_roles: Vec<UserRole>,
    pub role_permissions: Vec<RolePermission>,
    pub permissions: Vec<Permission>,
}

impl RbacSnapshot {
    /// Rows `i`, `j`, `k` of the three relations join into a grant path
    /// from `user` to the permission named `perm`.
    pub open spec fn path_matches(
        &self,
        user: UuidValue,
        perm: Seq<char>,
        i: int,
        j: int,
        k: int,
    ) -> bool {
        &&& 0 <= i < self.user_roles@.len()
        &&& 0 <= j < self.role_permissions@.len()
        &&& 0 <= k < self.permissions@.len()
        &&& self.user_roles@[i].user_id == user
        &&& self.role_permissions@[j].role_id == self.user_roles@[i].role_id
        &&& self.permissions@[k].id == self.role_permissions@[j].permission_id
        &&& self.permissions@[k].name@ == perm
    }

    /// The user holds the permission: some assigned role carries it.
    pub open spec fn spec_has_permission(&self, user: UuidValue, perm: Seq<char>) -> bool {
        exists|i: int, j: int, k: int| self.path_matches(user, perm, i, j, k)
    }

    /// Decide whether `user` holds the permission named `permission_name`:
    /// `true` exactly when a join path exists, `false` — deny — otherwise.
    pub fn has_permission(&self, user: &UuidValue, permission_name: &str) -> (r: bool)
        ensures
            r == self.spec_has_permission(*user, permission_name@),
    {
        let nu = self.user_roles.len();
        let nr = self.role_permissions.len();
        let np = self.permissions.len();
        let mut i: usize = 0;
        while i < nu
            invariant
                nu == self.user_roles@.len(),
                nr == self.role_permissions@.len(),
                np == self.permissions@.len(),
                i <= nu,
                forall|i2: int, j2: int, k2: int|
                    i2 < i ==> !self.path_matches(*user, permission_name@, i2, j2, k2),
            decreases nu - i,
        {
            let assignment = self.user_roles[i];
            if assignment.user_id == *user {
                let mut j: usize = 0;
                while j < nr
                    invariant
                        nu == self.user_roles@.len(),
                        nr == self.role_permissions@.len(),
                        np == self.permissions@.len(),
                        i < nu,
                        j <= nr,
                        assignment == self.user_roles@[i as int],
                        assignment.user_id == *user,
                        forall|i2: int, j2: int, k2: int|
                            i2 < i ==> !self.path_matches(*user, permission_name@, i2, j2, k2),
                        forall|j2: int, k2: int|
                            j2 < j ==> !self.path_matches(
                                *user,
                                permission_name@,
                                i as int,
                                j2,
                                k2,
                            ),
                    decreases nr - j,
                {
                    let grant = self.role_permissions[j];
                    if grant.role_id == assignment.role_id {
                        let mut k: usize = 0;
                        while k < np
                            invariant
                                nu == self.user_roles@.len(),
                                nr == self.role_permissions@.len(),
                                np == self.permissions@.len(),
                                i < nu,
                                j < nr,
                                k <= np,
                                assignment == self.user_roles@[i as int],
                                assignment.user_id == *user,
                                grant == self.role_permissions@[j as int],
                                grant.role_id == assignment.role_id,
                                forall|k2: int|
                                    k2 < k ==> !self.path_matches(
                                        *user,
                                        permission_name@,
                                        i as int,
                                        j as int,
                                        k2,
                                    ),
                            decreases np - k,
                        {
                            let named = &self.permissions[k];
                            if named.id == grant.permission_id && str_eq(
                                named.name.as_str(),
                                permission_name,
                            ) {
                                assert(self.path_matches(
                                    *user,
                                    permission_name@,
                                    i as int,
                                    j as int,
                                    k as int,
                                ));
                                return true;
                            }
                            k += 1;
                        }
                    }
                    j += 1;
                }
            }
            i += 1;
        }
        false
    }
}

/// Revoking the last grant edge takes the permission away on the next
/// check: if every join path from `user` to `perm` runs through row `j0`
/// of the grant relation, a snapshot identical but for that row's removal
/// denies the permission — no new token or session step is needed.
pub proof fn lemma_revoking_last_edge_denies(
    s: RbacSnapshot,
    s2: RbacSnapshot,
    user: UuidValue,
    perm: Seq<char>,
    j0: int,
)
    requires
        0 <= j0 < s.role_permissions@.len(),
        s2.user_roles@ == s.user_roles@,
        s2.permissions@ == s.permissions@,
        s2.role_permissions@ == s.role_permissions@.remove(j0),
        forall|i: int, j: int, k: int| s.path_matches(user, perm, i, j, k) ==> j == j0,
    ensures
        !s2.spec_has_permission(user, perm),
{
    assert forall|i: int, j: int, k: int| !s2.path_matches(user, perm, i, j, k) by {
        if s2.path_matches(user, perm, i, j, k) {
            let jj: int = if j < j0 {
                j
            } else {
                j + 1
            };
            assert(s2.role_permissions@[j] == s.role_permissions@[jj]);
            assert(s.path_matches(user, perm, i, jj, k));
            assert(false);
        }
    }
}

} // verus!
