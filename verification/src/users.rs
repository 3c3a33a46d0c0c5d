//! Users, credentials and the owner-protection checks on role assignments.
use vstd::prelude::*;
use crate::pagination::Page;
use crate::roles::{Role, ADMIN_ROLE, OWNER_ROLE, VIEWER_ROLE};
use crate::tenant::TenantId;
use crate::text::str_equal;
use chrono::NaiveDateTime;

verus! {

/// An encoded password verifier produced by the host's password implementation.
/// It offers no serialisation and its debug rendering never reveals the value.
#[derive(PartialEq, Eq)]
pub struct EncodedPasswordHash {
    value: String,
}

impl View for EncodedPasswordHash {
    type V = Seq<char>;

    closed spec fn view(&self) -> Seq<char> {
        self.value@
    }
}

impl EncodedPasswordHash {
    pub fn new(value: String) -> (h: EncodedPasswordHash)
        ensures
            h@ == value@,
    {
        EncodedPasswordHash { value }
    }

    pub fn as_str(&self) -> (s: &str)
        ensures
            s@ == self@,
    {
        self.value.as_str()
    }

    pub fn into_inner(self) -> (s: String)
        ensures
            s@ == self@,
    {
        self.value
    }

    /// The debug rendering, which redacts the verifier.
    pub fn redacted_debug(&self) -> (s: String)
        ensures
            s@ == "EncodedPasswordHash(\"[REDACTED]\")"@,
    {
        "EncodedPasswordHash(\"[REDACTED]\")".to_owned()
    }
}

impl Clone for EncodedPasswordHash {
    fn clone(&self) -> (r: EncodedPasswordHash)
        ensures
            r@ == self@,
    {
        EncodedPasswordHash { value: self.value.clone() }
    }
}

/// Durable, opaque identity generation of a user principal. Sessions bind to
/// it so that deleting and recreating a user never revives an older session.
#[derive(Debug, PartialEq, Eq)]
pub struct UserAuthEpoch {
    value: String,
}

impl View for UserAuthEpoch {
    type V = Seq<char>;

    closed spec fn view(&self) -> Seq<char> {
        self.value@
    }
}

impl UserAuthEpoch {
    pub fn new(value: String) -> (e: UserAuthEpoch)
        ensures
            e@ == value@,
    {
        UserAuthEpoch { value }
    }

    /// A fresh random epoch for a newly created principal.
    pub fn generate() -> (e: UserAuthEpoch)
        ensures
            crate::ids::is_uuid_v4_text(e@),
    {
        UserAuthEpoch { value: crate::ids::new_uuid_v4() }
    }

    pub fn as_str(&self) -> (s: &str)
        ensures
            s@ == self@,
    {
        self.value.as_str()
    }

    pub fn into_inner(self) -> (s: String)
        ensures
            s@ == self@,
    {
        self.value
    }
}

impl Clone for UserAuthEpoch {
    fn clone(&self) -> (r: UserAuthEpoch)
        ensures
            r@ == self@,
    {
        UserAuthEpoch { value: self.value.clone() }
    }
}

/// A user of one tenant. Timestamps are UTC.
#[derive(Debug)]
pub struct User {
    pub id: i32,
    pub tenant_id: TenantId,
    pub username: String,
    /// Compatibility projection of the primary assigned role.
    pub role: String,
    pub created_at: NaiveDateTime,
    pub is_active: bool,
    pub permission_version: i32,
    pub auth_epoch: UserAuthEpoch,
    pub last_login_at: Option<NaiveDateTime>,
}

#[derive(Debug)]
pub struct UserDetails {
    pub user: User,
    pub roles: Vec<Role>,
    pub permissions: Vec<String>,
}

pub struct UserCredentials {
    pub details: UserDetails,
    pub password_hash: EncodedPasswordHash,
}

pub type UserPage = Page<UserDetails>;

/// Canonical, validated user data accepted by persistence adapters.
#[derive(PartialEq, Eq)]
pub struct NewUser {
    pub username: String,
    pub password_hash: EncodedPasswordHash,
    /// `None` selects the tenant's built-in viewer role.
    pub role_ids: Option<Vec<i32>>,
}

pub enum CreateUserOutcome {
    Created(UserDetails),
    RolesNotFound,
}

#[derive(Debug, Clone, Copy, PartialEq, Eq, Structural)]
pub enum ChangePasswordOutcome {
    PasswordChanged,
    NotFound,
}

#[derive(Debug, Clone, Copy, PartialEq, Eq, Structural)]
pub enum DeleteUserOutcome {
    Deleted,
    NotFound,
    WouldDeleteLastOwner,
}

pub enum SetUserRolesOutcome {
    Updated(UserDetails),
    UserNotFound,
    RolesNotFound,
    WouldRemoveLastOwner,
}

#[derive(Debug, Clone, Copy, PartialEq, Eq, Structural)]
pub enum RecordSuccessfulLoginOutcome {
    LoginRecorded,
    NotFound,
}

// --------------------------------------------------------- role projection

/// The primary role of a user: `owner` if assigned, else `admin` if
/// assigned, else the first assigned role, and `viewer` when none is assigned.
pub open spec fn primary_role(names: Seq<Seq<char>>) -> Seq<char> {
    if names.contains(OWNER_ROLE@) {
        OWNER_ROLE@
    } else if names.contains(ADMIN_ROLE@) {
        ADMIN_ROLE@
    } else if names.len() > 0 {
        names[0]
    } else {
        VIEWER_ROLE@
    }
}

fn contains_name(names: &Vec<String>, target: &str) -> (r: bool)
    ensures
        r == names@.map_values(|n: String| n@).contains(target@),
{
    let ghost views = names@.map_values(|n: String| n@);
    let mut i: usize = 0;
    while i < names.len()
        invariant
            i <= names@.len(),
            views == names@.map_values(|n: String| n@),
            forall|j: int| 0 <= j < i ==> views[j] != target@,
        decreases names@.len() - i,
    {
        if str_equal(names[i].as_str(), target) {
            assert(views[i as int] == target@);
            return true;
        }
        i = i + 1;
    }
    false
}

/// The primary role name of a user with the given assigned role names.
pub fn primary_role_name(names: &Vec<String>) -> (r: String)
    ensures
        r@ == primary_role(names@.map_values(|n: String| n@)),
{
    if contains_name(names, OWNER_ROLE) {
        OWNER_ROLE.to_owned()
    } else if contains_name(names, ADMIN_ROLE) {
        ADMIN_ROLE.to_owned()
    } else if names.len() > 0 {
        names[0].clone()
    } else {
        VIEWER_ROLE.to_owned()
    }
}

// -------------------------------------------------------------- role locking

/// The number of distinct values in a sequence.
pub open spec fn distinct_count(s: Seq<i32>) -> nat
    decreases s.len(),
{
    if s.len() == 0 {
        0
    } else if s.drop_last().contains(s.last()) {
        distinct_count(s.drop_last())
    } else {
        distinct_count(s.drop_last()) + 1
    }
}

/// The number of distinct role identifiers requested.
pub fn distinct_role_count(role_ids: &Vec<i32>) -> (r: usize)
    ensures
        r == distinct_count(role_ids@),
{
    let mut count: usize = 0;
    let mut i: usize = 0;
    while i < role_ids.len()
        invariant
            i <= role_ids@.len(),
            count == distinct_count(role_ids@.take(i as int)),
            count <= i,
        decreases role_ids@.len() - i,
    {
        let id = role_ids[i];
        let mut seen = false;
        let mut j: usize = 0;
        while j < i
            invariant
                j <= i < role_ids@.len(),
                id == role_ids@[i as int],
                seen == role_ids@.take(j as int).contains(id),
            decreases i - j,
        {
            if role_ids[j] == id {
                seen = true;
            }
            proof {
                let before = role_ids@.take(j as int);
                let after = role_ids@.take(j + 1);
                assert(after =~= before.push(role_ids@[j as int]));
                if before.contains(id) {
                    let k = choose|k: int| 0 <= k < before.len() && before[k] == id;
                    assert(after[k] == id);
                }
                if role_ids@[j as int] == id {
                    assert(after[j as int] == id);
                }
                if after.contains(id) {
                    let k = choose|k: int| 0 <= k < after.len() && after[k] == id;
                    if k < j {
                        assert(before[k] == id);
                    }
                }
            }
            j = j + 1;
        }
        proof {
            assert(role_ids@.take(i + 1).drop_last() =~= role_ids@.take(i as int));
            assert(role_ids@.take(i + 1).last() == id);
        }
        if !seen {
            count = count + 1;
        }
        i = i + 1;
    }
    assert(role_ids@.take(role_ids@.len() as int) =~= role_ids@);
    count
}

/// A role selection is complete when every distinct requested identifier was
/// found among the tenant's roles. An empty request selects nothing and is complete.
pub fn role_selection_complete(role_ids: &Vec<i32>, found: usize) -> (r: bool)
    ensures
        r == (distinct_count(role_ids@) == 0 || found == distinct_count(role_ids@)),
{
    let unique = distinct_role_count(role_ids);
    unique == 0 || found == unique
}

// ----------------------------------------------------------- owner protection

/// Whether a user is deleted. A missing user is `NotFound`; when the tenant
/// has an owner role and the user is one of at most one owner, the deletion
/// is refused; otherwise the user is deleted.
pub open spec fn delete_user_outcome(
    user_exists: bool,
    owner_role_exists: bool,
    user_is_owner: bool,
    owner_count: int,
) -> DeleteUserOutcome {
    if !user_exists {
        DeleteUserOutcome::NotFound
    } else if owner_role_exists && user_is_owner && owner_count <= 1 {
        DeleteUserOutcome::WouldDeleteLastOwner
    } else {
        DeleteUserOutcome::Deleted
    }
}

pub fn decide_user_delete(
    user_exists: bool,
    owner_role_exists: bool,
    user_is_owner: bool,
    owner_count: i64,
) -> (r: DeleteUserOutcome)
    ensures
        r == delete_user_outcome(user_exists, owner_role_exists, user_is_owner, owner_count as int),
{
    if !user_exists {
        DeleteUserOutcome::NotFound
    } else if owner_role_exists && user_is_owner && owner_count <= 1 {
        DeleteUserOutcome::WouldDeleteLastOwner
    } else {
        DeleteUserOutcome::Deleted
    }
}

/// The decision on replacing a user's roles.
#[derive(Debug, Clone, Copy, PartialEq, Eq, Structural)]
pub enum RoleAssignmentDecision {
    Apply,
    UserNotFound,
    RolesNotFound,
    WouldRemoveLastOwner,
}

/// Whether a user's roles are replaced. The user must exist and every
/// requested role must be found; a user who is an owner may only give up the
/// owner role while another owner remains.
pub open spec fn role_assignment_outcome(
    user_exists: bool,
    roles_found: bool,
    owner_role_exists: bool,
    currently_owner: bool,
    remains_owner: bool,
    owner_count: int,
) -> RoleAssignmentDecision {
    if !user_exists {
        RoleAssignmentDecision::UserNotFound
    } else if !roles_found {
        RoleAssignmentDecision::RolesNotFound
    } else if owner_role_exists && currently_owner && !remains_owner && owner_count <= 1 {
        RoleAssignmentDecision::WouldRemoveLastOwner
    } else {
        RoleAssignmentDecision::Apply
    }
}

pub fn decide_role_assignment(
    user_exists: bool,
    roles_found: bool,
    owner_role_exists: bool,
    currently_owner: bool,
    remains_owner: bool,
    owner_count: i64,
) -> (r: RoleAssignmentDecision)
    ensures
        r == role_assignment_outcome(
            user_exists,
            roles_found,
            owner_role_exists,
            currently_owner,
            remains_owner,
            owner_count as int,
        ),
{
    if !user_exists {
        RoleAssignmentDecision::UserNotFound
    } else if !roles_found {
        RoleAssignmentDecision::RolesNotFound
    } else if owner_role_exists && currently_owner && !remains_owner && owner_count <= 1 {
        RoleAssignmentDecision::WouldRemoveLastOwner
    } else {
        RoleAssignmentDecision::Apply
    }
}

/// Law: neither a deletion nor a role change leaves a tenant without an
/// owner. Whenever an owner is removed or demoted, another owner remains.
pub proof fn lemma_last_owner_is_protected(
    user_exists: bool,
    roles_found: bool,
    currently_owner: bool,
    remains_owner: bool,
    owner_count: int,
)
    requires
        currently_owner,
        owner_count >= 1,
    ensures
        delete_user_outcome(user_exists, true, currently_owner, owner_count)
            == DeleteUserOutcome::Deleted ==> owner_count - 1 >= 1,
        role_assignment_outcome(user_exists, roles_found, true, currently_owner, remains_owner, owner_count)
            == RoleAssignmentDecision::Apply && !remains_owner ==> owner_count - 1 >= 1,
{
}

/// Whether a password change or login record touched the user's row.
pub fn password_change_outcome(rows_changed: usize) -> (r: ChangePasswordOutcome)
    ensures
        r == (if rows_changed == 0 {
            ChangePasswordOutcome::NotFound
        } else {
            ChangePasswordOutcome::PasswordChanged
        }),
{
    if rows_changed == 0 {
        ChangePasswordOutcome::NotFound
    } else {
        ChangePasswordOutcome::PasswordChanged
    }
}

pub fn login_outcome(rows_changed: usize) -> (r: RecordSuccessfulLoginOutcome)
    ensures
        r == (if rows_changed == 0 {
            RecordSuccessfulLoginOutcome::NotFound
        } else {
            RecordSuccessfulLoginOutcome::LoginRecorded
        }),
{
    if rows_changed == 0 {
        RecordSuccessfulLoginOutcome::NotFound
    } else {
        RecordSuccessfulLoginOutcome::LoginRecorded
    }
}

// ------------------------------------------------------------- permissions

/// A sorted sequence of permission keys with adjacent repeats removed.
pub open spec fn dedup_adjacent(s: Seq<Seq<char>>) -> Seq<Seq<char>>
    decreases s.len(),
{
    if s.len() == 0 {
        Seq::empty()
    } else if s.len() >= 2 && s[s.len() - 2] == s.last() {
        dedup_adjacent(s.drop_last())
    } else {
        dedup_adjacent(s.drop_last()).push(s.last())
    }
}

/// Removes adjacent repeated permission keys, as `Vec::dedup` does.
pub fn dedup_permissions(permissions: Vec<String>) -> (r: Vec<String>)
    ensures
        r@.map_values(|p: String| p@) == dedup_adjacent(permissions@.map_values(|p: String| p@)),
{
    let ghost all = permissions@.map_values(|p: String| p@);
    let mut out: Vec<String> = Vec::new();
    let mut i: usize = 0;
    while i < permissions.len()
        invariant
            i <= permissions@.len(),
            all == permissions@.map_values(|p: String| p@),
            out@.map_values(|p: String| p@) == dedup_adjacent(all.take(i as int)),
        decreases permissions@.len() - i,
    {
        let repeat = i > 0 && str_equal(permissions[i - 1].as_str(), permissions[i].as_str());
        proof {
            let t = all.take(i + 1);
            assert(t.drop_last() =~= all.take(i as int));
            assert(t.last() == permissions@[i as int]@);
            if i > 0 {
                assert(t[t.len() - 2] == permissions@[i - 1]@);
            }
        }
        if !repeat {
            let ghost before = out@;
            out.push(permissions[i].clone());
            proof {
                assert(out@.map_values(|p: String| p@) =~= before.map_values(|p: String| p@).push(
                    permissions@[i as int]@,
                ));
            }
        }
        i = i + 1;
    }
    assert(all.take(permissions@.len() as int) =~= all);
    out
}

} // verus!
