//! Tenant-scoped roles and the checks applied before changing them.
use vstd::prelude::*;
use crate::tenant::TenantId;
use chrono::NaiveDateTime;

verus! {

pub const OWNER_ROLE: &'static str = "owner";
pub const ADMIN_ROLE: &'static str = "admin";
pub const OPERATOR_ROLE: &'static str = "operator";
pub const VIEWER_ROLE: &'static str = "viewer";

/// A role of one tenant. Timestamps are UTC.
#[derive(Debug)]
pub struct Role {
    pub id: i32,
    pub tenant_id: TenantId,
    pub name: String,
    pub description: Option<String>,
    pub is_system: bool,
    pub created_at: NaiveDateTime,
    pub updated_at: NaiveDateTime,
}

#[derive(Debug)]
pub struct RoleDetails {
    pub role: Role,
    pub permissions: Vec<String>,
    pub user_count: i64,
}

/// Canonical, validated role data accepted by persistence adapters.
#[derive(Debug, Clone, PartialEq, Eq)]
pub struct NewRole {
    pub name: String,
    pub description: Option<String>,
    pub permissions: Vec<String>,
}

/// Atomic role mutation. `Some(permissions)` replaces every permission and
/// invalidates the permission version of every assigned user.
#[derive(Debug, Clone, PartialEq, Eq)]
pub struct RolePatch {
    pub name: Option<String>,
    pub description: Option<Option<String>>,
    pub permissions: Option<Vec<String>>,
}

#[derive(Debug)]
pub enum UpdateRoleOutcome {
    Updated(RoleDetails),
    NotFound,
    SystemRole,
}

#[derive(Debug, Clone, PartialEq, Eq)]
pub enum DeleteRoleOutcome {
    Deleted,
    NotFound,
    SystemRole,
    InUse { name: String, user_count: i64 },
}

/// What an adapter read, under its row lock, about the role to change.
pub struct LockedRole {
    pub name: String,
    pub description: Option<String>,
    pub is_system: bool,
}

/// The name and description a role has after a patch.
pub struct RoleChange {
    pub name: String,
    pub description: Option<String>,
    /// Whether the permissions are replaced, invalidating assigned users' sessions.
    pub replaces_permissions: bool,
}

/// Whether and how a role is updated. A missing role is `NotFound`, a system
/// role is never changed, and otherwise each patched field replaces the
/// stored one.
pub fn decide_role_update(existing: Option<LockedRole>, patch: &RolePatch) -> (r: Result<
    RoleChange,
    UpdateRoleOutcome,
>)
    ensures
        existing is None ==> r matches Err(UpdateRoleOutcome::NotFound),
        existing matches Some(e) ==> (e.is_system <==> r matches Err(UpdateRoleOutcome::SystemRole)),
        existing is Some && !existing->0.is_system ==> (r matches Ok(c) && c.name@ == (match patch.name {
            Some(n) => n@,
            None => existing->0.name@,
        }) && c.description == (match patch.description {
            Some(d) => d,
            None => existing->0.description,
        }) && c.replaces_permissions == patch.permissions is Some),
{
    match existing {
        None => Err(UpdateRoleOutcome::NotFound),
        Some(e) => {
            if e.is_system {
                return Err(UpdateRoleOutcome::SystemRole);
            }
            let name = match &patch.name {
                Some(n) => n.clone(),
                None => e.name,
            };
            let description = match &patch.description {
                Some(d) => d.clone(),
                None => e.description,
            };
            Ok(RoleChange { name, description, replaces_permissions: patch.permissions.is_some() })
        },
    }
}

/// Whether a role is deleted: a missing role is `NotFound`, a system role is
/// kept, a role assigned to users is `InUse`, any other role is deleted.
pub fn decide_role_delete(existing: Option<LockedRole>, user_count: i64) -> (r: DeleteRoleOutcome)
    ensures
        existing is None ==> r == DeleteRoleOutcome::NotFound,
        existing matches Some(e) && e.is_system ==> r == DeleteRoleOutcome::SystemRole,
        existing is Some && !existing->0.is_system && user_count > 0 ==> (r matches DeleteRoleOutcome::InUse {
            name,
            user_count: c,
        } && name@ == existing->0.name@ && c == user_count),
        existing matches Some(e) && !e.is_system && user_count <= 0 ==> r == DeleteRoleOutcome::Deleted,
{
    match existing {
        None => DeleteRoleOutcome::NotFound,
        Some(e) => {
            if e.is_system {
                DeleteRoleOutcome::SystemRole
            } else if user_count > 0 {
                DeleteRoleOutcome::InUse { name: e.name, user_count }
            } else {
                DeleteRoleOutcome::Deleted
            }
        },
    }
}

} // verus!
