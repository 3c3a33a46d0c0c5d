//! Tenant-scoped zones: the queries that read and change them, the
//! reading of stored rows, and the decision taken before deletion.
use vstd::prelude::*;
use crate::error::PersistenceError;
use crate::json::Json;
use crate::tenant::{valid_tenant_id, TenantId};
use chrono::NaiveDateTime;

verus! {

/// Every column a zone query returns, in order.
pub const ZONE_COLUMNS: &'static str =
    "id, tenant_id, name, description, geometry_type, geometry_json, color, created_at, updated_at";

pub const LIST_SQL: &'static str = r#"
    SELECT id, tenant_id, name, description, geometry_type, geometry_json, color,
           created_at, updated_at
      FROM zones
     WHERE tenant_id = $1
     ORDER BY name COLLATE "C" ASC, id COLLATE "C" ASC
"#;

pub const LIST_FOR_RULE_SNAPSHOT_SQL: &'static str = r#"
    SELECT id, tenant_id, name, description, geometry_type, geometry_json, color,
           created_at, updated_at
      FROM zones
     ORDER BY tenant_id COLLATE "C" ASC,
              name COLLATE "C" ASC,
              id COLLATE "C" ASC
"#;

pub const GET_SQL: &'static str = r#"
    SELECT id, tenant_id, name, description, geometry_type, geometry_json, color,
           created_at, updated_at
      FROM zones
     WHERE tenant_id = $1 AND id = $2
"#;

pub const CREATE_SQL: &'static str = r#"
    INSERT INTO zones (
        id, tenant_id, name, description, geometry_type, geometry_json, color
    ) VALUES ($1, $2, $3, $4, $5, $6, $7)
    RETURNING id, tenant_id, name, description, geometry_type, geometry_json, color,
              created_at, updated_at
"#;

pub const UPDATE_SQL: &'static str = r#"
    UPDATE zones
       SET name = COALESCE($3, name),
           description = COALESCE($4, description),
           geometry_type = COALESCE($5, geometry_type),
           geometry_json = COALESCE($6, geometry_json),
           color = COALESCE($7, color),
           updated_at = $8
     WHERE tenant_id = $1 AND id = $2
    RETURNING id, tenant_id, name, description, geometry_type, geometry_json, color,
              created_at, updated_at
"#;

pub const LOCK_FOR_DELETE_SQL: &'static str = r#"
    SELECT id
      FROM zones
     WHERE tenant_id = $1 AND id = $2
     FOR UPDATE
"#;

pub const IS_IN_USE_SQL: &'static str = r#"
    SELECT EXISTS (
        SELECT 1
          FROM rule_conditions
         WHERE tenant_id = $1 AND zone_id = $2
    ) AS present
"#;

pub const DELETE_SQL: &'static str = "DELETE FROM zones WHERE tenant_id = $1 AND id = $2";

/// A zone of one tenant. Timestamps are UTC.
#[derive(Debug)]
pub struct Zone {
    pub id: String,
    pub tenant_id: TenantId,
    pub name: String,
    pub description: String,
    pub geometry_type: String,
    pub geometry_json: Json,
    pub color: String,
    pub created_at: NaiveDateTime,
    pub updated_at: NaiveDateTime,
}

#[derive(Debug)]
pub struct NewZone {
    pub id: String,
    pub name: String,
    pub description: String,
    pub geometry_type: String,
    pub geometry_json: Json,
    pub color: String,
}

#[derive(Debug)]
pub struct ZonePatch {
    pub name: Option<String>,
    pub description: Option<String>,
    pub geometry_type: Option<String>,
    pub geometry_json: Option<Json>,
    pub color: Option<String>,
    pub updated_at: NaiveDateTime,
}

#[derive(Debug, Clone, Copy, PartialEq, Eq, Structural)]
pub enum DeleteZoneOutcome {
    NotFound,
    InUse,
    Deleted,
}

/// A zone row as stored.
#[derive(Debug)]
pub struct ZoneRow {
    pub id: String,
    pub tenant_id: String,
    pub name: String,
    pub description: String,
    pub geometry_type: String,
    pub geometry_json: Json,
    pub color: String,
    pub created_at: NaiveDateTime,
    pub updated_at: NaiveDateTime,
}

/// Message of the failure reported for a stored row with a blank tenant.
pub const BLANK_TENANT_MESSAGE: &'static str = "tenant identifier must not be blank";

impl ZoneRow {
    /// The zone a row holds. A row whose tenant identifier is invalid is
    /// corrupt data; every other field is carried over unchanged.
    pub fn into_domain(self) -> (r: Result<Zone, PersistenceError>)
        ensures
            r is Ok <==> valid_tenant_id(self.tenant_id@),
            r matches Ok(z) ==> {
                &&& z.id == self.id
                &&& z.tenant_id@ == self.tenant_id@
                &&& z.name == self.name
                &&& z.description == self.description
                &&& z.geometry_type == self.geometry_type
                &&& z.geometry_json == self.geometry_json
                &&& z.color == self.color
                &&& z.created_at == self.created_at
                &&& z.updated_at == self.updated_at
            },
            r matches Err(e) ==> e is CorruptData && e->CorruptData_0@ == BLANK_TENANT_MESSAGE@,
    {
        let ZoneRow {
            id,
            tenant_id,
            name,
            description,
            geometry_type,
            geometry_json,
            color,
            created_at,
            updated_at,
        } = self;
        match TenantId::new(tenant_id) {
            Ok(tenant_id) => Ok(
                Zone {
                    id,
                    tenant_id,
                    name,
                    description,
                    geometry_type,
                    geometry_json,
                    color,
                    created_at,
                    updated_at,
                },
            ),
            Err(_) => Err(PersistenceError::CorruptData(BLANK_TENANT_MESSAGE.to_owned())),
        }
    }
}

/// Whether a zone is deleted: a zone that is not found under the tenant is
/// `NotFound`, a zone that a rule condition refers to is `InUse`, and any
/// other zone is deleted.
pub fn decide_zone_delete(locked: bool, referenced_by_rule: bool) -> (r: DeleteZoneOutcome)
    ensures
        !locked ==> r == DeleteZoneOutcome::NotFound,
        locked && referenced_by_rule ==> r == DeleteZoneOutcome::InUse,
        locked && !referenced_by_rule ==> r == DeleteZoneOutcome::Deleted,
{
    if !locked {
        DeleteZoneOutcome::NotFound
    } else if referenced_by_rule {
        DeleteZoneOutcome::InUse
    } else {
        DeleteZoneOutcome::Deleted
    }
}

} // verus!
