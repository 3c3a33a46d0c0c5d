//! Mapping of database failures onto the stable persistence taxonomy.
use vstd::prelude::*;
use crate::error::{ConstraintName, PersistenceError};
use crate::text::str_equal;

verus! {

/// The category of a failure reported by the database server.
#[derive(Debug, Clone, Copy, PartialEq, Eq, Structural)]
pub enum DatabaseErrorKind {
    UniqueViolation,
    ForeignKeyViolation,
    UnableToSendCommand,
    SerializationFailure,
    ReadOnlyTransaction,
    RestrictViolation,
    NotNullViolation,
    CheckViolation,
    ExclusionViolation,
    ClosedConnection,
    Unknown,
}

/// A failure of a database operation, as the persistence adapter reads it.
#[derive(Debug)]
pub enum DbError {
    /// The query expected a row and found none.
    NotFound,
    /// The server rejected the statement.
    Database { kind: DatabaseErrorKind, message: String, constraint_name: Option<String> },
    /// Any other failure, with its description.
    Other(String),
}

/// The business-facing name of a schema constraint. Backend-generated names
/// are never exposed: unknown constraints keep only their category.
pub open spec fn semantic_constraint_name(database_name: Option<Seq<char>>) -> Seq<char> {
    match database_name {
        Some(n) => if n == "zones_pkey"@ || n == "zones_tenant_id_id_key"@ {
            "zones.id"@
        } else if n == "zones_tenant_name_unique"@ {
            "zones.tenant_name"@
        } else if n == "zones_tenant_id_fkey"@ {
            "zones.tenant_id"@
        } else if n == "roles_pkey"@ || n == "roles_tenant_id_id_key"@ {
            "roles.id"@
        } else if n == "roles_tenant_id_name_key"@ {
            "roles.tenant_name"@
        } else if n == "rule_conditions_zone_id_fkey"@ || n == "rule_conditions_tenant_zone_fk"@ {
            "rule_conditions.zone_id"@
        } else {
            "database.constraint"@
        },
        None => "database.constraint"@,
    }
}

/// The business-facing constraint names; nothing else is ever reported.
pub open spec fn is_stable_constraint_name(n: Seq<char>) -> bool {
    n == "zones.id"@ || n == "zones.tenant_name"@ || n == "zones.tenant_id"@ || n == "roles.id"@
        || n == "roles.tenant_name"@ || n == "rule_conditions.zone_id"@ || n
        == "database.constraint"@
}

/// Law: each known schema constraint maps to its business name, and absent
/// or unknown names to the generic category.
pub proof fn lemma_known_constraint_names()
    ensures
        semantic_constraint_name(Some("zones_pkey"@)) == "zones.id"@,
        semantic_constraint_name(Some("zones_tenant_id_id_key"@)) == "zones.id"@,
        semantic_constraint_name(Some("zones_tenant_name_unique"@)) == "zones.tenant_name"@,
        semantic_constraint_name(Some("zones_tenant_id_fkey"@)) == "zones.tenant_id"@,
        semantic_constraint_name(Some("roles_pkey"@)) == "roles.id"@,
        semantic_constraint_name(Some("roles_tenant_id_id_key"@)) == "roles.id"@,
        semantic_constraint_name(Some("roles_tenant_id_name_key"@)) == "roles.tenant_name"@,
        semantic_constraint_name(Some("rule_conditions_zone_id_fkey"@)) == "rule_conditions.zone_id"@,
        semantic_constraint_name(Some("rule_conditions_tenant_zone_fk"@)) == "rule_conditions.zone_id"@,
        semantic_constraint_name(None) == "database.constraint"@,
{
    reveal_strlit("zones_pkey");
    assert("zones_pkey"@.len() == 10 && "zones_pkey"@[0] == 'z');
    reveal_strlit("zones_tenant_id_id_key");
    assert("zones_tenant_id_id_key"@.len() == 22 && "zones_tenant_id_id_key"@[0] == 'z');
    reveal_strlit("zones_tenant_name_unique");
    assert("zones_tenant_name_unique"@.len() == 24 && "zones_tenant_name_unique"@[0] == 'z');
    reveal_strlit("zones_tenant_id_fkey");
    assert("zones_tenant_id_fkey"@.len() == 20 && "zones_tenant_id_fkey"@[0] == 'z');
    reveal_strlit("roles_pkey");
    assert("roles_pkey"@.len() == 10 && "roles_pkey"@[0] == 'r');
    reveal_strlit("roles_tenant_id_id_key");
    assert("roles_tenant_id_id_key"@.len() == 22 && "roles_tenant_id_id_key"@[0] == 'r');
    reveal_strlit("roles_tenant_id_name_key");
    assert("roles_tenant_id_name_key"@.len() == 24 && "roles_tenant_id_name_key"@[0] == 'r');
    reveal_strlit("rule_conditions_zone_id_fkey");
    assert("rule_conditions_zone_id_fkey"@.len() == 28 && "rule_conditions_zone_id_fkey"@[0] == 'r');
    reveal_strlit("rule_conditions_tenant_zone_fk");
    assert("rule_conditions_tenant_zone_fk"@.len() == 30 && "rule_conditions_tenant_zone_fk"@[0] == 'r');
}

/// Law: backend-generated constraint identifiers never reach the business
/// taxonomy: every reported name is one of the stable names.
pub proof fn lemma_constraint_names_are_stable(database_name: Option<Seq<char>>)
    ensures
        is_stable_constraint_name(semantic_constraint_name(database_name)),
{
}

/// Maps a database constraint name to its stable business-facing name.
pub fn semantic_constraint(database_name: Option<&str>) -> (c: ConstraintName)
    ensures
        c@ == semantic_constraint_name(
            match database_name {
                Some(n) => Some(n@),
                None => None,
            },
        ),
{
    let name: &str = match database_name {
        Some(n) => if str_equal(n, "zones_pkey") || str_equal(n, "zones_tenant_id_id_key") {
            "zones.id"
        } else if str_equal(n, "zones_tenant_name_unique") {
            "zones.tenant_name"
        } else if str_equal(n, "zones_tenant_id_fkey") {
            "zones.tenant_id"
        } else if str_equal(n, "roles_pkey") || str_equal(n, "roles_tenant_id_id_key") {
            "roles.id"
        } else if str_equal(n, "roles_tenant_id_name_key") {
            "roles.tenant_name"
        } else if str_equal(n, "rule_conditions_zone_id_fkey") || str_equal(
            n,
            "rule_conditions_tenant_zone_fk",
        ) {
            "rule_conditions.zone_id"
        } else {
            "database.constraint"
        },
        None => "database.constraint",
    };
    ConstraintName::new(name.to_owned())
}

/// Maps a database failure into the persistence taxonomy: a missing row is
/// `NotFound`; constraint violations carry the semantic constraint name;
/// lost connections are `Unavailable`; serialization failures are `Busy`;
/// everything else is `Internal` with the failure's message.
pub fn map_db_error(error: DbError) -> (r: PersistenceError)
    ensures
        match error {
            DbError::NotFound => r is NotFound,
            DbError::Database { kind, message, constraint_name } => {
                let constraint = semantic_constraint_name(
                    match constraint_name {
                        Some(n) => Some(n@),
                        None => None,
                    },
                );
                match kind {
                    DatabaseErrorKind::UniqueViolation => r is UniqueViolation
                        && r->UniqueViolation_constraint@ == constraint,
                    DatabaseErrorKind::ForeignKeyViolation => r is ForeignKeyViolation
                        && r->ForeignKeyViolation_constraint@ == constraint,
                    DatabaseErrorKind::CheckViolation => r is CheckViolation
                        && r->CheckViolation_constraint@ == constraint,
                    DatabaseErrorKind::UnableToSendCommand | DatabaseErrorKind::ClosedConnection =>
                        r is Unavailable && r->Unavailable_0@ == message@,
                    DatabaseErrorKind::SerializationFailure => r is Busy && r->retry_after is None,
                    _ => r is Internal && r->Internal_0@ == message@,
                }
            },
            DbError::Other(description) => r is Internal && r->Internal_0@ == description@,
        },
{
    match error {
        DbError::NotFound => PersistenceError::NotFound,
        DbError::Database { kind, message, constraint_name } => {
            let constraint = match &constraint_name {
                Some(n) => semantic_constraint(Some(n.as_str())),
                None => semantic_constraint(None),
            };
            match kind {
                DatabaseErrorKind::UniqueViolation => PersistenceError::UniqueViolation { constraint },
                DatabaseErrorKind::ForeignKeyViolation => PersistenceError::ForeignKeyViolation {
                    constraint,
                },
                DatabaseErrorKind::CheckViolation => PersistenceError::CheckViolation { constraint },
                DatabaseErrorKind::UnableToSendCommand | DatabaseErrorKind::ClosedConnection =>
                    PersistenceError::Unavailable(message),
                DatabaseErrorKind::SerializationFailure => PersistenceError::Busy { retry_after: None },
                _ => PersistenceError::Internal(message),
            }
        },
        DbError::Other(description) => PersistenceError::Internal(description),
    }
}

} // verus!
