//! Database lifecycle checks: the health probe's answer, the failures the
//! lifecycle reports, and the connection counts of a pool.
use vstd::prelude::*;

verus! {

/// A failure of the database lifecycle surface.
#[derive(Debug, Clone, PartialEq, Eq)]
pub enum PostgresLifecycleError {
    Unavailable(String),
    Migration(String),
    CorruptData(String),
    Internal(String),
}

pub open spec fn lifecycle_message(e: PostgresLifecycleError) -> Seq<char> {
    match e {
        PostgresLifecycleError::Unavailable(m) => "PostgreSQL database is unavailable: "@ + m@,
        PostgresLifecycleError::Migration(m) => "PostgreSQL migration failed: "@ + m@,
        PostgresLifecycleError::CorruptData(m) => "PostgreSQL database returned corrupt data: "@
            + m@,
        PostgresLifecycleError::Internal(m) => "internal PostgreSQL lifecycle failure: "@ + m@,
    }
}

impl PostgresLifecycleError {
    /// The human-readable message of this failure.
    pub fn message(&self) -> (s: String)
        ensures
            s@ == lifecycle_message(*self),
    {
        let mut s = String::new();
        match self {
            PostgresLifecycleError::Unavailable(m) => {
                s.append("PostgreSQL database is unavailable: ");
                s.append(m.as_str());
            },
            PostgresLifecycleError::Migration(m) => {
                s.append("PostgreSQL migration failed: ");
                s.append(m.as_str());
            },
            PostgresLifecycleError::CorruptData(m) => {
                s.append("PostgreSQL database returned corrupt data: ");
                s.append(m.as_str());
            },
            PostgresLifecycleError::Internal(m) => {
                s.append("internal PostgreSQL lifecycle failure: ");
                s.append(m.as_str());
            },
        }
        s
    }
}

/// Message of the failure reported when the health probe answers anything but 1.
pub const UNEXPECTED_HEALTH_MESSAGE: &'static str =
    "database health query returned an unexpected value";

/// The database is healthy when its probe query answers 1.
pub fn check_health_answer(value: i32) -> (r: Result<(), PostgresLifecycleError>)
    ensures
        r is Ok <==> value == 1,
        r matches Err(e) ==> e is CorruptData && e->CorruptData_0@ == UNEXPECTED_HEALTH_MESSAGE@,
{
    if value != 1 {
        return Err(PostgresLifecycleError::CorruptData(UNEXPECTED_HEALTH_MESSAGE.to_owned()));
    }
    Ok(())
}

/// Busy and idle connections of a pool that holds `connections` connections,
/// `idle` of them idle.
pub fn busy_and_idle(connections: u32, idle: u32) -> (r: (u32, u32))
    requires
        idle <= connections,
    ensures
        r.0 == connections - idle,
        r.1 == idle,
{
    (connections - idle, idle)
}

/// The lifecycle's report of busy and idle connections as `i32` values: the
/// busy count saturates at zero, and each count is converted with `as`,
/// which wraps values above `i32::MAX`.
pub fn lifecycle_connection_counts(connections: u32, idle: u32) -> (r: (i32, i32))
    ensures
        r.0 == (if idle <= connections { (connections - idle) as i32 } else { 0i32 }),
        r.1 == idle as i32,
{
    (connections.saturating_sub(idle) as i32, idle as i32)
}

} // verus!
