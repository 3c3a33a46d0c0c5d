//! Failure taxonomy shared by persistence ports and the application layer.
use vstd::prelude::*;

verus! {

/// A stable, business-facing constraint identifier.
#[derive(Debug, Clone, PartialEq, Eq)]
pub struct ConstraintName {
    value: String,
}

impl View for ConstraintName {
    type V = Seq<char>;

    closed spec fn view(&self) -> Seq<char> {
        self.value@
    }
}

impl ConstraintName {
    pub fn new(value: String) -> (c: ConstraintName)
        ensures
            c@ == value@,
    {
        ConstraintName { value }
    }

    pub fn as_str(&self) -> (s: &str)
        ensures
            s@ == self@,
    {
        self.value.as_str()
    }
}

/// Stable failures exposed by business persistence ports.
#[derive(Debug)]
pub enum PersistenceError {
    NotFound,
    HistoryExpired,
    UniqueViolation { constraint: ConstraintName },
    ForeignKeyViolation { constraint: ConstraintName },
    CheckViolation { constraint: ConstraintName },
    Busy { retry_after: Option<std::time::Duration> },
    Unavailable(String),
    CorruptData(String),
    Internal(String),
}

/// The message that describes a persistence failure.
pub open spec fn persistence_message(e: PersistenceError) -> Seq<char> {
    match e {
        PersistenceError::NotFound => "resource was not found"@,
        PersistenceError::HistoryExpired => "requested metric history is outside the retained range"@,
        PersistenceError::UniqueViolation { constraint } => "unique constraint violated: "@ + constraint@,
        PersistenceError::ForeignKeyViolation { constraint } => "foreign-key constraint violated: "@
            + constraint@,
        PersistenceError::CheckViolation { constraint } => "check constraint violated: "@
            + constraint@,
        PersistenceError::Busy { .. } => "database is busy"@,
        PersistenceError::Unavailable(m) => "database is unavailable: "@ + m@,
        PersistenceError::CorruptData(m) => "database returned corrupt data: "@ + m@,
        PersistenceError::Internal(m) => "internal persistence failure: "@ + m@,
    }
}

impl PersistenceError {
    /// The human-readable message of this failure.
    pub fn message(&self) -> (s: String)
        ensures
            s@ == persistence_message(*self),
    {
        let mut s = String::new();
        match self {
            PersistenceError::NotFound => {
                s.append("resource was not found");
            },
            PersistenceError::HistoryExpired => {
                s.append("requested metric history is outside the retained range");
            },
            PersistenceError::UniqueViolation { constraint } => {
                s.append("unique constraint violated: ");
                s.append(constraint.as_str());
            },
            PersistenceError::ForeignKeyViolation { constraint } => {
                s.append("foreign-key constraint violated: ");
                s.append(constraint.as_str());
            },
            PersistenceError::CheckViolation { constraint } => {
                s.append("check constraint violated: ");
                s.append(constraint.as_str());
            },
            PersistenceError::Busy { .. } => {
                s.append("database is busy");
            },
            PersistenceError::Unavailable(m) => {
                s.append("database is unavailable: ");
                s.append(m.as_str());
            },
            PersistenceError::CorruptData(m) => {
                s.append("database returned corrupt data: ");
                s.append(m.as_str());
            },
            PersistenceError::Internal(m) => {
                s.append("internal persistence failure: ");
                s.append(m.as_str());
            },
        }
        s
    }
}

/// Transport-independent application failure.
#[derive(Debug)]
pub enum ApplicationError {
    DeviceCommunication(String),
    NotFound(String),
    Conflict(String),
    InvalidInput(String),
    /// Validly parsed input that violates an operation precondition.
    InvalidOperation(String),
    Unauthorized,
    Forbidden(String),
    /// Failure to generate a password verifier.
    Authentication(String),
    Persistence(PersistenceError),
    Internal(String),
}

/// The message that describes an application failure.
pub open spec fn application_message(e: ApplicationError) -> Seq<char> {
    match e {
        ApplicationError::DeviceCommunication(m) => m@,
        ApplicationError::NotFound(m) => m@,
        ApplicationError::Conflict(m) => m@,
        ApplicationError::InvalidInput(m) => m@,
        ApplicationError::InvalidOperation(m) => m@,
        ApplicationError::Unauthorized => "Unauthorized"@,
        ApplicationError::Forbidden(m) => m@,
        ApplicationError::Authentication(m) => m@,
        ApplicationError::Persistence(p) => persistence_message(p),
        ApplicationError::Internal(m) => m@,
    }
}

impl ApplicationError {
    /// Wraps a persistence failure unchanged.
    pub fn from_persistence(error: PersistenceError) -> (e: ApplicationError)
        ensures
            e == ApplicationError::Persistence(error),
    {
        ApplicationError::Persistence(error)
    }

    /// The human-readable message of this failure.
    pub fn message(&self) -> (s: String)
        ensures
            s@ == application_message(*self),
    {
        match self {
            ApplicationError::DeviceCommunication(m) => m.clone(),
            ApplicationError::NotFound(m) => m.clone(),
            ApplicationError::Conflict(m) => m.clone(),
            ApplicationError::InvalidInput(m) => m.clone(),
            ApplicationError::InvalidOperation(m) => m.clone(),
            ApplicationError::Unauthorized => {
                let mut s = String::new();
                s.append("Unauthorized");
                s
            },
            ApplicationError::Forbidden(m) => m.clone(),
            ApplicationError::Authentication(m) => m.clone(),
            ApplicationError::Persistence(p) => p.message(),
            ApplicationError::Internal(m) => m.clone(),
        }
    }
}

/// Opaque failure from a host-owned password implementation. It never holds
/// a plaintext password.
#[derive(Debug, Clone, PartialEq, Eq)]
pub struct PasswordHasherError {
    message: String,
}

impl View for PasswordHasherError {
    type V = Seq<char>;

    closed spec fn view(&self) -> Seq<char> {
        self.message@
    }
}

impl PasswordHasherError {
    pub fn new(message: String) -> (e: PasswordHasherError)
        ensures
            e@ == message@,
    {
        PasswordHasherError { message }
    }

    /// The message given at construction.
    pub fn message(&self) -> (s: &str)
        ensures
            s@ == self@,
    {
        self.message.as_str()
    }
}

} // verus!
