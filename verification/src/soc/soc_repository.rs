use vstd::prelude::*;

verus! {

/// Errors reported by the data-access layer.
///
/// `NotFound` when the resource does not exist, `DatabaseError` for general
/// database failures, `UniqueConstraintViolation` / `ForeignKeyConstraintViolation`
/// for constraint violations, `InvalidInput` for bad input data,
/// `OperationFailed` for any other failed operation and `PermissionDenied`
/// for permission problems.
#[derive(Debug, PartialEq, Eq, Clone)]
pub enum RepositoryError {
    NotFound(String),
    DatabaseError(String),
    UniqueConstraintViolation(String),
    ForeignKeyConstraintViolation(String),
    InvalidInput(String),
    OperationFailed(String),
    PermissionDenied(String),
}

/// The kind of a repository error, without its message.
#[derive(Debug, Clone, Copy, PartialEq, Eq)]
pub enum ErrorKind {
    NotFound,
    DatabaseError,
    UniqueConstraintViolation,
    ForeignKeyConstraintViolation,
    InvalidInput,
    OperationFailed,
    PermissionDenied,
}

impl RepositoryError {
    /// The kind of the error.
    pub open spec fn kind(self) -> ErrorKind {
        match self {
            RepositoryError::NotFound(_) => ErrorKind::NotFound,
            RepositoryError::DatabaseError(_) => ErrorKind::DatabaseError,
            RepositoryError::UniqueConstraintViolation(_) => ErrorKind::UniqueConstraintViolation,
            RepositoryError::ForeignKeyConstraintViolation(_) => ErrorKind::ForeignKeyConstraintViolation,
            RepositoryError::InvalidInput(_) => ErrorKind::InvalidInput,
            RepositoryError::OperationFailed(_) => ErrorKind::OperationFailed,
            RepositoryError::PermissionDenied(_) => ErrorKind::PermissionDenied,
        }
    }

    /// The error of the given kind carrying `message`.
    pub fn new(kind: ErrorKind, message: String) -> (r: RepositoryError)
        ensures
            r.kind() == kind,
            r.detail() == message@,
    {
        match kind {
            ErrorKind::NotFound => RepositoryError::NotFound(message),
            ErrorKind::DatabaseError => RepositoryError::DatabaseError(message),
            ErrorKind::UniqueConstraintViolation => RepositoryError::UniqueConstraintViolation(message),
            ErrorKind::ForeignKeyConstraintViolation => RepositoryError::ForeignKeyConstraintViolation(message),
            ErrorKind::InvalidInput => RepositoryError::InvalidInput(message),
            ErrorKind::OperationFailed => RepositoryError::OperationFailed(message),
            ErrorKind::PermissionDenied => RepositoryError::PermissionDenied(message),
        }
    }

    /// The message carried by the error, whatever its kind.
    pub open spec fn detail(self) -> Seq<char> {
        match self {
            RepositoryError::NotFound(m) => m@,
            RepositoryError::DatabaseError(m) => m@,
            RepositoryError::UniqueConstraintViolation(m) => m@,
            RepositoryError::ForeignKeyConstraintViolation(m) => m@,
            RepositoryError::InvalidInput(m) => m@,
            RepositoryError::OperationFailed(m) => m@,
            RepositoryError::PermissionDenied(m) => m@,
        }
    }

    /// The human readable rendering of the error.
    pub open spec fn display_text(self) -> Seq<char> {
        match self {
            RepositoryError::NotFound(m) => "Resource not found: "@ + m@,
            RepositoryError::DatabaseError(m) => "Database error: "@ + m@,
            RepositoryError::UniqueConstraintViolation(m) => "Unique constraint violation: "@ + m@,
            RepositoryError::ForeignKeyConstraintViolation(m) => "Foreign key constraint violation: "@
                + m@,
            RepositoryError::InvalidInput(m) => "Invalid input for repository operation: "@ + m@,
            RepositoryError::OperationFailed(m) => "Operation failed: "@ + m@,
            RepositoryError::PermissionDenied(m) => "Permission denied: "@ + m@,
        }
    }

    /// Renders the error as text, `"<kind phrase>: <message>"`.
    pub fn to_display_string(&self) -> (r: String)
        ensures
            r@ == self.display_text(),
    {
        match self {
            RepositoryError::NotFound(m) => String::from_str("Resource not found: ").concat(
                m.as_str(),
            ),
            RepositoryError::DatabaseError(m) => String::from_str("Database error: ").concat(
                m.as_str(),
            ),
            RepositoryError::UniqueConstraintViolation(m) => String::from_str(
                "Unique constraint violation: ",
            ).concat(m.as_str()),
            RepositoryError::ForeignKeyConstraintViolation(m) => String::from_str(
                "Foreign key constraint violation: ",
            ).concat(m.as_str()),
            RepositoryError::InvalidInput(m) => String::from_str(
                "Invalid input for repository operation: ",
            ).concat(m.as_str()),
            RepositoryError::OperationFailed(m) => String::from_str("Operation failed: ").concat(
                m.as_str(),
            ),
            RepositoryError::PermissionDenied(m) => String::from_str("Permission denied: ").concat(
                m.as_str(),
            ),
        }
    }

    /// The error the data-access layer reports for a failed database call:
    /// a `DatabaseError` carrying the database's own message.
    pub fn from_database_message(message: String) -> (r: RepositoryError)
        ensures
            r == RepositoryError::DatabaseError(message),
    {
        RepositoryError::DatabaseError(message)
    }
}

} // verus!
