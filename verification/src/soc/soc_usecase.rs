use vstd::prelude::*;
use crate::soc::soc_repository::RepositoryError;

verus! {

/// One failed validation: the offending field and why it failed.
#[derive(Debug, PartialEq, Eq, Clone)]
pub struct ValidationErrorDetail {
    pub field: String,
    pub message: String,
}

/// Errors reported by the use-case layer.
#[derive(Debug, PartialEq, Eq, Clone)]
pub enum UsecaseError {
    ValidationFailed(Vec<ValidationErrorDetail>),
    ResourceNotFound(String),
    PermissionDenied(String),
    Conflict(String),
    ExternalServiceError(String),
    Unexpected(String),
    InvalidData(String),
}

/// `details` holds exactly one entry, for `field`, with `message`.
pub open spec fn is_single_detail(
    details: Seq<ValidationErrorDetail>,
    field: Seq<char>,
    message: Seq<char>,
) -> bool {
    &&& details.len() == 1
    &&& details[0].field@ == field
    &&& details[0].message@ == message
}

/// How a repository error is reported by the use-case layer: a missing
/// resource stays a missing resource, database and generic failures become
/// unexpected errors, both constraint violations become conflicts, invalid
/// input becomes a validation failure on the field `input`, and a permission
/// problem stays a permission problem. The message is kept.
pub open spec fn reports(err: RepositoryError, r: UsecaseError) -> bool {
    match err {
        RepositoryError::NotFound(m) => r matches UsecaseError::ResourceNotFound(n) && n@ == m@,
        RepositoryError::DatabaseError(m) => r matches UsecaseError::Unexpected(n) && n@ == m@,
        RepositoryError::UniqueConstraintViolation(m) => r matches UsecaseError::Conflict(n) && n@
            == m@,
        RepositoryError::ForeignKeyConstraintViolation(m) => r matches UsecaseError::Conflict(n)
            && n@ == m@,
        RepositoryError::InvalidInput(m) => r matches UsecaseError::ValidationFailed(d)
            && is_single_detail(d@, "input"@, m@),
        RepositoryError::OperationFailed(m) => r matches UsecaseError::Unexpected(n) && n@ == m@,
        RepositoryError::PermissionDenied(m) => r matches UsecaseError::PermissionDenied(n) && n@
            == m@,
    }
}

impl UsecaseError {
    /// Converts a repository error into the use-case error that reports it
    /// (see [`reports`]).
    pub fn from(err: RepositoryError) -> (r: UsecaseError)
        ensures
            reports(err, r),
    {
        match err {
            RepositoryError::NotFound(msg) => UsecaseError::ResourceNotFound(msg),
            RepositoryError::DatabaseError(msg) => UsecaseError::Unexpected(msg),
            RepositoryError::UniqueConstraintViolation(msg) => UsecaseError::Conflict(msg),
            RepositoryError::ForeignKeyConstraintViolation(msg) => UsecaseError::Conflict(msg),
            RepositoryError::InvalidInput(msg) => {
                let mut details: Vec<ValidationErrorDetail> = Vec::new();
                details.push(ValidationErrorDetail { field: String::from_str("input"), message: msg });
                UsecaseError::ValidationFailed(details)
            },
            RepositoryError::OperationFailed(msg) => UsecaseError::Unexpected(msg),
            RepositoryError::PermissionDenied(msg) => UsecaseError::PermissionDenied(msg),
        }
    }

    /// A validation failure with a single detail for `field`.
    pub fn new_validation_error(field: &str, message: &str) -> (r: UsecaseError)
        ensures
            r matches UsecaseError::ValidationFailed(d) && is_single_detail(d@, field@, message@),
    {
        let mut details: Vec<ValidationErrorDetail> = Vec::new();
        details.push(
            ValidationErrorDetail { field: String::from_str(field), message: String::from_str(message) },
        );
        UsecaseError::ValidationFailed(details)
    }

    /// The human readable rendering of the error.
    pub open spec fn display_text(self) -> Seq<char> {
        match self {
            UsecaseError::ValidationFailed(_) => "Validation failed"@,
            UsecaseError::ResourceNotFound(m) => "Resource not found: "@ + m@,
            UsecaseError::PermissionDenied(m) => "Permission denied: "@ + m@,
            UsecaseError::Conflict(m) => "Operation conflict: "@ + m@,
            UsecaseError::ExternalServiceError(m) => "External service error: "@ + m@,
            UsecaseError::Unexpected(m) => "An unexpected error occurred: "@ + m@,
            UsecaseError::InvalidData(m) => "Invalid data: "@ + m@,
        }
    }

    /// Renders the error as text.
    pub fn to_display_string(&self) -> (r: String)
        ensures
            r@ == self.display_text(),
    {
        match self {
            UsecaseError::ValidationFailed(_) => String::from_str("Validation failed"),
            UsecaseError::ResourceNotFound(m) => String::from_str("Resource not found: ").concat(
                m.as_str(),
            ),
            UsecaseError::PermissionDenied(m) => String::from_str("Permission denied: ").concat(
                m.as_str(),
            ),
            UsecaseError::Conflict(m) => String::from_str("Operation conflict: ").concat(
                m.as_str(),
            ),
            UsecaseError::ExternalServiceError(m) => String::from_str(
                "External service error: ",
            ).concat(m.as_str()),
            UsecaseError::Unexpected(m) => String::from_str("An unexpected error occurred: ").concat(
                m.as_str(),
            ),
            UsecaseError::InvalidData(m) => String::from_str("Invalid data: ").concat(m.as_str()),
        }
    }
}

} // verus!
