use vstd::prelude::*;
use crate::soc::soc_repository::RepositoryError;

verus! {

/// One failed validation: the offending field and why it failed.
#[derive(Debug, PartialEq, Eq, Clone)]
pub struct ValidationErrorDetail {
    pub field: String,
    pub message: String,
}

/// Errors reported by the use-case layer, keeping repository errors whole.
#[derive(Debug, PartialEq, Eq, Clone)]
pub enum UsecaseError {
    ValidationFailed(Vec<ValidationErrorDetail>),
    ResourceNotFound(String),
    PermissionDenied(String),
    Conflict(String),
    ExternalServiceError(String),
    Unexpected(String),
    RepositoryError(RepositoryError),
}

impl UsecaseError {
    /// Wraps a repository error unchanged.
    pub fn from(err: RepositoryError) -> (r: UsecaseError)
        ensures
            r == UsecaseError::RepositoryError(err),
    {
        UsecaseError::RepositoryError(err)
    }

    /// A validation failure with a single detail for `field`.
    pub fn new_validation_error(field: &str, message: &str) -> (r: UsecaseError)
        ensures
            r matches UsecaseError::ValidationFailed(d) && d@.len() == 1 && d@[0].field@ == field@
                && d@[0].message@ == message@,
    {
        let mut details: Vec<ValidationErrorDetail> = Vec::new();
        details.push(
            ValidationErrorDetail { field: String::from_str(field), message: String::from_str(message) },
        );
        UsecaseError::ValidationFailed(details)
    }

    /// The human readable rendering of the error.
    pub open spec fn display_text(self) -> Seq<char> {
        match self {
            UsecaseError::ValidationFailed(_) => "Validation failed"@,
            UsecaseError::ResourceNotFound(m) => "Resource not found: "@ + m@,
            UsecaseError::PermissionDenied(m) => "Permission denied: "@ + m@,
            UsecaseError::Conflict(m) => "Operation conflict: "@ + m@,
            UsecaseError::ExternalServiceError(m) => "External service error: "@ + m@,
            UsecaseError::Unexpected(m) => "An unexpected error occurred: "@ + m@,
            UsecaseError::RepositoryError(e) => "Repository error: "@ + e.display_text(),
        }
    }

    /// Renders the error as text.
    pub fn to_display_string(&self) -> (r: String)
        ensures
            r@ == self.display_text(),
    {
        match self {
            UsecaseError::ValidationFailed(_) => String::from_str("Validation failed"),
            UsecaseError::ResourceNotFound(m) => String::from_str("Resource not found: ").concat(
                m.as_str(),
            ),
            UsecaseError::PermissionDenied(m) => String::from_str("Permission denied: ").concat(
                m.as_str(),
            ),
            UsecaseError::Conflict(m) => String::from_str("Operation conflict: ").concat(
                m.as_str(),
            ),
            UsecaseError::ExternalServiceError(m) => String::from_str(
                "External service error: ",
            ).concat(m.as_str()),
            UsecaseError::Unexpected(m) => String::from_str("An unexpected error occurred: ").concat(
                m.as_str(),
            ),
            UsecaseError::RepositoryError(e) => {
                let inner = e.to_display_string();
                String::from_str("Repository error: ").concat(inner.as_str())
            },
        }
    }
}

} // verus!
