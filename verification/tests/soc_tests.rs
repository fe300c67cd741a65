use light_house::soc::soc_repository::{ErrorKind, RepositoryError};
use light_house::soc::soc_usecase;
use light_house::soc::soc_usercase;
use light_house::soc::soc_usecase::UsecaseError as U;

fn s(t: &str) -> String {
    t.to_string()
}

#[test]
fn usecase_error_reports_each_repository_error() {
    assert_eq!(U::from(RepositoryError::NotFound(s("a"))), U::ResourceNotFound(s("a")));
    assert_eq!(U::from(RepositoryError::DatabaseError(s("b"))), U::Unexpected(s("b")));
    assert_eq!(U::from(RepositoryError::UniqueConstraintViolation(s("c"))), U::Conflict(s("c")));
    assert_eq!(U::from(RepositoryError::ForeignKeyConstraintViolation(s("d"))), U::Conflict(s("d")));
    assert_eq!(U::from(RepositoryError::OperationFailed(s("e"))), U::Unexpected(s("e")));
    assert_eq!(U::from(RepositoryError::PermissionDenied(s("f"))), U::PermissionDenied(s("f")));
    match U::from(RepositoryError::InvalidInput(s("bad amount"))) {
        U::ValidationFailed(details) => {
            assert_eq!(details.len(), 1);
            assert_eq!(details[0].field, "input");
            assert_eq!(details[0].message, "bad amount");
        }
        other => panic!("unexpected {:?}", other),
    }
}

#[test]
fn new_validation_error_has_one_detail() {
    match soc_usecase::UsecaseError::new_validation_error("email", "must not be empty") {
        soc_usecase::UsecaseError::ValidationFailed(d) => {
            assert_eq!(d.len(), 1);
            assert_eq!(d[0].field, "email");
            assert_eq!(d[0].message, "must not be empty");
        }
        other => panic!("unexpected {:?}", other),
    }
    match soc_usercase::UsecaseError::new_validation_error("name", "too short") {
        soc_usercase::UsecaseError::ValidationFailed(d) => {
            assert_eq!(d.len(), 1);
            assert_eq!(d[0].field, "name");
            assert_eq!(d[0].message, "too short");
        }
        other => panic!("unexpected {:?}", other),
    }
}

#[test]
fn usercase_error_keeps_repository_error() {
    let e = soc_usercase::UsecaseError::from(RepositoryError::NotFound(s("x")));
    assert_eq!(e, soc_usercase::UsecaseError::RepositoryError(RepositoryError::NotFound(s("x"))));
    assert_eq!(e.to_display_string(), "Repository error: Resource not found: x");
}

#[test]
fn errors_render_as_text() {
    assert_eq!(RepositoryError::NotFound(s("x")).to_display_string(), "Resource not found: x");
    assert_eq!(RepositoryError::DatabaseError(s("x")).to_display_string(), "Database error: x");
    assert_eq!(
        RepositoryError::UniqueConstraintViolation(s("x")).to_display_string(),
        "Unique constraint violation: x"
    );
    assert_eq!(
        RepositoryError::ForeignKeyConstraintViolation(s("x")).to_display_string(),
        "Foreign key constraint violation: x"
    );
    assert_eq!(
        RepositoryError::InvalidInput(s("x")).to_display_string(),
        "Invalid input for repository operation: x"
    );
    assert_eq!(RepositoryError::OperationFailed(s("x")).to_display_string(), "Operation failed: x");
    assert_eq!(RepositoryError::PermissionDenied(s("x")).to_display_string(), "Permission denied: x");
    assert_eq!(soc_usecase::UsecaseError::InvalidData(s("y")).to_display_string(), "Invalid data: y");
    assert_eq!(
        soc_usecase::UsecaseError::Unexpected(s("y")).to_display_string(),
        "An unexpected error occurred: y"
    );
    assert_eq!(
        soc_usecase::UsecaseError::ValidationFailed(vec![]).to_display_string(),
        "Validation failed"
    );
}

#[test]
fn repository_error_from_kind_and_database_message() {
    assert_eq!(RepositoryError::new(ErrorKind::OperationFailed, s("m")), RepositoryError::OperationFailed(s("m")));
    assert_eq!(RepositoryError::new(ErrorKind::PermissionDenied, s("m")), RepositoryError::PermissionDenied(s("m")));
    assert_eq!(
        RepositoryError::from_database_message(s("connection refused")),
        RepositoryError::DatabaseError(s("connection refused"))
    );
}
