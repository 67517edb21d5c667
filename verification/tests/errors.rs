use sea_orm::DbErr;
use user_service::error::{CoreError, Error, ErrorKind};
use user_service::local::error::{AsCoreError, Observed};

#[test]
fn core_error_is_compared_by_kind_and_message() {
    let a = CoreError::UnknownError(String::from("test error"));
    assert_eq!(a, CoreError::UnknownError(String::from("test error")));
    assert_ne!(a, CoreError::UnknownError(String::from("other")));
    assert_ne!(a, CoreError::DataError(String::from("test error")));
    assert_eq!(a.clone(), a);
    assert_eq!(a.to_string(), "test error");
    assert_eq!(a.kind(), ErrorKind::Unknown);
}

#[test]
fn record_not_found_is_classified_as_resource_not_found() {
    let e = AsCoreError::from(DbErr::RecordNotFound(String::from("no such user")));
    assert_eq!(
        e.get_core_error(),
        CoreError::ResourceNotFound(String::from("no such user"))
    );
}

#[test]
fn unmatched_backend_failure_keeps_its_text() {
    let e = AsCoreError::from(DbErr::Custom(String::from("boom")));
    assert_eq!(
        e.get_core_error(),
        CoreError::UnknownError(String::from("Custom Error: boom"))
    );
}

#[test]
fn constraint_violation_is_a_data_error() {
    let e = AsCoreError::classify(Observed {
        constraint: Some(String::from("Unique Constraint Violated: email")),
        missing: None,
        text: String::from("Execution Error: email"),
    });
    assert_eq!(
        e.get_core_error(),
        CoreError::DataError(String::from("Unique Constraint Violated: email"))
    );
}

#[test]
fn missing_record_keeps_the_text_that_came_with_it() {
    let e = AsCoreError::classify(Observed {
        constraint: None,
        missing: Some(String::from("no such user")),
        text: String::from("RecordNotFound Error: no such user"),
    });
    assert_eq!(e.get_core_error(), CoreError::ResourceNotFound(String::from("no such user")));
}

#[test]
fn anything_else_is_unknown_with_the_text_of_the_backend() {
    let e = AsCoreError::classify(Observed {
        constraint: None,
        missing: None,
        text: String::from("Connection Error: refused"),
    });
    assert_eq!(e.get_core_error(), CoreError::UnknownError(String::from("Connection Error: refused")));
}

#[test]
fn constraint_comes_before_anything_else() {
    let e = AsCoreError::classify(Observed {
        constraint: Some(String::from("c")),
        missing: Some(String::from("m")),
        text: String::from("t"),
    });
    assert_eq!(e.get_core_error(), CoreError::DataError(String::from("c")));
}

#[test]
fn not_found_says_record_not_found() {
    assert_eq!(
        AsCoreError::not_found().get_core_error(),
        CoreError::ResourceNotFound(String::from("Record not found !"))
    );
}

#[test]
fn text_that_is_no_identifier_is_a_data_error_in_the_words_of_the_parser() {
    let failure = uuid::Uuid::parse_str("67e5504410b1426f9247bb680e5fe0c").unwrap_err();
    let words = failure.to_string();
    assert_eq!(AsCoreError::from(failure).get_core_error(), CoreError::DataError(words));
}

#[test]
fn each_kind_has_its_variant() {
    let cases = [
        (CoreError::DataError(String::from("m")), ErrorKind::Data),
        (CoreError::ResourceNotFound(String::from("m")), ErrorKind::NotFound),
        (CoreError::OperationNotAuthorized(String::from("m")), ErrorKind::NotAuthorized),
        (CoreError::OperationForbidden(String::from("m")), ErrorKind::Forbidden),
        (CoreError::UnknownError(String::from("m")), ErrorKind::Unknown),
    ];
    for (error, kind) in cases {
        assert_eq!(error.kind(), kind);
        assert_eq!(error.message(), "m");
        assert_eq!(error.to_string(), "m");
    }
}
