use apqp::error::AppError as LegacyError;
use apqp::errors::AppError;
use apqp::service::ApiError;

fn all() -> Vec<AppError> {
    vec![
        AppError::NotFound("task:1".into()),
        AppError::Validation("bad".into()),
        AppError::Unauthorized,
        AppError::Forbidden("no".into()),
        AppError::Conflict("dup".into()),
        AppError::Database("down".into()),
        AppError::Kafka("lost".into()),
        AppError::InvalidTransition { from: "open".into(), to: "verified".into() },
        AppError::Serialisation("eof".into()),
        AppError::Internal("oops".into()),
    ]
}

#[test]
fn status_codes() {
    let codes: Vec<u16> = all().iter().map(|e| e.status_code()).collect();
    assert_eq!(codes, vec![404, 422, 401, 403, 409, 500, 500, 422, 500, 500]);
}

#[test]
fn client_errors_are_below_500() {
    for e in all() {
        assert_eq!(e.is_client_error(), e.status_code() < 500);
    }
    assert!(AppError::NotFound("x".into()).is_client_error());
    assert!(!AppError::Database("x".into()).is_client_error());
}

#[test]
fn display_texts() {
    let texts: Vec<String> = all().iter().map(|e| e.to_string()).collect();
    assert_eq!(
        texts,
        vec![
            "not found: task:1",
            "validation error: bad",
            "unauthorized",
            "forbidden: no",
            "conflict: dup",
            "database error: down",
            "kafka error: lost",
            "invalid state transition from open to verified",
            "serialisation error: eof",
            "internal error: oops",
        ]
    );
}

#[test]
fn legacy_display_texts() {
    assert_eq!(LegacyError::NotFound("a".into()).to_string(), "Not found: a");
    assert_eq!(LegacyError::Validation("b".into()).to_string(), "Validation error: b");
    assert_eq!(LegacyError::Database("c".into()).to_string(), "Database error: c");
    assert_eq!(LegacyError::Unauthorized.to_string(), "Unauthorized");
    assert_eq!(LegacyError::Internal("d".into()).to_string(), "Internal error: d");
}

#[test]
fn api_error_reply() {
    let e: ApiError = AppError::Conflict("dup".into()).into();
    assert_eq!(e.status_code(), 409);
    assert_eq!(e.message(), "conflict: dup");
    let e = ApiError::from(AppError::Kafka("x".into()));
    assert_eq!(e.status_code(), 500);
}

#[test]
fn wrapped_errors_keep_their_text() {
    match apqp::errors::db_err("connection refused") {
        AppError::Database(m) => assert_eq!(m, "connection refused"),
        _ => panic!(),
    }
    match apqp::errors::ser_err(42) {
        AppError::Serialisation(m) => assert_eq!(m, "42"),
        _ => panic!(),
    }
}
