use tokimo_app_image_cortex::error::AppError;

#[test]
fn status_codes() {
    assert_eq!(AppError::NotFound("x".into()).status_code(), 404);
    assert_eq!(AppError::BadRequest("x".into()).status_code(), 400);
    assert_eq!(AppError::Internal("x".into()).status_code(), 500);
    assert_eq!(AppError::Database(sea_orm::DbErr::Custom("boom".into())).status_code(), 500);
}

#[test]
fn response_messages_hide_database_errors() {
    assert_eq!(AppError::NotFound("no file".into()).response_message(), "no file");
    assert_eq!(AppError::BadRequest("bad".into()).response_message(), "bad");
    assert_eq!(AppError::Internal("oops".into()).response_message(), "oops");
    let db = AppError::Database(sea_orm::DbErr::Custom("secret table".into()));
    assert_eq!(db.response_message(), "Internal database error");
}

#[test]
fn describe_names_the_kind() {
    assert_eq!(AppError::NotFound("a".into()).describe(), "not found: a");
    assert_eq!(AppError::BadRequest("b".into()).describe(), "bad request: b");
    assert_eq!(AppError::Internal("c".into()).describe(), "internal: c");
    let err = sea_orm::DbErr::Custom("d".into());
    let text = format!("database: {err}");
    assert_eq!(AppError::Database(err).describe(), text);
}

#[test]
fn json_errors_are_internal() {
    let err = serde_json::from_str::<serde_json::Value>("{").unwrap_err();
    let expected = format!("JSON error: {err}");
    match AppError::from_json_error(&err) {
        AppError::Internal(m) => assert_eq!(m, expected),
        other => panic!("unexpected {other:?}"),
    }
}

#[test]
fn database_errors_convert() {
    let e: AppError = sea_orm::DbErr::Custom("x".into()).into();
    assert!(matches!(e, AppError::Database(_)));
}
