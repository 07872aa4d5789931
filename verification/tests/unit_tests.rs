use user_service::dto::{CreateUserRequest, UpdateUserRequest};
use user_service::errors::{AppError, ErrorBody, FieldError, StoreError};
use user_service::model::User;
use user_service::numfmt::append_i64;
use user_service::service::UserService;
use user_service::store::UserDb;
use user_service::validation::{str_is_blank, validate_create, validate_update};

#[test]
fn append_i64_renders_zero_positive_and_negative() {
    let mut s = String::new();
    append_i64(&mut s, 0);
    assert_eq!(s, "0");
    let mut s = String::new();
    append_i64(&mut s, 12345);
    assert_eq!(s, "12345");
    let mut s = String::new();
    append_i64(&mut s, -7);
    assert_eq!(s, "-7");
    let mut s = String::new();
    append_i64(&mut s, i64::MIN);
    assert_eq!(s, "-9223372036854775808");
    let mut s = String::new();
    append_i64(&mut s, i64::MAX);
    assert_eq!(s, "9223372036854775807");
}

#[test]
fn blank_detection_follows_trimming() {
    assert!(str_is_blank(""));
    assert!(str_is_blank("   "));
    assert!(str_is_blank(" \t\r\n"));
    assert!(str_is_blank("\u{a0}\u{2003}"));
    assert!(!str_is_blank(" a "));
    assert!(!str_is_blank("x"));
}

#[test]
fn validate_create_accepts_a_valid_request() {
    let req = CreateUserRequest {
        name: "Alice".to_string(),
        email: "alice@example.com".to_string(),
    };
    assert!(validate_create(&req).is_empty());
}

#[test]
fn validate_create_reports_all_violations_together() {
    let req = CreateUserRequest { name: "".to_string(), email: "bad".to_string() };
    let errs = validate_create(&req);
    let fields: Vec<&str> = errs.iter().map(|e| e.field.as_str()).collect();
    assert_eq!(fields, vec!["name", "email"]);
}

#[test]
fn validate_update_skips_omitted_fields() {
    let req = UpdateUserRequest { name: None, email: None };
    assert!(validate_update(&req).is_empty());
    let req = UpdateUserRequest { name: Some("".to_string()), email: None };
    let errs = validate_update(&req);
    assert_eq!(errs.len(), 1);
    assert_eq!(errs[0].field, "name");
    assert_eq!(errs[0].message, "Name must be between 1 and 100 characters");
}

#[test]
fn status_codes_follow_the_taxonomy() {
    assert_eq!(AppError::DatabaseError("x".to_string()).status_code(), 500);
    assert_eq!(AppError::NotFound("x".to_string()).status_code(), 404);
    assert_eq!(AppError::BadRequest("x".to_string()).status_code(), 400);
    assert_eq!(AppError::ValidationError(Vec::new()).status_code(), 400);
    assert_eq!(AppError::InternalServerError("x".to_string()).status_code(), 500);
}

#[test]
fn error_response_uses_the_fixed_codes() {
    let (status, body) = AppError::DatabaseError("boom".to_string()).error_response();
    assert_eq!(status, 500);
    match body {
        ErrorBody::Plain(b) => {
            assert_eq!(b.error, "DATABASE_ERROR");
            assert_eq!(b.message, "boom");
        }
        _ => panic!("expected the plain shape"),
    }
    let (status, body) = AppError::InternalServerError("odd".to_string()).error_response();
    assert_eq!(status, 500);
    match body {
        ErrorBody::Plain(b) => assert_eq!(b.error, "INTERNAL_SERVER_ERROR"),
        _ => panic!("expected the plain shape"),
    }
    let (status, body) =
        AppError::ValidationError(vec![FieldError::new("name", "msg")]).error_response();
    assert_eq!(status, 400);
    match body {
        ErrorBody::Validation(v) => {
            assert_eq!(v.error, "VALIDATION_ERROR");
            assert_eq!(v.errors.len(), 1);
            assert_eq!(v.errors[0].field, "name");
            assert_eq!(v.errors[0].message, "msg");
        }
        _ => panic!("expected the validation shape"),
    }
}

#[test]
fn message_string_prefixes_the_kind() {
    assert_eq!(
        AppError::DatabaseError("down".to_string()).message_string(),
        "Database error: down"
    );
    assert_eq!(AppError::NotFound("gone".to_string()).message_string(), "Not found: gone");
    assert_eq!(AppError::BadRequest("no".to_string()).message_string(), "Bad request: no");
    assert_eq!(
        AppError::InternalServerError("?".to_string()).message_string(),
        "Internal server error: ?"
    );
}

#[test]
fn from_store_reclassifies_no_rows_as_not_found() {
    match AppError::from_store(StoreError::NoRows) {
        AppError::NotFound(m) => assert_eq!(m, "Resource not found"),
        _ => panic!("expected NotFound"),
    }
    match AppError::from_store(StoreError::Failure("io".to_string())) {
        AppError::DatabaseError(m) => assert_eq!(m, "io"),
        _ => panic!("expected DatabaseError"),
    }
}

#[test]
fn store_clock_never_runs_backwards() {
    let mut db = UserDb::new();
    let created = db.create_user("Alice", "alice@example.com", 100).unwrap();
    assert_eq!(created.created_at, 100);
    let updated = db.update_user(created.id, Some("Alicia"), None, 50).unwrap();
    assert_eq!(updated.updated_at, 100);
    assert_eq!(updated.created_at, 100);
}

#[test]
fn store_delete_reports_affected_rows() {
    let mut db = UserDb::new();
    let created = db.create_user("Alice", "alice@example.com", 0).unwrap();
    assert_eq!(db.delete_user(created.id), 1);
    assert_eq!(db.delete_user(created.id), 0);
}

#[test]
fn store_get_reports_no_rows_for_missing_id() {
    let db = UserDb::new();
    assert!(matches!(db.get_user_by_id(1), Err(StoreError::NoRows)));
}

#[test]
fn service_delete_names_the_missing_id() {
    let mut db = UserDb::new();
    match UserService::delete_user(&mut db, -5) {
        Err(AppError::NotFound(m)) => assert_eq!(m, "User with id -5 not found"),
        _ => panic!("expected NotFound"),
    }
}

#[test]
fn service_create_rejects_blank_email() {
    let mut db = UserDb::new();
    let req = CreateUserRequest { name: "Alice".to_string(), email: " ".to_string() };
    match UserService::create_user(&mut db, req, 0) {
        Err(AppError::BadRequest(m)) => assert_eq!(m, "Email cannot be empty"),
        _ => panic!("expected BadRequest"),
    }
}

#[test]
fn user_to_response_renders_rfc3339_timestamps() {
    let user = User {
        id: 1,
        name: "Alice".to_string(),
        email: "alice@example.com".to_string(),
        created_at: 0,
        updated_at: 1000,
    };
    let resp = UserService::user_to_response(user);
    assert_eq!(resp.created_at, "1970-01-01T00:00:00+00:00");
    assert_eq!(resp.updated_at, "1970-01-01T00:16:40+00:00");
}
