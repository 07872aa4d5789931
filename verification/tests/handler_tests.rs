use user_service::dto::{CreateUserRequest, UpdateUserRequest, UserResponse};
use user_service::errors::ErrorBody;
use user_service::handlers::{
    HttpReply, ReplyBody, create_user, delete_user, get_all_users, get_user, health_check,
    update_user,
};
use user_service::store::UserDb;

fn create_req(name: &str, email: &str) -> CreateUserRequest {
    CreateUserRequest { name: name.to_string(), email: email.to_string() }
}

fn expect_user(r: HttpReply) -> UserResponse {
    match r.body {
        ReplyBody::User(u) => u,
        _ => panic!("expected a user body"),
    }
}

fn expect_plain_error(r: &HttpReply) -> (String, String) {
    match &r.body {
        ReplyBody::Error(ErrorBody::Plain(b)) => (b.error.clone(), b.message.clone()),
        _ => panic!("expected a plain error body"),
    }
}

fn expect_validation_fields(r: &HttpReply) -> Vec<(String, String)> {
    match &r.body {
        ReplyBody::Error(ErrorBody::Validation(v)) => {
            assert_eq!(v.error, "VALIDATION_ERROR");
            v.errors.iter().map(|e| (e.field.clone(), e.message.clone())).collect()
        }
        _ => panic!("expected a validation error body"),
    }
}

#[test]
fn create_valid_user_returns_201_with_echo() {
    let mut db = UserDb::new();
    let r = create_user(&mut db, create_req("Alice", "alice@example.com"), 1000);
    assert_eq!(r.status, 201);
    let u = expect_user(r);
    assert_eq!(u.id, 1);
    assert_eq!(u.name, "Alice");
    assert_eq!(u.email, "alice@example.com");
    assert_eq!(u.created_at, "1970-01-01T00:16:40+00:00");
    assert_eq!(u.updated_at, "1970-01-01T00:16:40+00:00");
}

#[test]
fn create_assigns_increasing_ids() {
    let mut db = UserDb::new();
    let first = expect_user(create_user(&mut db, create_req("A", "a@example.com"), 10));
    let second = expect_user(create_user(&mut db, create_req("B", "b@example.com"), 20));
    assert_eq!(first.id, 1);
    assert_eq!(second.id, 2);
}

#[test]
fn create_empty_name_returns_400_listing_name() {
    let mut db = UserDb::new();
    let r = create_user(&mut db, create_req("", "alice@example.com"), 0);
    assert_eq!(r.status, 400);
    let fields = expect_validation_fields(&r);
    assert_eq!(fields.len(), 1);
    assert_eq!(fields[0].0, "name");
    assert_eq!(fields[0].1, "Name must be between 1 and 100 characters");
}

#[test]
fn create_overlong_name_returns_400_listing_name() {
    let mut db = UserDb::new();
    let name = "a".repeat(101);
    let r = create_user(&mut db, create_req(&name, "alice@example.com"), 0);
    assert_eq!(r.status, 400);
    let fields = expect_validation_fields(&r);
    assert_eq!(fields.len(), 1);
    assert_eq!(fields[0].0, "name");
}

#[test]
fn create_name_of_100_chars_is_accepted() {
    let mut db = UserDb::new();
    let name = "a".repeat(100);
    let r = create_user(&mut db, create_req(&name, "alice@example.com"), 0);
    assert_eq!(r.status, 201);
}

#[test]
fn create_malformed_email_returns_400_listing_email() {
    let mut db = UserDb::new();
    let r = create_user(&mut db, create_req("Alice", "not-an-email"), 0);
    assert_eq!(r.status, 400);
    let fields = expect_validation_fields(&r);
    assert_eq!(fields.len(), 1);
    assert_eq!(fields[0].0, "email");
    assert_eq!(fields[0].1, "Invalid email format");
}

#[test]
fn create_bad_name_and_bad_email_lists_both_fields() {
    let mut db = UserDb::new();
    let r = create_user(&mut db, create_req("", "not-an-email"), 0);
    assert_eq!(r.status, 400);
    let fields = expect_validation_fields(&r);
    assert_eq!(fields.len(), 2);
    assert!(fields.iter().any(|(f, _)| f == "name"));
    assert!(fields.iter().any(|(f, m)| f == "email" && m == "Invalid email format"));
}

#[test]
fn create_overlong_email_lists_length_violation() {
    let mut db = UserDb::new();
    let email = format!("{}@example.com", "a".repeat(300));
    let r = create_user(&mut db, create_req("Alice", &email), 0);
    assert_eq!(r.status, 400);
    let fields = expect_validation_fields(&r);
    assert!(fields
        .iter()
        .any(|(f, m)| f == "email" && m == "Email must not exceed 255 characters"));
}

#[test]
fn create_blank_name_returns_bad_request() {
    let mut db = UserDb::new();
    let r = create_user(&mut db, create_req("   ", "alice@example.com"), 0);
    assert_eq!(r.status, 400);
    let (code, message) = expect_plain_error(&r);
    assert_eq!(code, "BAD_REQUEST");
    assert_eq!(message, "Name cannot be empty");
}

#[test]
fn get_missing_id_returns_404() {
    let db = UserDb::new();
    let r = get_user(&db, 999999);
    assert_eq!(r.status, 404);
    let (code, message) = expect_plain_error(&r);
    assert_eq!(code, "NOT_FOUND");
    assert_eq!(message, "Resource not found");
}

#[test]
fn get_existing_user_returns_200() {
    let mut db = UserDb::new();
    let created = expect_user(create_user(&mut db, create_req("Alice", "alice@example.com"), 5));
    let r = get_user(&db, created.id);
    assert_eq!(r.status, 200);
    let fetched = expect_user(r);
    assert_eq!(fetched.id, created.id);
    assert_eq!(fetched.name, "Alice");
    assert_eq!(fetched.email, "alice@example.com");
}

#[test]
fn list_returns_most_recent_first() {
    let mut db = UserDb::new();
    create_user(&mut db, create_req("A", "a@example.com"), 10);
    create_user(&mut db, create_req("B", "b@example.com"), 20);
    create_user(&mut db, create_req("C", "c@example.com"), 30);
    let r = get_all_users(&db);
    assert_eq!(r.status, 200);
    match r.body {
        ReplyBody::Users(list) => {
            let names: Vec<&str> = list.iter().map(|u| u.name.as_str()).collect();
            assert_eq!(names, vec!["C", "B", "A"]);
            assert!(list[0].created_at >= list[1].created_at);
            assert!(list[1].created_at >= list[2].created_at);
        }
        _ => panic!("expected a list body"),
    }
}

#[test]
fn list_on_empty_store_returns_200_and_empty_array() {
    let db = UserDb::new();
    let r = get_all_users(&db);
    assert_eq!(r.status, 200);
    match r.body {
        ReplyBody::Users(list) => assert!(list.is_empty()),
        _ => panic!("expected a list body"),
    }
}

#[test]
fn update_name_only_keeps_email_and_advances_updated_at() {
    let mut db = UserDb::new();
    let created = expect_user(create_user(&mut db, create_req("Alice", "alice@example.com"), 100));
    let req = UpdateUserRequest { name: Some("Alicia".to_string()), email: None };
    let r = update_user(&mut db, created.id, req, 200);
    assert_eq!(r.status, 200);
    let updated = expect_user(r);
    assert_eq!(updated.id, created.id);
    assert_eq!(updated.name, "Alicia");
    assert_eq!(updated.email, "alice@example.com");
    assert_eq!(updated.created_at, created.created_at);
    assert_eq!(updated.updated_at, "1970-01-01T00:03:20+00:00");
    assert!(updated.updated_at > updated.created_at);
}

#[test]
fn update_missing_id_returns_404() {
    let mut db = UserDb::new();
    let req = UpdateUserRequest { name: Some("Alicia".to_string()), email: None };
    let r = update_user(&mut db, 424242, req, 0);
    assert_eq!(r.status, 404);
    let (code, _) = expect_plain_error(&r);
    assert_eq!(code, "NOT_FOUND");
}

#[test]
fn update_with_invalid_email_returns_validation_error() {
    let mut db = UserDb::new();
    let created = expect_user(create_user(&mut db, create_req("Alice", "alice@example.com"), 0));
    let req = UpdateUserRequest { name: None, email: Some("nope".to_string()) };
    let r = update_user(&mut db, created.id, req, 1);
    assert_eq!(r.status, 400);
    let fields = expect_validation_fields(&r);
    assert_eq!(fields.len(), 1);
    assert_eq!(fields[0].0, "email");
}

#[test]
fn update_with_blank_supplied_name_returns_bad_request() {
    let mut db = UserDb::new();
    let created = expect_user(create_user(&mut db, create_req("Alice", "alice@example.com"), 0));
    let req = UpdateUserRequest { name: Some(" ".to_string()), email: None };
    let r = update_user(&mut db, created.id, req, 1);
    assert_eq!(r.status, 400);
    let (code, message) = expect_plain_error(&r);
    assert_eq!(code, "BAD_REQUEST");
    assert_eq!(message, "Name cannot be empty");
}

#[test]
fn update_with_no_fields_refreshes_only_updated_at() {
    let mut db = UserDb::new();
    let created = expect_user(create_user(&mut db, create_req("Alice", "alice@example.com"), 100));
    let req = UpdateUserRequest { name: None, email: None };
    let r = update_user(&mut db, created.id, req, 300);
    assert_eq!(r.status, 200);
    let updated = expect_user(r);
    assert_eq!(updated.name, "Alice");
    assert_eq!(updated.email, "alice@example.com");
    assert_eq!(updated.created_at, created.created_at);
    assert_ne!(updated.updated_at, created.updated_at);
}

#[test]
fn delete_then_get_returns_404() {
    let mut db = UserDb::new();
    let created = expect_user(create_user(&mut db, create_req("Alice", "alice@example.com"), 0));
    let d = delete_user(&mut db, created.id);
    assert_eq!(d.status, 204);
    assert!(matches!(d.body, ReplyBody::Empty));
    let g = get_user(&db, created.id);
    assert_eq!(g.status, 404);
}

#[test]
fn delete_missing_id_returns_404_with_the_id_in_the_message() {
    let mut db = UserDb::new();
    let r = delete_user(&mut db, 999);
    assert_eq!(r.status, 404);
    let (code, message) = expect_plain_error(&r);
    assert_eq!(code, "NOT_FOUND");
    assert_eq!(message, "User with id 999 not found");
}

#[test]
fn health_check_always_returns_200() {
    let r = health_check();
    assert_eq!(r.status, 200);
    match r.body {
        ReplyBody::Health(h) => {
            assert_eq!(h.status, "ok");
            assert_eq!(h.message, "Service is running");
        }
        _ => panic!("expected a health body"),
    }
}

#[test]
fn repeated_get_without_writes_returns_identical_content() {
    let mut db = UserDb::new();
    let created = expect_user(create_user(&mut db, create_req("Alice", "alice@example.com"), 7));
    let first = expect_user(get_user(&db, created.id));
    let second = expect_user(get_user(&db, created.id));
    assert_eq!(first.id, second.id);
    assert_eq!(first.name, second.name);
    assert_eq!(first.email, second.email);
    assert_eq!(first.created_at, second.created_at);
    assert_eq!(first.updated_at, second.updated_at);
}

#[test]
fn repeated_list_without_writes_returns_identical_content() {
    let mut db = UserDb::new();
    create_user(&mut db, create_req("A", "a@example.com"), 1);
    create_user(&mut db, create_req("B", "b@example.com"), 2);
    let collect = |r: HttpReply| -> Vec<(i64, String, String, String, String)> {
        match r.body {
            ReplyBody::Users(list) => list
                .into_iter()
                .map(|u| (u.id, u.name, u.email, u.created_at, u.updated_at))
                .collect(),
            _ => panic!("expected a list body"),
        }
    };
    let first = collect(get_all_users(&db));
    let second = collect(get_all_users(&db));
    assert_eq!(first, second);
}

#[test]
fn ids_are_not_reused_after_delete() {
    let mut db = UserDb::new();
    let first = expect_user(create_user(&mut db, create_req("A", "a@example.com"), 1));
    delete_user(&mut db, first.id);
    let second = expect_user(create_user(&mut db, create_req("B", "b@example.com"), 2));
    assert_ne!(second.id, first.id);
    assert_eq!(second.id, 2);
}
