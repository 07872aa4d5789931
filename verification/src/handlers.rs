//! Handler logic: request-shape validation, service invocation, and the
//! mapping of every outcome to the documented HTTP status and body.

use vstd::prelude::*;
use crate::dto::{CreateUserRequest, UpdateUserRequest, UserResponse, responses_view};
use crate::errors::{AppError, ErrorBody, field_errors_view};
use crate::model::{TS_MAX, UserView};
use crate::service::{UserService, delete_not_found_message, response_of};
use crate::store::{UserDb, contains_id, created_user, eff_time, idx_of, updated_user};
use crate::validation::{
    create_request_errors, is_blank, update_request_errors, validate_create, validate_update,
};

verus! {

/// Body of `GET /health`.
pub struct HealthResponse {
    pub status: String,
    pub message: String,
}

/// Every body a handler can answer with.
pub enum ReplyBody {
    User(UserResponse),
    Users(Vec<UserResponse>),
    Health(HealthResponse),
    Empty,
    Error(ErrorBody),
}

/// A handler's answer: the HTTP status and the body to serialize.
pub struct HttpReply {
    pub status: u16,
    pub body: ReplyBody,
}

#[verifier::ext_equal]
pub struct HealthResponseView {
    pub status: Seq<char>,
    pub message: Seq<char>,
}

impl View for HealthResponse {
    type V = HealthResponseView;

    open spec fn view(&self) -> HealthResponseView {
        HealthResponseView { status: self.status@, message: self.message@ }
    }
}

#[verifier::ext_equal]
pub enum ReplyBodyView {
    User(crate::dto::UserResponseView),
    Users(Seq<crate::dto::UserResponseView>),
    Health(HealthResponseView),
    Empty,
    Error(crate::errors::ErrorBodyView),
}

impl View for ReplyBody {
    type V = ReplyBodyView;

    open spec fn view(&self) -> ReplyBodyView {
        match self {
            ReplyBody::User(u) => ReplyBodyView::User(u@),
            ReplyBody::Users(list) => ReplyBodyView::Users(responses_view(list@)),
            ReplyBody::Health(h) => ReplyBodyView::Health(h@),
            ReplyBody::Empty => ReplyBodyView::Empty,
            ReplyBody::Error(e) => ReplyBodyView::Error(e@),
        }
    }
}

#[verifier::ext_equal]
pub struct HttpReplyView {
    pub status: u16,
    pub body: ReplyBodyView,
}

impl View for HttpReply {
    type V = HttpReplyView;

    open spec fn view(&self) -> HttpReplyView {
        HttpReplyView { status: self.status, body: self.body@ }
    }
}

/// Everything `GET /api/users/{id}` promises about its reply: 200 with the
/// stored row in response shape when the id is present, otherwise 404 with
/// the NOT_FOUND body. The reply is a function of the store's rows and the
/// id alone.
pub open spec fn get_user_contract(users: Seq<UserView>, id: int, r: HttpReplyView) -> bool {
    if contains_id(users, id) {
        &&& r.status == 200
        &&& r.body == ReplyBodyView::User(response_of(users[idx_of(users, id)]))
    } else {
        &&& r.status == 404
        &&& r.body == ReplyBodyView::Error(
            crate::errors::ErrorBodyView::Plain(
                crate::errors::ErrorResponseView {
                    error: "NOT_FOUND"@,
                    message: "Resource not found"@,
                },
            ),
        )
    }
}

/// Everything `GET /api/users` promises about its reply: always 200, with
/// every stored row in response shape, most recently created first. The
/// reply is a function of the store's rows alone.
pub open spec fn get_all_users_contract(users: Seq<UserView>, r: HttpReplyView) -> bool {
    &&& r.status == 200
    &&& r.body == ReplyBodyView::Users(users.reverse().map_values(|u: UserView| response_of(u)))
}

fn error_reply(e: AppError) -> (r: HttpReply)
    ensures
        r.status == e.spec_status_code(),
        e matches AppError::ValidationError(errs) ==> ({
            &&& r.body matches ReplyBody::Error(ErrorBody::Validation(v))
            &&& v.error@ == "VALIDATION_ERROR"@
            &&& field_errors_view(v.errors@) == field_errors_view(errs@)
        }),
        !(e is ValidationError) ==> ({
            &&& r.body matches ReplyBody::Error(ErrorBody::Plain(b))
            &&& b.error@ == e.spec_code()
            &&& b.message@ == e.spec_message()
        }),
{
    let (status, body) = e.error_response();
    HttpReply { status, body: ReplyBody::Error(body) }
}

/// `GET /health`: always 200 with the fixed body, whatever the store's
/// state.
pub fn health_check() -> (r: HttpReply)
    ensures
        r.status == 200,
        r.body matches ReplyBody::Health(h) && h.status@ == "ok"@ && h.message@
            == "Service is running"@,
{
    HttpReply {
        status: 200,
        body: ReplyBody::Health(
            HealthResponse { status: "ok".to_owned(), message: "Service is running".to_owned() },
        ),
    }
}

/// `POST /api/users`: shape validation, business rules, then insertion;
/// 201 with the created user on success.
pub fn create_user(db: &mut UserDb, request: CreateUserRequest, now: i64) -> (r: HttpReply)
    requires
        old(db).wf(),
        0 <= now < TS_MAX,
    ensures
        final(db).wf(),
        create_request_errors(request.name@, request.email@).len() != 0 ==> ({
            &&& r.status == 400
            &&& r.body matches ReplyBody::Error(ErrorBody::Validation(v))
            &&& v.error@ == "VALIDATION_ERROR"@
            &&& field_errors_view(v.errors@) == create_request_errors(request.name@, request.email@)
            &&& final(db)@ == old(db)@
        }),
        create_request_errors(request.name@, request.email@).len() == 0 && is_blank(request.name@)
            ==> ({
            &&& r.status == 400
            &&& r.body matches ReplyBody::Error(ErrorBody::Plain(b))
            &&& b.error@ == "BAD_REQUEST"@
            &&& b.message@ == "Name cannot be empty"@
            &&& final(db)@ == old(db)@
        }),
        create_request_errors(request.name@, request.email@).len() == 0 && !is_blank(request.name@)
            && is_blank(request.email@) ==> ({
            &&& r.status == 400
            &&& r.body matches ReplyBody::Error(ErrorBody::Plain(b))
            &&& b.error@ == "BAD_REQUEST"@
            &&& b.message@ == "Email cannot be empty"@
            &&& final(db)@ == old(db)@
        }),
        create_request_errors(request.name@, request.email@).len() == 0 && !is_blank(request.name@)
            && !is_blank(request.email@) && old(db)@.next_id == i64::MAX as int ==> ({
            &&& r.status == 500
            &&& r.body matches ReplyBody::Error(ErrorBody::Plain(b))
            &&& b.error@ == "DATABASE_ERROR"@
            &&& b.message@ == "user id space exhausted"@
            &&& final(db)@ == old(db)@
        }),
        create_request_errors(request.name@, request.email@).len() == 0 && !is_blank(request.name@)
            && !is_blank(request.email@) && old(db)@.next_id < i64::MAX as int ==> ({
            let u = created_user(old(db)@, request.name@, request.email@, now as int);
            &&& r.status == 201
            &&& r.body matches ReplyBody::User(resp) && resp@ == response_of(u)
            &&& final(db)@.users == old(db)@.users.push(u)
            &&& final(db)@.next_id == old(db)@.next_id + 1
            &&& final(db)@.clock == eff_time(now as int, old(db)@.clock)
        }),
{
    let errs = validate_create(&request);
    if errs.len() > 0 {
        return error_reply(AppError::ValidationError(errs));
    }
    match UserService::create_user(db, request, now) {
        Ok(resp) => HttpReply { status: 201, body: ReplyBody::User(resp) },
        Err(e) => error_reply(e),
    }
}

/// `GET /api/users/{id}`: 200 with the user, or 404.
pub fn get_user(db: &UserDb, id: i64) -> (r: HttpReply)
    requires
        db.wf(),
    ensures
        contains_id(db@.users, id as int) ==> ({
            &&& r.status == 200
            &&& r.body matches ReplyBody::User(resp) && resp@ == response_of(
                db@.users[idx_of(db@.users, id as int)],
            )
        }),
        !contains_id(db@.users, id as int) ==> ({
            &&& r.status == 404
            &&& r.body matches ReplyBody::Error(ErrorBody::Plain(b))
            &&& b.error@ == "NOT_FOUND"@
            &&& b.message@ == "Resource not found"@
        }),
        get_user_contract(db@.users, id as int, r@),
{
    let r = match UserService::get_user(db, id) {
        Ok(resp) => HttpReply { status: 200, body: ReplyBody::User(resp) },
        Err(e) => error_reply(e),
    };
    proof {
        if !contains_id(db@.users, id as int) {
            assert(r@.body matches ReplyBodyView::Error(crate::errors::ErrorBodyView::Plain(b))
                ==> b =~= (crate::errors::ErrorResponseView {
                error: "NOT_FOUND"@,
                message: "Resource not found"@,
            }));
        }
    }
    r
}

/// `GET /api/users`: 200 with every user, most recently created first; an
/// empty store gives 200 with an empty array.
pub fn get_all_users(db: &UserDb) -> (r: HttpReply)
    requires
        db.wf(),
    ensures
        r.status == 200,
        r.body matches ReplyBody::Users(list) && responses_view(list@)
            == db@.users.reverse().map_values(|u: UserView| response_of(u)),
        get_all_users_contract(db@.users, r@),
{
    match UserService::get_all_users(db) {
        Ok(list) => HttpReply { status: 200, body: ReplyBody::Users(list) },
        Err(e) => error_reply(e),
    }
}

/// `PUT /api/users/{id}`: shape validation, business rules, then a partial
/// update; 200 with the refreshed user on success.
pub fn update_user(db: &mut UserDb, id: i64, request: UpdateUserRequest, now: i64) -> (r:
    HttpReply)
    requires
        old(db).wf(),
        0 <= now < TS_MAX,
    ensures
        final(db).wf(),
        update_request_errors(request@.name, request@.email).len() != 0 ==> ({
            &&& r.status == 400
            &&& r.body matches ReplyBody::Error(ErrorBody::Validation(v))
            &&& v.error@ == "VALIDATION_ERROR"@
            &&& field_errors_view(v.errors@) == update_request_errors(request@.name, request@.email)
            &&& final(db)@ == old(db)@
        }),
        update_request_errors(request@.name, request@.email).len() == 0 && (
        request@.name matches Some(n) && is_blank(n)) ==> ({
            &&& r.status == 400
            &&& r.body matches ReplyBody::Error(ErrorBody::Plain(b))
            &&& b.error@ == "BAD_REQUEST"@
            &&& b.message@ == "Name cannot be empty"@
            &&& final(db)@ == old(db)@
        }),
        update_request_errors(request@.name, request@.email).len() == 0 && !(
        request@.name matches Some(n) && is_blank(n)) && (request@.email matches Some(e)
            && is_blank(e)) ==> ({
            &&& r.status == 400
            &&& r.body matches ReplyBody::Error(ErrorBody::Plain(b))
            &&& b.error@ == "BAD_REQUEST"@
            &&& b.message@ == "Email cannot be empty"@
            &&& final(db)@ == old(db)@
        }),
        update_request_errors(request@.name, request@.email).len() == 0 && !(
        request@.name matches Some(n) && is_blank(n)) && !(request@.email matches Some(e)
            && is_blank(e)) && !contains_id(old(db)@.users, id as int) ==> ({
            &&& r.status == 404
            &&& r.body matches ReplyBody::Error(ErrorBody::Plain(b))
            &&& b.error@ == "NOT_FOUND"@
            &&& b.message@ == "Resource not found"@
            &&& final(db)@ == old(db)@
        }),
        update_request_errors(request@.name, request@.email).len() == 0 && !(
        request@.name matches Some(n) && is_blank(n)) && !(request@.email matches Some(e)
            && is_blank(e)) && contains_id(old(db)@.users, id as int) ==> ({
            let k = idx_of(old(db)@.users, id as int);
            let ts = eff_time(now as int, old(db)@.clock);
            let u = updated_user(old(db)@.users[k], request@.name, request@.email, ts);
            &&& r.status == 200
            &&& r.body matches ReplyBody::User(resp) && resp@ == response_of(u)
            &&& final(db)@.users == old(db)@.users.update(k, u)
            &&& final(db)@.next_id == old(db)@.next_id
            &&& final(db)@.clock == ts
        }),
{
    let errs = validate_update(&request);
    if errs.len() > 0 {
        return error_reply(AppError::ValidationError(errs));
    }
    match UserService::update_user(db, id, request, now) {
        Ok(resp) => HttpReply { status: 200, body: ReplyBody::User(resp) },
        Err(e) => error_reply(e),
    }
}

/// `DELETE /api/users/{id}`: 204 with no body, or 404 when the id matched
/// nothing.
pub fn delete_user(db: &mut UserDb, id: i64) -> (r: HttpReply)
    requires
        old(db).wf(),
    ensures
        final(db).wf(),
        contains_id(old(db)@.users, id as int) ==> ({
            &&& r.status == 204
            &&& r.body is Empty
            &&& final(db)@.users == old(db)@.users.remove(idx_of(old(db)@.users, id as int))
            &&& final(db)@.next_id == old(db)@.next_id
            &&& final(db)@.clock == old(db)@.clock
        }),
        !contains_id(old(db)@.users, id as int) ==> ({
            &&& r.status == 404
            &&& r.body matches ReplyBody::Error(ErrorBody::Plain(b))
            &&& b.error@ == "NOT_FOUND"@
            &&& b.message@ == delete_not_found_message(id as int)
            &&& final(db)@ == old(db)@
        }),
{
    match UserService::delete_user(db, id) {
        Ok(_) => HttpReply { status: 204, body: ReplyBody::Empty },
        Err(e) => error_reply(e),
    }
}

} // verus!
