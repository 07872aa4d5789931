//! The service layer: business-rule validation on top of the store, and the
//! translation of stored rows into response shapes.

use vstd::prelude::*;
use vstd::string::StringExecFns;
use crate::dto::{CreateUserRequest, UpdateUserRequest, UserResponse, responses_view};
use crate::errors::AppError;
use crate::model::{TS_MAX, User, UserView};
use crate::numfmt::{append_i64, dec_of};
use crate::store::{UserDb, contains_id, created_user, eff_time, idx_of, updated_user};
use crate::timefmt::{format_rfc3339, rfc3339_of};
use crate::validation::is_blank;

verus! {

/// The response a stored row maps to: same id, name and email, timestamps
/// rendered as RFC 3339 text.
pub open spec fn response_of(u: UserView) -> crate::dto::UserResponseView {
    crate::dto::UserResponseView {
        id: u.id,
        name: u.name,
        email: u.email,
        created_at: rfc3339_of(u.created_at),
        updated_at: rfc3339_of(u.updated_at),
    }
}

/// The message a failed delete carries for this id.
pub open spec fn delete_not_found_message(id: int) -> Seq<char> {
    "User with id "@ + dec_of(id) + " not found"@
}

pub struct UserService;

impl UserService {
    /// Converts a stored row into the shape returned to clients.
    pub fn user_to_response(user: User) -> (r: UserResponse)
        requires
            user@.wf(),
        ensures
            r@ == response_of(user@),
    {
        UserResponse {
            id: user.id,
            name: user.name,
            email: user.email,
            created_at: format_rfc3339(user.created_at),
            updated_at: format_rfc3339(user.updated_at),
        }
    }

    /// Creates a user: rejects a name or email that trims to nothing, then
    /// inserts the row and returns its response shape.
    pub fn create_user(db: &mut UserDb, request: CreateUserRequest, now: i64) -> (r: Result<
        UserResponse,
        AppError,
    >)
        requires
            old(db).wf(),
            0 <= now < TS_MAX,
        ensures
            final(db).wf(),
            is_blank(request.name@) ==> ({
                &&& r matches Err(AppError::BadRequest(m)) && m@ == "Name cannot be empty"@
                &&& final(db)@ == old(db)@
            }),
            !is_blank(request.name@) && is_blank(request.email@) ==> ({
                &&& r matches Err(AppError::BadRequest(m)) && m@ == "Email cannot be empty"@
                &&& final(db)@ == old(db)@
            }),
            !is_blank(request.name@) && !is_blank(request.email@) && old(db)@.next_id == i64::MAX
                as int ==> ({
                &&& r matches Err(AppError::DatabaseError(m)) && m@
                    == "user id space exhausted"@
                &&& final(db)@ == old(db)@
            }),
            !is_blank(request.name@) && !is_blank(request.email@) && old(db)@.next_id < i64::MAX
                as int ==> ({
                let u = created_user(old(db)@, request.name@, request.email@, now as int);
                &&& r matches Ok(resp) && resp@ == response_of(u)
                &&& final(db)@.users == old(db)@.users.push(u)
                &&& final(db)@.next_id == old(db)@.next_id + 1
                &&& final(db)@.clock == eff_time(now as int, old(db)@.clock)
            }),
    {
        if crate::validation::str_is_blank(request.name.as_str()) {
            return Err(AppError::BadRequest("Name cannot be empty".to_owned()));
        }
        if crate::validation::str_is_blank(request.email.as_str()) {
            return Err(AppError::BadRequest("Email cannot be empty".to_owned()));
        }
        match db.create_user(request.name.as_str(), request.email.as_str(), now) {
            Ok(user) => Ok(Self::user_to_response(user)),
            Err(e) => Err(AppError::from_store(e)),
        }
    }

    /// Fetches one user; a zero-rows outcome surfaces as NotFound unchanged.
    pub fn get_user(db: &UserDb, id: i64) -> (r: Result<UserResponse, AppError>)
        requires
            db.wf(),
        ensures
            contains_id(db@.users, id as int) ==> (r matches Ok(resp) && resp@ == response_of(
                db@.users[idx_of(db@.users, id as int)],
            )),
            !contains_id(db@.users, id as int) ==> (r matches Err(AppError::NotFound(m)) && m@
                == "Resource not found"@),
    {
        match db.get_user_by_id(id) {
            Ok(user) => Ok(Self::user_to_response(user)),
            Err(e) => Err(AppError::from_store(e)),
        }
    }

    /// Lists every user, most recently created first, in response shape.
    pub fn get_all_users(db: &UserDb) -> (r: Result<Vec<UserResponse>, AppError>)
        requires
            db.wf(),
        ensures
            r matches Ok(list) && responses_view(list@) == db@.users.reverse().map_values(
                |u: UserView| response_of(u),
            ),
    {
        let users = db.get_all_users();
        let ghost rev = db@.users.reverse();
        let mut out: Vec<UserResponse> = Vec::new();
        let n = users.len();
        let mut i: usize = 0;
        while i < n
            invariant
                db.wf(),
                n == users@.len(),
                n == db@.users.len(),
                crate::model::users_view(users@) == rev,
                rev == db@.users.reverse(),
                forall|j: int| 0 <= j < n ==> (#[trigger] users@[j])@ == db@.users[n - 1 - j],
                0 <= i <= n,
                out@.len() == i,
                forall|j: int| 0 <= j < i ==> (#[trigger] out@[j])@ == response_of(rev[j]),
            decreases n - i,
        {
            proof {
                assert(users@[i as int]@ == rev[i as int]);
                assert(db@.users[n - 1 - i].wf());
            }
            let u = &users[i];
            out.push(Self::user_to_response(u.duplicate()));
            i = i + 1;
        }
        proof {
            assert(responses_view(out@) =~= rev.map_values(|u: UserView| response_of(u)));
        }
        Ok(out)
    }

    /// Updates the supplied fields of one user: rejects a supplied field
    /// that trims to nothing, then delegates only the present fields and
    /// returns the refreshed row.
    pub fn update_user(db: &mut UserDb, id: i64, request: UpdateUserRequest, now: i64) -> (r:
        Result<UserResponse, AppError>)
        requires
            old(db).wf(),
            0 <= now < TS_MAX,
        ensures
            final(db).wf(),
            (request@.name matches Some(n) && is_blank(n)) ==> ({
                &&& r matches Err(AppError::BadRequest(m)) && m@ == "Name cannot be empty"@
                &&& final(db)@ == old(db)@
            }),
            !(request@.name matches Some(n) && is_blank(n)) && (request@.email matches Some(e)
                && is_blank(e)) ==> ({
                &&& r matches Err(AppError::BadRequest(m)) && m@ == "Email cannot be empty"@
                &&& final(db)@ == old(db)@
            }),
            !(request@.name matches Some(n) && is_blank(n)) && !(request@.email matches Some(e)
                && is_blank(e)) && !contains_id(old(db)@.users, id as int) ==> ({
                &&& r matches Err(AppError::NotFound(m)) && m@ == "Resource not found"@
                &&& final(db)@ == old(db)@
            }),
            !(request@.name matches Some(n) && is_blank(n)) && !(request@.email matches Some(e)
                && is_blank(e)) && contains_id(old(db)@.users, id as int) ==> ({
                let k = idx_of(old(db)@.users, id as int);
                let ts = eff_time(now as int, old(db)@.clock);
                let u = updated_user(old(db)@.users[k], request@.name, request@.email, ts);
                &&& r matches Ok(resp) && resp@ == response_of(u)
                &&& final(db)@.users == old(db)@.users.update(k, u)
                &&& final(db)@.next_id == old(db)@.next_id
                &&& final(db)@.clock == ts
            }),
    {
        match &request.name {
            Some(name) => {
                if crate::validation::str_is_blank(name.as_str()) {
                    return Err(AppError::BadRequest("Name cannot be empty".to_owned()));
                }
            },
            None => {},
        }
        match &request.email {
            Some(email) => {
                if crate::validation::str_is_blank(email.as_str()) {
                    return Err(AppError::BadRequest("Email cannot be empty".to_owned()));
                }
            },
            None => {},
        }
        let name_ref: Option<&str> = match &request.name {
            Some(s) => Some(s.as_str()),
            None => None,
        };
        let email_ref: Option<&str> = match &request.email {
            Some(s) => Some(s.as_str()),
            None => None,
        };
        match db.update_user(id, name_ref, email_ref, now) {
            Ok(user) => Ok(Self::user_to_response(user)),
            Err(e) => Err(AppError::from_store(e)),
        }
    }

    /// Deletes one user; a zero affected-row count becomes NotFound carrying
    /// the requested id.
    pub fn delete_user(db: &mut UserDb, id: i64) -> (r: Result<(), AppError>)
        requires
            old(db).wf(),
        ensures
            final(db).wf(),
            !contains_id(old(db)@.users, id as int) ==> ({
                &&& r matches Err(AppError::NotFound(m)) && m@ == delete_not_found_message(
                    id as int,
                )
                &&& final(db)@ == old(db)@
            }),
            contains_id(old(db)@.users, id as int) ==> ({
                &&& r is Ok
                &&& final(db)@.users == old(db)@.users.remove(idx_of(old(db)@.users, id as int))
                &&& final(db)@.next_id == old(db)@.next_id
                &&& final(db)@.clock == old(db)@.clock
            }),
    {
        let rows_affected = db.delete_user(id);
        if rows_affected == 0 {
            let mut m = "User with id ".to_owned();
            append_i64(&mut m, id);
            m.append(" not found");
            return Err(AppError::NotFound(m));
        }
        Ok(())
    }
}

} // verus!
