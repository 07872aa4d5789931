//! Wire-facing request and response shapes, kept apart from the persistent
//! entity.

use vstd::prelude::*;

verus! {

/// Body of `POST /api/users`.
pub struct CreateUserRequest {
    pub name: String,
    pub email: String,
}

/// Body of `PUT /api/users/{id}`: a partial update, omitted fields are left
/// unchanged.
pub struct UpdateUserRequest {
    pub name: Option<String>,
    pub email: Option<String>,
}

/// The only user representation ever returned to clients; timestamps are
/// rendered as RFC 3339 strings.
pub struct UserResponse {
    pub id: i64,
    pub name: String,
    pub email: String,
    pub created_at: String,
    pub updated_at: String,
}

#[verifier::ext_equal]
pub struct CreateUserRequestView {
    pub name: Seq<char>,
    pub email: Seq<char>,
}

impl View for CreateUserRequest {
    type V = CreateUserRequestView;

    open spec fn view(&self) -> CreateUserRequestView {
        CreateUserRequestView { name: self.name@, email: self.email@ }
    }
}

#[verifier::ext_equal]
pub struct UpdateUserRequestView {
    pub name: Option<Seq<char>>,
    pub email: Option<Seq<char>>,
}

impl View for UpdateUserRequest {
    type V = UpdateUserRequestView;

    open spec fn view(&self) -> UpdateUserRequestView {
        UpdateUserRequestView {
            name: match self.name {
                Some(n) => Some(n@),
                None => None,
            },
            email: match self.email {
                Some(e) => Some(e@),
                None => None,
            },
        }
    }
}

#[verifier::ext_equal]
pub struct UserResponseView {
    pub id: int,
    pub name: Seq<char>,
    pub email: Seq<char>,
    pub created_at: Seq<char>,
    pub updated_at: Seq<char>,
}

impl View for UserResponse {
    type V = UserResponseView;

    open spec fn view(&self) -> UserResponseView {
        UserResponseView {
            id: self.id as int,
            name: self.name@,
            email: self.email@,
            created_at: self.created_at@,
            updated_at: self.updated_at@,
        }
    }
}

pub open spec fn responses_view(rs: Seq<UserResponse>) -> Seq<UserResponseView> {
    rs.map_values(|r: UserResponse| r@)
}

} // verus!
