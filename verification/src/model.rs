//! The persistent `User` entity, modelled with plain values: timestamps are
//! seconds since the Unix epoch.

use vstd::prelude::*;

verus! {

/// One second past the last representable instant: the first second of the
/// year 10000. Every timestamp the store hands out stays below this bound,
/// so it always has an RFC 3339 rendering.
pub const TS_MAX: i64 = 253402300800;

/// A row of the `users` table.
pub struct User {
    pub id: i64,
    pub name: String,
    pub email: String,
    pub created_at: i64,
    pub updated_at: i64,
}

#[verifier::ext_equal]
pub struct UserView {
    pub id: int,
    pub name: Seq<char>,
    pub email: Seq<char>,
    pub created_at: int,
    pub updated_at: int,
}

impl View for User {
    type V = UserView;

    open spec fn view(&self) -> UserView {
        UserView {
            id: self.id as int,
            name: self.name@,
            email: self.email@,
            created_at: self.created_at as int,
            updated_at: self.updated_at as int,
        }
    }
}

impl UserView {
    /// Entity invariant: ids are positive, a row is never updated before it
    /// is created, and timestamps stay renderable.
    pub open spec fn wf(&self) -> bool {
        &&& 1 <= self.id
        &&& 0 <= self.created_at
        &&& self.created_at <= self.updated_at
        &&& self.updated_at < TS_MAX as int
    }
}

impl User {
    /// A field-for-field copy of the row.
    pub fn duplicate(&self) -> (r: User)
        ensures
            r@ == self@,
    {
        User {
            id: self.id,
            name: self.name.clone(),
            email: self.email.clone(),
            created_at: self.created_at,
            updated_at: self.updated_at,
        }
    }
}

pub open spec fn users_view(s: Seq<User>) -> Seq<UserView> {
    s.map_values(|u: User| u@)
}

} // verus!
