//! The user store: rows kept in creation order, an auto-increment id
//! counter, and the server clock that stamps rows. Each operation states
//! exactly what it returns and how it changes the stored rows.

use vstd::prelude::*;
use crate::errors::StoreError;
use crate::model::{TS_MAX, User, UserView, users_view};

verus! {

/// The user store.
pub struct UserDb {
    users: Vec<User>,
    next_id: i64,
    clock: i64,
}

#[verifier::ext_equal]
pub struct UserDbView {
    pub users: Seq<UserView>,
    pub next_id: int,
    pub clock: int,
}

impl View for UserDb {
    type V = UserDbView;

    closed spec fn view(&self) -> UserDbView {
        UserDbView {
            users: users_view(self.users@),
            next_id: self.next_id as int,
            clock: self.clock as int,
        }
    }
}

/// Whether some stored row carries this id.
pub open spec fn contains_id(users: Seq<UserView>, id: int) -> bool {
    exists|i: int| 0 <= i < users.len() && users[i].id == id
}

/// The position of the row carrying this id; meaningful when `contains_id`
/// holds, and unique because stored ids never repeat.
pub open spec fn idx_of(users: Seq<UserView>, id: int) -> int {
    choose|i: int| 0 <= i < users.len() && users[i].id == id
}

/// The instant a mutating operation stamps rows with: the caller's clock,
/// held back to never run behind what the store already issued.
pub open spec fn eff_time(now: int, clock: int) -> int {
    if now > clock { now } else { clock }
}

/// The row a create operation adds.
pub open spec fn created_user(v: UserDbView, name: Seq<char>, email: Seq<char>, now: int)
    -> UserView {
    UserView {
        id: v.next_id,
        name: name,
        email: email,
        created_at: eff_time(now, v.clock),
        updated_at: eff_time(now, v.clock),
    }
}

/// The row an update operation leaves behind: supplied fields replaced,
/// omitted fields kept, `updated_at` refreshed, `id` and `created_at` fixed.
pub open spec fn updated_user(
    u: UserView,
    name: Option<Seq<char>>,
    email: Option<Seq<char>>,
    ts: int,
) -> UserView {
    UserView {
        id: u.id,
        name: match name {
            Some(n) => n,
            None => u.name,
        },
        email: match email {
            Some(e) => e,
            None => u.email,
        },
        created_at: u.created_at,
        updated_at: ts,
    }
}

pub open spec fn opt_str_view(o: Option<&str>) -> Option<Seq<char>> {
    match o {
        Some(s) => Some(s@),
        None => None,
    }
}

impl UserDb {
    /// Store invariant: every row is well formed and stamped no later than
    /// the clock, ids are unique and below the counter, and rows sit in
    /// creation order.
    pub open spec fn wf(&self) -> bool {
        let v = self@;
        &&& forall|i: int| 0 <= i < v.users.len() ==> (#[trigger] v.users[i]).wf()
        &&& forall|i: int| 0 <= i < v.users.len() ==> (#[trigger] v.users[i]).updated_at
            <= v.clock
        &&& forall|i: int, j: int|
            0 <= i < j < v.users.len() ==> (#[trigger] v.users[i].id) != (#[trigger] v.users[j].id)
        &&& forall|i: int| 0 <= i < v.users.len() ==> (#[trigger] v.users[i]).id < v.next_id
        &&& forall|i: int, j: int|
            0 <= i <= j < v.users.len() ==> (#[trigger] v.users[i].created_at) <= (
            #[trigger] v.users[j].created_at)
        &&& 1 <= v.next_id <= i64::MAX as int
        &&& 0 <= v.clock < TS_MAX as int
    }

    /// An empty store: no rows, ids start at 1, the clock at the epoch.
    pub fn new() -> (db: UserDb)
        ensures
            db.wf(),
            db@.users.len() == 0,
            db@.next_id == 1,
            db@.clock == 0,
    {
        let db = UserDb { users: Vec::new(), next_id: 1, clock: 0 };
        proof {
            assert(users_view(db.users@) =~= Seq::<UserView>::empty());
        }
        db
    }

    /// Whichever index carries `id` is the one `idx_of` picks: ids are
    /// unique in a well-formed store.
    pub proof fn lemma_idx_of(&self, id: int, k: int)
        requires
            self.wf(),
            0 <= k < self@.users.len(),
            self@.users[k].id == id,
        ensures
            contains_id(self@.users, id),
            idx_of(self@.users, id) == k,
    {
        assert(contains_id(self@.users, id));
        let i = idx_of(self@.users, id);
        assert(0 <= i < self@.users.len() && self@.users[i].id == id);
        if i < k {
            assert(self@.users[i].id != self@.users[k].id);
        } else if k < i {
            assert(self@.users[k].id != self@.users[i].id);
        }
    }

    fn find_index(&self, id: i64) -> (r: Option<usize>)
        requires
            self.wf(),
        ensures
            match r {
                Some(k) => contains_id(self@.users, id as int) && idx_of(self@.users, id as int)
                    == k as int && 0 <= k < self@.users.len() && self@.users[k as int].id == id
                    as int,
                None => !contains_id(self@.users, id as int),
            },
    {
        let n = self.users.len();
        let mut i: usize = 0;
        while i < n
            invariant
                self.wf(),
                n == self@.users.len(),
                0 <= i <= n,
                forall|j: int| 0 <= j < i ==> self@.users[j].id != id as int,
            decreases n - i,
        {
            if self.users[i].id == id {
                proof {
                    self.lemma_idx_of(id as int, i as int);
                }
                return Some(i);
            }
            i = i + 1;
        }
        None
    }

    /// Inserts a row with a fresh id and server-set timestamps and returns
    /// it; fails only when the id space is spent, leaving the store as it
    /// was.
    pub fn create_user(&mut self, name: &str, email: &str, now: i64) -> (r: Result<
        User,
        StoreError,
    >)
        requires
            old(self).wf(),
            0 <= now < TS_MAX,
        ensures
            final(self).wf(),
            old(self)@.next_id == i64::MAX as int ==> ({
                &&& r matches Err(StoreError::Failure(m)) && m@ == "user id space exhausted"@
                &&& final(self)@ == old(self)@
            }),
            old(self)@.next_id < i64::MAX as int ==> ({
                let u = created_user(old(self)@, name@, email@, now as int);
                &&& r matches Ok(row) && row@ == u
                &&& final(self)@.users == old(self)@.users.push(u)
                &&& final(self)@.next_id == old(self)@.next_id + 1
                &&& final(self)@.clock == eff_time(now as int, old(self)@.clock)
            }),
    {
        if self.next_id == i64::MAX {
            return Err(StoreError::Failure("user id space exhausted".to_owned()));
        }
        let ts = if now > self.clock { now } else { self.clock };
        let row = User {
            id: self.next_id,
            name: name.to_owned(),
            email: email.to_owned(),
            created_at: ts,
            updated_at: ts,
        };
        let out = row.duplicate();
        self.users.push(row);
        self.next_id = self.next_id + 1;
        self.clock = ts;
        proof {
            let u = created_user(old(self)@, name@, email@, now as int);
            assert(self@.users =~= old(self)@.users.push(u));
        }
        Ok(out)
    }

    /// Returns the row carrying `id`, or reports that no row matched.
    pub fn get_user_by_id(&self, id: i64) -> (r: Result<User, StoreError>)
        requires
            self.wf(),
        ensures
            contains_id(self@.users, id as int) ==> (r matches Ok(u) && u@ == self@.users[idx_of(
                self@.users,
                id as int,
            )]),
            !contains_id(self@.users, id as int) ==> r matches Err(StoreError::NoRows),
    {
        match self.find_index(id) {
            Some(k) => {
                let u = &self.users[k];
                Ok(u.duplicate())
            },
            None => Err(StoreError::NoRows),
        }
    }

    /// Returns every row, most recently created first; an empty store gives
    /// an empty list.
    pub fn get_all_users(&self) -> (r: Vec<User>)
        requires
            self.wf(),
        ensures
            users_view(r@) == self@.users.reverse(),
            r@.len() == self@.users.len(),
            forall|j: int| 0 <= j < r@.len() ==> (#[trigger] r@[j])@ == self@.users[r@.len() - 1
                - j],
    {
        let n = self.users.len();
        let mut out: Vec<User> = Vec::new();
        let mut i: usize = n;
        while i > 0
            invariant
                self.wf(),
                n == self@.users.len(),
                0 <= i <= n,
                out@.len() == n - i,
                forall|j: int| 0 <= j < out@.len() ==> (#[trigger] out@[j])@ == self@.users[n - 1
                    - j],
            decreases i,
        {
            i = i - 1;
            let u = &self.users[i];
            out.push(u.duplicate());
        }
        proof {
            assert(users_view(out@) =~= self@.users.reverse());
        }
        out
    }

    /// Replaces the supplied fields of the row carrying `id`, refreshes its
    /// `updated_at`, and returns the full row; reports no-rows when the id
    /// is absent, leaving the store as it was.
    pub fn update_user(
        &mut self,
        id: i64,
        name: Option<&str>,
        email: Option<&str>,
        now: i64,
    ) -> (r: Result<User, StoreError>)
        requires
            old(self).wf(),
            0 <= now < TS_MAX,
        ensures
            final(self).wf(),
            !contains_id(old(self)@.users, id as int) ==> ({
                &&& r matches Err(StoreError::NoRows)
                &&& final(self)@ == old(self)@
            }),
            contains_id(old(self)@.users, id as int) ==> ({
                let k = idx_of(old(self)@.users, id as int);
                let ts = eff_time(now as int, old(self)@.clock);
                let u = updated_user(
                    old(self)@.users[k],
                    opt_str_view(name),
                    opt_str_view(email),
                    ts,
                );
                &&& r matches Ok(row) && row@ == u
                &&& final(self)@.users == old(self)@.users.update(k, u)
                &&& final(self)@.next_id == old(self)@.next_id
                &&& final(self)@.clock == ts
            }),
    {
        match self.find_index(id) {
            None => Err(StoreError::NoRows),
            Some(k) => {
                let ts = if now > self.clock { now } else { self.clock };
                let prev = self.users.remove(k);
                let new_name = match name {
                    Some(n) => n.to_owned(),
                    None => prev.name,
                };
                let new_email = match email {
                    Some(e) => e.to_owned(),
                    None => prev.email,
                };
                let row = User {
                    id: prev.id,
                    name: new_name,
                    email: new_email,
                    created_at: prev.created_at,
                    updated_at: ts,
                };
                let out = row.duplicate();
                self.users.insert(k, row);
                self.clock = ts;
                proof {
                    let ki = k as int;
                    let u = updated_user(
                        old(self)@.users[ki],
                        opt_str_view(name),
                        opt_str_view(email),
                        ts as int,
                    );
                    assert(self@.users =~= old(self)@.users.update(ki, u));
                }
                Ok(out)
            },
        }
    }

    /// Removes the row carrying `id` and returns how many rows went away:
    /// 1 when the id was present, otherwise 0 with the store unchanged.
    /// Absence is not an error here; the caller decides what a zero count
    /// means.
    pub fn delete_user(&mut self, id: i64) -> (r: u64)
        requires
            old(self).wf(),
        ensures
            final(self).wf(),
            !contains_id(old(self)@.users, id as int) ==> ({
                &&& r == 0
                &&& final(self)@ == old(self)@
            }),
            contains_id(old(self)@.users, id as int) ==> ({
                &&& r == 1
                &&& final(self)@.users == old(self)@.users.remove(
                    idx_of(old(self)@.users, id as int),
                )
                &&& final(self)@.next_id == old(self)@.next_id
                &&& final(self)@.clock == old(self)@.clock
            }),
    {
        match self.find_index(id) {
            Some(k) => {
                self.users.remove(k);
                proof {
                    let ki = k as int;
                    assert(self@.users =~= old(self)@.users.remove(ki));
                }
                1
            },
            None => 0,
        }
    }
}

} // verus!
