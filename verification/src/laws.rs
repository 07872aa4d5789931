//! Cross-cutting guarantees of the service, each proved from the public
//! contracts alone.

use vstd::prelude::*;
use crate::handlers::{HttpReplyView, get_all_users_contract, get_user_contract};
use crate::model::{TS_MAX, UserView};
use crate::store::{UserDb, contains_id, eff_time, idx_of, updated_user};

verus! {

/// Listing never shows an older row after a newer one: in a well-formed
/// store the reversed row order the list endpoint returns is sorted by
/// creation time, newest first.
pub proof fn lemma_listing_ordered(db: &UserDb, i: int, j: int)
    requires
        db.wf(),
        0 <= i <= j < db@.users.reverse().len(),
    ensures
        db@.users.reverse()[i].created_at >= db@.users.reverse()[j].created_at,
{
    let users = db@.users;
    assert(users.reverse()[i] == users[users.len() - 1 - i]);
    assert(users.reverse()[j] == users[users.len() - 1 - j]);
}

/// A partial update that supplies only `name` keeps the row's email, id and
/// creation time; its `updated_at` never runs backwards, and moves strictly
/// forward whenever the caller's clock is past the row's last update.
pub proof fn lemma_update_name_only(db: &UserDb, id: int, name: Seq<char>, now: int)
    requires
        db.wf(),
        contains_id(db@.users, id),
        0 <= now < TS_MAX,
    ensures
        ({
            let row = db@.users[idx_of(db@.users, id)];
            let u = updated_user(row, Some(name), None, eff_time(now, db@.clock));
            &&& u.name == name
            &&& u.email == row.email
            &&& u.id == row.id
            &&& u.created_at == row.created_at
            &&& u.updated_at >= row.updated_at
            &&& now > row.updated_at ==> u.updated_at > row.updated_at
        }),
{
    let k = idx_of(db@.users, id);
    assert(0 <= k < db@.users.len() && db@.users[k].id == id);
}

/// The id a create hands out is fresh: no stored row carries the counter's
/// next value, so ids are never reused, even after deletes.
pub proof fn lemma_next_id_fresh(db: &UserDb)
    requires
        db.wf(),
    ensures
        !contains_id(db@.users, db@.next_id),
{
}

/// Deleting a present id leaves no row carrying it.
pub proof fn lemma_delete_removes_id(db: &UserDb, id: int)
    requires
        db.wf(),
        contains_id(db@.users, id),
    ensures
        !contains_id(db@.users.remove(idx_of(db@.users, id)), id),
{
    let users = db@.users;
    let k = idx_of(users, id);
    assert(0 <= k < users.len() && users[k].id == id);
    let rest = users.remove(k);
    users.remove_ensures(k);
    assert forall|i: int| 0 <= i < rest.len() implies rest[i].id != id by {
        if i < k {
            assert(rest[i] == users[i]);
        } else {
            assert(rest[i] == users[i + 1]);
        }
    }
}

/// After a successful delete of `id`, a get of `id` answers 404: the store
/// the delete leaves behind makes the get contract report NOT_FOUND.
pub proof fn lemma_delete_then_get(db: &UserDb, id: int, r: HttpReplyView)
    requires
        db.wf(),
        contains_id(db@.users, id),
        get_user_contract(db@.users.remove(idx_of(db@.users, id)), id, r),
    ensures
        r.status == 404,
{
    lemma_delete_removes_id(db, id);
}

/// Fetching one resource is idempotent: two replies to the same get against
/// the same store content are identical.
pub proof fn lemma_get_user_idempotent(
    users: Seq<UserView>,
    id: int,
    r1: HttpReplyView,
    r2: HttpReplyView,
)
    requires
        get_user_contract(users, id, r1),
        get_user_contract(users, id, r2),
    ensures
        r1 == r2,
{
    assert(r1 =~= r2);
}

/// Listing is idempotent: two replies to the list endpoint against the same
/// store content are identical.
pub proof fn lemma_get_all_users_idempotent(
    users: Seq<UserView>,
    r1: HttpReplyView,
    r2: HttpReplyView,
)
    requires
        get_all_users_contract(users, r1),
        get_all_users_contract(users, r2),
    ensures
        r1 == r2,
{
    assert(r1 =~= r2);
}

} // verus!
