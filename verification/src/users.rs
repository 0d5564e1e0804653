use vstd::prelude::*;

use crate::errors::RepoError;
use crate::password::hash_password;
use crate::password::verifies;
use crate::store::Record;
use crate::store::Table;
use crate::store::has_id;

verus! {

/// A stored user record. The string under `password` is the self-describing
/// salted hash, never the plaintext.
pub struct User {
    pub id: i32,
    pub username: String,
    pub password: String,
}

impl Record for User {
    open spec fn rid(&self) -> i32 {
        self.id
    }

    fn id(&self) -> (r: i32) {
        self.id
    }
}

/// The read-facing projection of a user: the password hash is withheld by the
/// shape of the type.
pub struct QueryableUser {
    pub id: i32,
    pub username: String,
}

/// The draft a user is created or overwritten from; its `password` is the
/// plaintext, routed through hashing and never stored.
pub struct InsertableUser {
    pub username: String,
    pub password: String,
}

/// Whether some user of `users` bears `name`.
pub open spec fn taken(users: Seq<User>, name: Seq<char>) -> bool {
    exists|i: int| #![trigger users[i]] 0 <= i < users.len() && users[i].username@ == name
}

/// Whether a user other than the one carrying `id` bears `name`.
pub open spec fn taken_by_other(users: Seq<User>, name: Seq<char>, id: i32) -> bool {
    exists|i: int|
        #![trigger users[i]]
        0 <= i < users.len() && users[i].username@ == name && users[i].id != id
}

/// Usernames are pairwise distinct.
pub open spec fn unique_usernames(users: Seq<User>) -> bool {
    forall|i: int, j: int|
        #![trigger users[i], users[j]]
        0 <= i < j < users.len() ==> users[i].username@ != users[j].username@
}

/// The user store: records under unique ids, with usernames kept unique, as
/// the shared store's uniqueness constraint demands of concurrent creators.
pub struct UserStore {
    pub table: Table<User>,
}

impl UserStore {
    /// The stored records, in insertion order.
    pub open spec fn users(&self) -> Seq<User> {
        self.table.rows()
    }

    pub open spec fn wf(&self) -> bool {
        &&& self.table.wf()
        &&& unique_usernames(self.table.rows())
    }

    /// An empty store.
    pub fn new() -> (s: UserStore)
        ensures
            s.wf(),
            s.users().len() == 0,
            s.table.next() == 1,
    {
        UserStore { table: Table::new() }
    }
}

/// The index of the first user bearing `name`, if any does.
pub(crate) fn find_by_username(table: &Table<User>, name: &String) -> (r: Option<usize>)
    ensures
        r is Some <==> taken(table.rows(), name@),
        r matches Some(i) ==> i < table.rows().len() && table.rows()[i as int].username@ == name@,
{
    let rows = table.all();
    let n = rows.len();
    let mut i: usize = 0;
    while i < n
        invariant
            i <= n,
            n == table.rows().len(),
            rows@ == table.rows(),
            forall|k: int| 0 <= k < i ==> (#[trigger] table.rows()[k]).username@ != name@,
        decreases n - i,
    {
        if rows[i].username == *name {
            return Some(i);
        }
        i = i + 1;
    }
    None
}

/// Whether a user other than the one carrying `id` bears `name`.
fn name_taken_by_other(table: &Table<User>, name: &String, id: i32) -> (r: bool)
    ensures
        r == taken_by_other(table.rows(), name@, id),
{
    let rows = table.all();
    let n = rows.len();
    let mut i: usize = 0;
    while i < n
        invariant
            i <= n,
            n == table.rows().len(),
            rows@ == table.rows(),
            forall|k: int|
                0 <= k < i ==> !((#[trigger] table.rows()[k]).username@ == name@
                    && table.rows()[k].id != id),
        decreases n - i,
    {
        if rows[i].username == *name && rows[i].id != id {
            return true;
        }
        i = i + 1;
    }
    false
}

/// Persists a new user under a fresh id and returns the created record's
/// projection. The draft's plaintext is hashed before anything is stored; a
/// taken username is refused by the uniqueness constraint, and a hashing
/// failure aborts the creation with nothing persisted.
pub fn create(store: &mut UserStore, user: InsertableUser) -> (r: Result<QueryableUser, RepoError>)
    requires
        old(store).wf(),
        old(store).table.next() < i32::MAX,
    ensures
        final(store).wf(),
        r matches Err(e) ==> (e == RepoError::UsernameTaken || e == RepoError::HashingFailure),
        (r matches Err(RepoError::UsernameTaken)) <==> taken(old(store).users(), user.username@),
        r is Err ==> *final(store) == *old(store),
        r matches Err(RepoError::HashingFailure) ==> !taken(old(store).users(), user.username@),
        r matches Ok(q) ==> ({
            &&& !taken(old(store).users(), user.username@)
            &&& final(store).table.next() == old(store).table.next() + 1
            &&& q.id == old(store).table.next()
            &&& q.username@ == user.username@
            &&& final(store).users().len() == old(store).users().len() + 1
            &&& final(store).users() == old(store).users().push(final(store).users().last())
            &&& final(store).users().last().id == q.id
            &&& final(store).users().last().username@ == user.username@
            &&& verifies(user.password@, final(store).users().last().password@)
        }),
{
    if find_by_username(&store.table, &user.username).is_some() {
        return Err(RepoError::UsernameTaken);
    }
    let password = match hash_password(&user.password) {
        Ok(p) => p,
        Err(_) => {
            return Err(RepoError::HashingFailure);
        },
    };
    let id = store.table.fresh_id();
    let username = user.username;
    let nu = User { id, username: username.clone(), password };
    store.table.insert(nu);
    proof {
        let o = old(store).users();
        let s = store.users();
        assert(s.last() == s[o.len() as int]);
        assert forall|a: int, b: int|
            0 <= a < b < s.len() implies (#[trigger] s[a]).username@ != (
        #[trigger] s[b]).username@ by {
            if b == o.len() {
                if s[a].username@ == user.username@ {
                    assert(o[a].username@ == user.username@);
                }
            }
        }
    }
    Ok(QueryableUser { id, username })
}

/// Lists every user as its safe projection, in stored order.
pub fn list(store: &UserStore) -> (r: Vec<QueryableUser>)
    ensures
        r@.len() == store.users().len(),
        forall|i: int|
            #![trigger r@[i]]
            0 <= i < store.users().len() ==> r@[i].id == store.users()[i].id && r@[i].username@
                == store.users()[i].username@,
{
    let rows = store.table.all();
    let n = rows.len();
    let mut out: Vec<QueryableUser> = Vec::new();
    let mut i: usize = 0;
    while i < n
        invariant
            i <= n,
            n == store.users().len(),
            rows@ == store.users(),
            out@.len() == i,
            forall|k: int|
                #![trigger out@[k]]
                0 <= k < i ==> out@[k].id == store.users()[k].id && out@[k].username@
                    == store.users()[k].username@,
        decreases n - i,
    {
        let row = &rows[i];
        out.push(QueryableUser { id: row.id, username: row.username.clone() });
        i = i + 1;
    }
    out
}

/// The projection of the user carrying `id`; absence is no error.
pub fn read(store: &UserStore, id: i32) -> (r: Option<QueryableUser>)
    requires
        store.wf(),
    ensures
        (r is Some) <==> has_id(store.users(), id),
        r matches Some(q) ==> q.id == id && forall|i: int|
            #![trigger store.users()[i]]
            0 <= i < store.users().len() && store.users()[i].id == id ==> q.username@
                == store.users()[i].username@,
{
    match store.table.get(id) {
        Some(row) => {
            let q = QueryableUser { id, username: row.username.clone() };
            proof {
                let s = store.users();
                let w = choose|i: int| 0 <= i < s.len() && #[trigger] s[i] == *row;
                assert forall|j: int|
                    0 <= j < s.len() && (#[trigger] s[j]).id == id implies s[j].username@
                    == q.username@ by {
                    if j != w {
                        assert(s[j].rid() != s[w].rid());
                    }
                }
            }
            Some(q)
        },
        None => None,
    }
}

/// Overwrites every mutable field of the user carrying `id` from the draft,
/// re-hashing the supplied password, and returns the id. An id no record
/// carries is `NotFound`; a username another user bears is refused; a hashing
/// failure aborts the update with the store unchanged.
pub fn update(store: &mut UserStore, id: i32, user: InsertableUser) -> (r: Result<i32, RepoError>)
    requires
        old(store).wf(),
    ensures
        final(store).wf(),
        (r matches Err(RepoError::NotFound)) <==> !has_id(old(store).users(), id),
        (r matches Err(RepoError::UsernameTaken)) <==> (has_id(old(store).users(), id)
            && taken_by_other(old(store).users(), user.username@, id)),
        r is Err ==> *final(store) == *old(store),
        r matches Err(RepoError::HashingFailure) ==> has_id(old(store).users(), id)
            && !taken_by_other(old(store).users(), user.username@, id),
        r matches Ok(rid) ==> ({
            &&& rid == id
            &&& has_id(old(store).users(), id)
            &&& !taken_by_other(old(store).users(), user.username@, id)
            &&& final(store).users().len() == old(store).users().len()
            &&& forall|i: int|
                #![trigger final(store).users()[i]]
                0 <= i < old(store).users().len() ==> (if old(store).users()[i].id == id {
                    final(store).users()[i].id == id && final(store).users()[i].username@
                        == user.username@ && verifies(
                        user.password@,
                        final(store).users()[i].password@,
                    )
                } else {
                    final(store).users()[i] == old(store).users()[i]
                })
        }),
{
    if store.table.get(id).is_none() {
        return Err(RepoError::NotFound);
    }
    if name_taken_by_other(&store.table, &user.username, id) {
        return Err(RepoError::UsernameTaken);
    }
    let password = match hash_password(&user.password) {
        Ok(p) => p,
        Err(_) => {
            return Err(RepoError::HashingFailure);
        },
    };
    let username = user.username;
    let nu = User { id, username, password };
    let replaced = store.table.replace(id, nu);
    proof {
        assert(replaced);
        let o = old(store).users();
        let s = store.users();
        assert forall|a: int, b: int|
            0 <= a < b < s.len() implies (#[trigger] s[a]).username@ != (
        #[trigger] s[b]).username@ by {
            if o[a].rid() == id && o[b].rid() == id {
                assert(o[a].rid() != o[b].rid());
            } else if o[a].rid() == id {
                if s[b].username@ == user.username@ {
                    assert(o[b].username@ == user.username@ && o[b].id != id);
                }
            } else if o[b].rid() == id {
                if s[a].username@ == user.username@ {
                    assert(o[a].username@ == user.username@ && o[a].id != id);
                }
            }
        }
    }
    Ok(id)
}

/// Removes the user carrying `id`; an id no record carries is reported as
/// absent rather than as a silent success, and afterwards the id resolves to
/// nothing.
pub fn delete(store: &mut UserStore, id: i32) -> (r: Option<()>)
    requires
        old(store).wf(),
    ensures
        final(store).wf(),
        (r is Some) <==> has_id(old(store).users(), id),
        r is None ==> *final(store) == *old(store),
        !has_id(final(store).users(), id),
        r is Some ==> final(store).users().len() + 1 == old(store).users().len(),
        r is Some ==> exists|k: int|
            #![trigger old(store).users()[k]]
            0 <= k < old(store).users().len() && old(store).users()[k].id == id
                && final(store).users() == old(store).users().remove(k),
{
    if store.table.remove(id) {
        proof {
            let o = old(store).users();
            let s = store.users();
            let k = choose|k: int|
                #![trigger o[k]]
                0 <= k < o.len() && o[k].rid() == id && s == o.remove(k);
            o.remove_ensures(k);
            assert forall|a: int, b: int|
                0 <= a < b < s.len() implies (#[trigger] s[a]).username@ != (
            #[trigger] s[b]).username@ by {
                if b < k {
                } else if a < k {
                    assert(s[a] == o[a] && s[b] == o[b + 1]);
                } else {
                    assert(s[a] == o[a + 1] && s[b] == o[b + 1]);
                }
            }
        }
        Some(())
    } else {
        None
    }
}

/// Law: a record just created is found again under the id it was assigned.
/// The store holds exactly the old rows plus the new one, and the new id
/// resolves to the new row alone — whose projection carries the username and,
/// by the projection's shape, no password hash.
pub proof fn lemma_create_then_read(users: Seq<User>, nu: User)
    requires
        forall|i: int| 0 <= i < users.len() ==> (#[trigger] users[i]).id != nu.id,
    ensures
        has_id(users.push(nu), nu.id),
        forall|i: int|
            #![trigger users.push(nu)[i]]
            0 <= i < users.push(nu).len() && users.push(nu)[i].id == nu.id ==> users.push(nu)[i]
                == nu,
{
    let s = users.push(nu);
    assert(s[users.len() as int] == nu);
    assert(s[users.len() as int].rid() == nu.id);
    assert forall|i: int| 0 <= i < s.len() && (#[trigger] s[i]).id == nu.id implies s[i] == nu by {
        if i < users.len() {
            assert(users[i].id != nu.id);
        }
    }
}

/// Law: once a user bearing a username stands in the store, any further
/// creation attempt under that username finds it taken and is refused, so at
/// most one of two concurrent creations with one username can succeed,
/// whichever reached the shared store first.
pub proof fn lemma_duplicate_username_rejected(users: Seq<User>, nu: User)
    ensures
        taken(users.push(nu), nu.username@),
{
    assert(users.push(nu)[users.len() as int].username@ == nu.username@);
}

/// Law: a user just created can log in with the password the draft carried —
/// the stored hash verifies that plaintext, so the username resolves to a
/// record whose credential check succeeds.
pub proof fn lemma_created_user_can_log_in(users: Seq<User>, nu: User, password: Seq<char>)
    requires
        verifies(password, nu.password@),
    ensures
        taken(users.push(nu), nu.username@),
        exists|i: int|
            #![trigger users.push(nu)[i]]
            0 <= i < users.push(nu).len() && users.push(nu)[i].username@ == nu.username@
                && verifies(password, users.push(nu)[i].password@),
{
    assert(users.push(nu)[users.len() as int] == nu);
}

} // verus!
