use vstd::prelude::*;

use crate::errors::RepoError;
use crate::store::Record;
use crate::store::Table;
use crate::store::has_id;

verus! {

/// A stored item record. The price is held in hundredths of the currency
/// unit; the wire layer converts to and from its decimal form.
pub struct Item {
    pub id: i32,
    pub name: String,
    pub price_cents: u64,
}

impl Record for Item {
    open spec fn rid(&self) -> i32 {
        self.id
    }

    fn id(&self) -> (r: i32) {
        self.id
    }
}

/// The draft an item is created or overwritten from.
pub struct InsertableItem {
    pub name: String,
    pub price_cents: u64,
}

/// Persists a new item under a fresh id and returns the created record.
pub fn create(store: &mut Table<Item>, item: InsertableItem) -> (r: Item)
    requires
        old(store).wf(),
        old(store).next() < i32::MAX,
    ensures
        final(store).wf(),
        r.id == old(store).next(),
        r.name@ == item.name@,
        r.price_cents == item.price_cents,
        !has_id(old(store).rows(), r.id),
        final(store).rows() == old(store).rows().push(r),
        final(store).next() == old(store).next() + 1,
{
    let id = store.fresh_id();
    let name = item.name;
    let created = Item { id, name: name.clone(), price_cents: item.price_cents };
    let stored = Item { id, name, price_cents: item.price_cents };
    proof {
        assert(created == stored);
    }
    store.insert(stored);
    created
}

/// Lists every item, in stored order.
pub fn list(store: &Table<Item>) -> (r: Vec<Item>)
    ensures
        r@.len() == store.rows().len(),
        forall|i: int| #![trigger r@[i]] 0 <= i < store.rows().len() ==> r@[i] == store.rows()[i],
{
    let rows = store.all();
    let n = rows.len();
    let mut out: Vec<Item> = Vec::new();
    let mut i: usize = 0;
    while i < n
        invariant
            i <= n,
            n == store.rows().len(),
            rows@ == store.rows(),
            out@.len() == i,
            forall|k: int| #![trigger out@[k]] 0 <= k < i ==> out@[k] == store.rows()[k],
        decreases n - i,
    {
        let row = &rows[i];
        out.push(Item { id: row.id, name: row.name.clone(), price_cents: row.price_cents });
        i = i + 1;
    }
    out
}

/// The item carrying `id`; absence is no error.
pub fn read(store: &Table<Item>, id: i32) -> (r: Option<Item>)
    requires
        store.wf(),
    ensures
        (r is Some) <==> has_id(store.rows(), id),
        r matches Some(it) ==> it.id == id && forall|i: int|
            #![trigger store.rows()[i]]
            0 <= i < store.rows().len() && store.rows()[i].id == id ==> store.rows()[i] == it,
{
    match store.get(id) {
        Some(row) => {
            let it = Item { id, name: row.name.clone(), price_cents: row.price_cents };
            proof {
                assert(it == *row);
                let s = store.rows();
                let w = choose|i: int| 0 <= i < s.len() && #[trigger] s[i] == *row;
                assert forall|j: int|
                    0 <= j < s.len() && (#[trigger] s[j]).id == id implies s[j] == it by {
                    if j != w {
                        assert(s[j].rid() != s[w].rid());
                    }
                }
            }
            Some(it)
        },
        None => None,
    }
}

/// Overwrites every mutable field of the item carrying `id` from the draft
/// and returns the id; an id no record carries is `NotFound`, not a silent
/// success.
pub fn update(store: &mut Table<Item>, id: i32, item: InsertableItem) -> (r: Result<i32, RepoError>)
    requires
        old(store).wf(),
    ensures
        final(store).wf(),
        (r matches Err(RepoError::NotFound)) <==> !has_id(old(store).rows(), id),
        r matches Err(e) ==> e == RepoError::NotFound,
        r is Err ==> *final(store) == *old(store),
        r matches Ok(rid) ==> ({
            &&& rid == id
            &&& has_id(old(store).rows(), id)
            &&& final(store).rows().len() == old(store).rows().len()
            &&& forall|i: int|
                #![trigger final(store).rows()[i]]
                0 <= i < old(store).rows().len() ==> (if old(store).rows()[i].id == id {
                    final(store).rows()[i].id == id && final(store).rows()[i].name@ == item.name@
                        && final(store).rows()[i].price_cents == item.price_cents
                } else {
                    final(store).rows()[i] == old(store).rows()[i]
                })
        }),
{
    let nu = Item { id, name: item.name, price_cents: item.price_cents };
    if store.replace(id, nu) {
        Ok(id)
    } else {
        Err(RepoError::NotFound)
    }
}

/// Removes the item carrying `id`; an id no record carries is reported as
/// absent rather than as a silent success, and afterwards the id resolves to
/// nothing.
pub fn delete(store: &mut Table<Item>, id: i32) -> (r: Option<()>)
    requires
        old(store).wf(),
    ensures
        final(store).wf(),
        (r is Some) <==> has_id(old(store).rows(), id),
        r is None ==> *final(store) == *old(store),
        !has_id(final(store).rows(), id),
        r is Some ==> final(store).rows().len() + 1 == old(store).rows().len(),
        r is Some ==> exists|k: int|
            #![trigger old(store).rows()[k]]
            0 <= k < old(store).rows().len() && old(store).rows()[k].id == id
                && final(store).rows() == old(store).rows().remove(k),
{
    if store.remove(id) {
        Some(())
    } else {
        None
    }
}

} // verus!
