use vstd::prelude::*;

verus! {

/// A persisted record: a row carrying a unique, system-assigned integer id.
pub trait Record: Sized {
    /// The id the row carries, as contracts speak of it.
    spec fn rid(&self) -> i32;

    /// The id the row carries.
    fn id(&self) -> (r: i32)
        ensures
            r == self.rid(),
    ;
}

/// Whether some row of `rows` carries `id`.
pub open spec fn has_id<T: Record>(rows: Seq<T>, id: i32) -> bool {
    exists|i: int| #![trigger rows[i].rid()] 0 <= i < rows.len() && rows[i].rid() == id
}

/// The rows pairwise carry distinct ids.
pub open spec fn unique_ids<T: Record>(rows: Seq<T>) -> bool {
    forall|i: int, j: int|
        #![trigger rows[i].rid(), rows[j].rid()]
        0 <= i < j < rows.len() ==> rows[i].rid() != rows[j].rid()
}

/// The store of one resource type: rows under unique ids, with a counter from
/// which the next id is assigned. Ids are never reused.
pub struct Table<T: Record> {
    rows: Vec<T>,
    next_id: i32,
}

impl<T: Record> Table<T> {
    /// The rows currently held, in insertion order.
    pub closed spec fn rows(&self) -> Seq<T> {
        self.rows@
    }

    /// The id the next inserted row will receive.
    pub closed spec fn next(&self) -> i32 {
        self.next_id
    }

    /// Every row's id is unique and below the assignment counter, so a fresh
    /// id never collides with a stored one.
    pub open spec fn wf(&self) -> bool {
        &&& unique_ids(self.rows())
        &&& forall|i: int|
            0 <= i < self.rows().len() ==> #[trigger] self.rows()[i].rid() < self.next()
        &&& 1 <= self.next()
    }

    /// An empty store; ids are assigned from 1 up.
    pub fn new() -> (t: Self)
        ensures
            t.wf(),
            t.rows().len() == 0,
            t.next() == 1,
    {
        Table { rows: Vec::new(), next_id: 1 }
    }

    /// The value of the assignment counter, for callers that must check it
    /// has room left before creating.
    pub fn upcoming_id(&self) -> (r: i32)
        ensures
            r == self.next(),
    {
        self.next_id
    }

    /// The id the next inserted row will carry; no stored row carries it.
    pub fn fresh_id(&self) -> (r: i32)
        requires
            self.wf(),
        ensures
            r == self.next(),
            !has_id(self.rows(), r),
    {
        proof {
            assert(forall|i: int|
                0 <= i < self.rows().len() ==> #[trigger] self.rows()[i].rid() != self.next());
        }
        self.next_id
    }

    /// The index of the row carrying `id`, if one does.
    fn index_of(&self, id: i32) -> (r: Option<usize>)
        ensures
            r is Some <==> has_id(self.rows(), id),
            r matches Some(i) ==> i < self.rows().len() && self.rows()[i as int].rid() == id,
    {
        let n = self.rows.len();
        let mut i: usize = 0;
        while i < n
            invariant
                i <= n,
                n == self.rows().len(),
                forall|k: int| 0 <= k < i ==> #[trigger] self.rows()[k].rid() != id,
            decreases n - i,
        {
            if self.rows[i].id() == id {
                return Some(i);
            }
            i = i + 1;
        }
        None
    }

    /// Appends a row that carries the fresh id; the counter moves past it.
    pub fn insert(&mut self, row: T)
        requires
            old(self).wf(),
            row.rid() == old(self).next(),
            old(self).next() < i32::MAX,
        ensures
            final(self).wf(),
            final(self).rows() == old(self).rows().push(row),
            final(self).next() == old(self).next() + 1,
    {
        self.rows.push(row);
        self.next_id = self.next_id + 1;
        proof {
            let rows = self.rows();
            assert forall|i: int, j: int| 0 <= i < j < rows.len() implies (#[trigger] rows[i].rid())
                != (#[trigger] rows[j].rid()) by {
                if j + 1 < rows.len() {
                } else {
                    assert(rows[i].rid() < rows[j].rid());
                }
            }
        }
    }

    /// The row carrying `id`, if one does.
    pub fn get(&self, id: i32) -> (r: Option<&T>)
        ensures
            r is Some <==> has_id(self.rows(), id),
            r matches Some(row) ==> row.rid() == id && (exists|i: int|
                0 <= i < self.rows().len() && #[trigger] self.rows()[i] == *row),
    {
        match self.index_of(id) {
            Some(i) => Some(&self.rows[i]),
            None => None,
        }
    }

    /// Overwrites the row carrying `id` with `row` (which carries the same
    /// id); reports whether such a row existed, leaving the store unchanged
    /// when none did.
    pub fn replace(&mut self, id: i32, row: T) -> (r: bool)
        requires
            old(self).wf(),
            row.rid() == id,
        ensures
            final(self).wf(),
            r <==> has_id(old(self).rows(), id),
            !r ==> *final(self) == *old(self),
            final(self).next() == old(self).next(),
            r ==> final(self).rows().len() == old(self).rows().len(),
            r ==> forall|i: int|
                0 <= i < old(self).rows().len() ==> #[trigger] final(self).rows()[i] == (
                if old(self).rows()[i].rid() == id {
                    row
                } else {
                    old(self).rows()[i]
                }),
    {
        match self.index_of(id) {
            Some(i) => {
                self.rows.set(i, row);
                proof {
                    let o = old(self).rows();
                    let n = self.rows();
                    assert forall|a: int|
                        0 <= a < o.len() implies #[trigger] n[a] == (if o[a].rid() == id {
                        row
                    } else {
                        o[a]
                    }) by {
                        if a != i as int && o[a].rid() == id {
                            assert(o[a].rid() != o[i as int].rid());
                        }
                    }
                    assert forall|a: int, b: int|
                        0 <= a < b < n.len() implies (#[trigger] n[a].rid())
                        != (#[trigger] n[b].rid()) by {
                        assert(n[a].rid() == o[a].rid());
                        assert(n[b].rid() == o[b].rid());
                    }
                }
                true
            },
            None => false,
        }
    }

    /// Removes the row carrying `id`; reports whether one existed. Exactly one
    /// row leaves, and the id resolves to nothing afterwards.
    pub fn remove(&mut self, id: i32) -> (r: bool)
        requires
            old(self).wf(),
        ensures
            final(self).wf(),
            r <==> has_id(old(self).rows(), id),
            !r ==> *final(self) == *old(self),
            final(self).next() == old(self).next(),
            !has_id(final(self).rows(), id),
            r ==> final(self).rows().len() + 1 == old(self).rows().len(),
            r ==> exists|k: int|
                #![trigger old(self).rows()[k]]
                0 <= k < old(self).rows().len() && old(self).rows()[k].rid() == id
                    && final(self).rows() == old(self).rows().remove(k),
    {
        match self.index_of(id) {
            Some(i) => {
                let ghost o = self.rows();
                self.rows.remove(i);
                proof {
                    let k = i as int;
                    let n = self.rows();
                    o.remove_ensures(k);
                    assert(n == o.remove(k));
                    assert forall|a: int| 0 <= a < n.len() implies (#[trigger] n[a].rid()) != id
                        && n[a].rid() < self.next() by {
                        if a < k {
                            assert(n[a] == o[a]);
                            assert(o[a].rid() != o[k].rid());
                        } else {
                            assert(n[a] == o[a + 1]);
                            assert(o[k].rid() != o[a + 1].rid());
                        }
                    }
                    assert forall|a: int, b: int|
                        0 <= a < b < n.len() implies (#[trigger] n[a].rid())
                        != (#[trigger] n[b].rid()) by {
                        if b < k {
                        } else if a < k {
                            assert(n[a] == o[a] && n[b] == o[b + 1]);
                        } else {
                            assert(n[a] == o[a + 1] && n[b] == o[b + 1]);
                        }
                    }
                    assert(o[k].rid() == id);
                }
                true
            },
            None => false,
        }
    }

    /// All rows, for iteration; the view is the store's contents.
    pub fn all(&self) -> (r: &Vec<T>)
        ensures
            r@ == self.rows(),
    {
        &self.rows
    }
}

} // verus!
