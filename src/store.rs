//! The in-memory store: the records of the service in one place, with the
//! get / put / delete / scan contract of the backing store. Access from
//! several threads goes through one lock around the whole store, held by the
//! caller.
use vstd::prelude::*;

use crate::response::records;
use crate::wishlist::{Wishlist, WishlistView};

verus! {

/// No two records share an id.
pub open spec fn ids_unique(s: Seq<WishlistView>) -> bool {
    forall|i: int, j: int|
        0 <= i < s.len() && 0 <= j < s.len() && i != j ==> #[trigger] s[i].id != #[trigger] s[j].id
}

/// Some record has the id.
pub open spec fn holds_id(s: Seq<WishlistView>, id: Seq<char>) -> bool {
    exists|i: int| 0 <= i < s.len() && #[trigger] s[i].id == id
}

/// The position of the record with the id.
pub open spec fn index_of(s: Seq<WishlistView>, id: Seq<char>) -> int {
    choose|i: int| 0 <= i < s.len() && #[trigger] s[i].id == id
}

/// The record with the id, if any.
pub open spec fn find(s: Seq<WishlistView>, id: Seq<char>) -> Option<WishlistView> {
    if holds_id(s, id) {
        Some(s[index_of(s, id)])
    } else {
        None
    }
}

/// The records after writing `w`: it replaces the record with its id in
/// place, or comes last where there is none.
pub open spec fn upsert(s: Seq<WishlistView>, w: WishlistView) -> Seq<WishlistView> {
    if holds_id(s, w.id) {
        s.update(index_of(s, w.id), w)
    } else {
        s.push(w)
    }
}

/// The records after removing the one with the id, if any; the others keep
/// their order.
pub open spec fn remove_id(s: Seq<WishlistView>, id: Seq<char>) -> Seq<WishlistView> {
    if holds_id(s, id) {
        s.remove(index_of(s, id))
    } else {
        s
    }
}

/// The value of an optional record.
pub open spec fn opt_view(o: Option<Wishlist>) -> Option<WishlistView> {
    match o {
        Some(w) => Some(w@),
        None => None,
    }
}

proof fn lemma_index_unique(s: Seq<WishlistView>, i: int)
    requires
        ids_unique(s),
        0 <= i < s.len(),
    ensures
        holds_id(s, s[i].id),
        index_of(s, s[i].id) == i,
        find(s, s[i].id) == Some(s[i]),
{
    assert(s[i].id == s[i].id);
}

/// Writing keeps ids unique.
pub proof fn lemma_upsert_unique(s: Seq<WishlistView>, w: WishlistView)
    requires
        ids_unique(s),
    ensures
        ids_unique(upsert(s, w)),
        upsert(s, w).len() == s.len() || upsert(s, w).len() == s.len() + 1,
{
    if holds_id(s, w.id) {
        let k = index_of(s, w.id);
        assert(s[k].id == w.id);
    } else {
        let t = s.push(w);
        assert forall|i: int, j: int|
            0 <= i < t.len() && 0 <= j < t.len() && i != j implies #[trigger] t[i].id
            != #[trigger] t[j].id by {
            if i == s.len() as int {
                assert(s[j].id == t[j].id);
            } else if j == s.len() as int {
                assert(s[i].id == t[i].id);
            }
        }
    }
}

/// Removing keeps ids unique.
pub proof fn lemma_remove_unique(s: Seq<WishlistView>, id: Seq<char>)
    requires
        ids_unique(s),
    ensures
        ids_unique(remove_id(s, id)),
{
    if holds_id(s, id) {
        let k = index_of(s, id);
        let t = s.remove(k);
        assert forall|i: int, j: int|
            0 <= i < t.len() && 0 <= j < t.len() && i != j implies #[trigger] t[i].id
            != #[trigger] t[j].id by {
            let i2 = if i < k { i } else { i + 1 };
            let j2 = if j < k { j } else { j + 1 };
            assert(t[i] == s[i2] && t[j] == s[j2]);
        }
    }
}

/// A record that was written is read back as written.
pub proof fn lemma_get_after_put(s: Seq<WishlistView>, w: WishlistView)
    requires
        ids_unique(s),
    ensures
        find(upsert(s, w), w.id) == Some(w),
{
    lemma_upsert_unique(s, w);
    let t = upsert(s, w);
    if holds_id(s, w.id) {
        let k = index_of(s, w.id);
        assert(t[k] == w);
        lemma_index_unique(t, k);
    } else {
        assert(t[s.len() as int] == w);
        lemma_index_unique(t, s.len() as int);
    }
}

/// Writing a record leaves the records with other ids as they were.
pub proof fn lemma_put_keeps_others(s: Seq<WishlistView>, w: WishlistView, id: Seq<char>)
    requires
        ids_unique(s),
        id != w.id,
    ensures
        find(upsert(s, w), id) == find(s, id),
{
    lemma_upsert_unique(s, w);
    let t = upsert(s, w);
    if holds_id(s, id) {
        let k = index_of(s, id);
        assert(t[k] == s[k]);
        lemma_index_unique(t, k);
    }
    if holds_id(t, id) {
        let k = index_of(t, id);
        assert(k < s.len() && t[k] == s[k]);
        lemma_index_unique(s, k);
    }
}

/// After a delete no record has the id: a read finds nothing, a scan lists
/// no record with it, and a second delete finds nothing to remove.
pub proof fn lemma_delete_removes(s: Seq<WishlistView>, id: Seq<char>)
    requires
        ids_unique(s),
    ensures
        !holds_id(remove_id(s, id), id),
        find(remove_id(s, id), id) is None,
        forall|i: int| 0 <= i < remove_id(s, id).len() ==> (#[trigger] remove_id(s, id)[i]).id != id,
        remove_id(remove_id(s, id), id) == remove_id(s, id),
{
    let t = remove_id(s, id);
    if holds_id(s, id) {
        let k = index_of(s, id);
        assert forall|i: int| 0 <= i < t.len() implies (#[trigger] t[i]).id != id by {
            let i2 = if i < k { i } else { i + 1 };
            assert(t[i] == s[i2]);
            assert(s[k].id == id);
        }
    }
}

/// The records of the in-memory store.
pub struct MemoryStore {
    records: Vec<Wishlist>,
}

impl View for MemoryStore {
    type V = Seq<WishlistView>;

    closed spec fn view(&self) -> Seq<WishlistView> {
        records(self.records@)
    }
}

impl MemoryStore {
    /// The store is well formed: ids are unique.
    pub open spec fn wf(&self) -> bool {
        ids_unique(self@)
    }

    /// An empty store.
    pub fn new() -> (r: MemoryStore)
        ensures
            r.wf(),
            r@ == Seq::<WishlistView>::empty(),
    {
        let r = MemoryStore { records: Vec::new() };
        assert(r@ =~= Seq::<WishlistView>::empty());
        r
    }

    /// The position of the record with the id.
    fn position(&self, id: &str) -> (r: Option<usize>)
        requires
            self.wf(),
        ensures
            match r {
                Some(i) => i < self@.len() && holds_id(self@, id@) && index_of(self@, id@) == i,
                None => !holds_id(self@, id@),
            },
    {
        let key = id.to_string();
        let mut i: usize = 0;
        while i < self.records.len()
            invariant
                i <= self.records@.len(),
                self.wf(),
                key@ == id@,
                self@.len() == self.records@.len(),
                forall|j: int| 0 <= j < i ==> self@[j].id != id@,
            decreases self.records.len() - i,
        {
            if self.records[i].id == key {
                proof {
                    lemma_index_unique(self@, i as int);
                }
                return Some(i);
            }
            i = i + 1;
        }
        None
    }

    /// The record with the id, if any.
    pub fn get(&self, id: &str) -> (r: Option<Wishlist>)
        requires
            self.wf(),
        ensures
            opt_view(r) == find(self@, id@),
    {
        match self.position(id) {
            Some(i) => Some(self.records[i].duplicate()),
            None => None,
        }
    }

    /// Writes a record: it replaces the record with its id, or is added.
    pub fn put(&mut self, w: Wishlist)
        requires
            old(self).wf(),
        ensures
            final(self).wf(),
            final(self)@ == upsert(old(self)@, w@),
    {
        proof {
            lemma_upsert_unique(self@, w@);
        }
        match self.position(w.id.as_str()) {
            Some(i) => {
                self.records.set(i, w);
            },
            None => {
                self.records.push(w);
            },
        }
        assert(self@ =~= upsert(old(self)@, w@));
    }

    /// Removes the record with the id; tells whether there was one.
    pub fn delete(&mut self, id: &str) -> (r: bool)
        requires
            old(self).wf(),
        ensures
            final(self).wf(),
            r == holds_id(old(self)@, id@),
            final(self)@ == remove_id(old(self)@, id@),
    {
        proof {
            lemma_remove_unique(self@, id@);
        }
        match self.position(id) {
            Some(i) => {
                self.records.remove(i);
                assert(self@ =~= remove_id(old(self)@, id@));
                true
            },
            None => false,
        }
    }

    /// All records, in store order.
    pub fn scan(&self) -> (r: Vec<Wishlist>)
        ensures
            records(r@) == self@,
    {
        let mut r: Vec<Wishlist> = Vec::new();
        let mut i: usize = 0;
        while i < self.records.len()
            invariant
                i <= self.records@.len(),
                records(r@) == records(self.records@.take(i as int)),
            decreases self.records.len() - i,
        {
            r.push(self.records[i].duplicate());
            assert(records(self.records@.take(i + 1)) =~= records(self.records@.take(i as int)).push(
                self.records@[i as int]@,
            ));
            assert(records(r@) =~= records(self.records@.take(i as int)).push(self.records@[i as int]@));
            i = i + 1;
        }
        assert(self.records@.take(self.records.len() as int) =~= self.records@);
        r
    }
}

} // verus!
