//! A table of entries keyed by task ID, each ID at most once.
use vstd::prelude::*;

verus! {

/// The IDs of a sequence of entries.
pub open spec fn ids_of<V>(entries: Seq<(u64, V)>) -> Seq<u64> {
    entries.map_values(|e: (u64, V)| e.0)
}

/// The index of the entry for `id`.
pub open spec fn index_of_id<V>(entries: Seq<(u64, V)>, id: u64) -> int {
    ids_of(entries).index_of(id)
}

/// The entries after inserting `value` under `id`: an existing entry for `id`
/// is replaced in place, otherwise the new entry is appended.
pub open spec fn inserted<V>(entries: Seq<(u64, V)>, id: u64, value: V) -> Seq<(u64, V)> {
    if ids_of(entries).contains(id) {
        entries.update(index_of_id(entries, id), (id, value))
    } else {
        entries.push((id, value))
    }
}

/// The entries after removing the one for `id`, if any; the others keep their
/// order.
pub open spec fn removed<V>(entries: Seq<(u64, V)>, id: u64) -> Seq<(u64, V)> {
    if ids_of(entries).contains(id) {
        entries.remove(index_of_id(entries, id))
    } else {
        entries
    }
}

/// The value stored under `id`, if any.
pub open spec fn lookup<V>(entries: Seq<(u64, V)>, id: u64) -> Option<V> {
    if ids_of(entries).contains(id) {
        Some(entries[index_of_id(entries, id)].1)
    } else {
        None
    }
}

/// A table of entries keyed by task ID.
#[derive(Debug)]
pub struct TaskTable<V> {
    entries: Vec<(u64, V)>,
}

impl<V> TaskTable<V> {
    /// No ID occurs twice.
    pub closed spec fn wf(&self) -> bool {
        ids_of(self.entries@).no_duplicates()
    }

    /// The entries, in insertion order.
    pub closed spec fn spec_entries(&self) -> Seq<(u64, V)> {
        self.entries@
    }

    /// The IDs of the entries, in insertion order.
    pub open spec fn spec_ids(&self) -> Seq<u64> {
        ids_of(self.spec_entries())
    }

    /// An empty table.
    pub fn new() -> (t: Self)
        ensures
            t.wf(),
            t.spec_entries() == Seq::<(u64, V)>::empty(),
    {
        TaskTable { entries: Vec::new() }
    }

    /// The number of entries.
    pub fn len(&self) -> (n: usize)
        ensures
            n == self.spec_entries().len(),
    {
        self.entries.len()
    }

    /// The index of the entry for `id`.
    fn position(&self, id: u64) -> (idx: Option<usize>)
        requires
            self.wf(),
        ensures
            idx is None <==> !self.spec_ids().contains(id),
            idx matches Some(i) ==> i == index_of_id(self.spec_entries(), id) && i
                < self.spec_entries().len() && self.spec_entries()[i as int].0 == id,
    {
        let n = self.entries.len();
        let mut i: usize = 0;
        let ghost ids = self.spec_ids();
        while i < n
            invariant
                n == self.entries@.len(),
                ids == ids_of(self.entries@),
                ids.no_duplicates(),
                i <= n,
                forall|j: int| 0 <= j < i ==> ids[j] != id,
            decreases n - i,
        {
            if self.entries[i].0 == id {
                proof {
                    assert(ids[i as int] == id);
                    assert(ids.contains(id));
                    let k = ids.index_of(id);
                    assert(ids[k] == id);
                    assert(k == i);
                }
                return Some(i);
            }
            i = i + 1;
        }
        proof {
            if ids.contains(id) {
                let k = choose|k: int| 0 <= k < ids.len() && ids[k] == id;
                assert(ids[k] == id);
            }
        }
        None
    }

    /// Whether there is an entry for `id`.
    pub fn contains(&self, id: u64) -> (b: bool)
        requires
            self.wf(),
        ensures
            b == self.spec_ids().contains(id),
    {
        self.position(id).is_some()
    }

    /// Store `value` under `id`, replacing any earlier entry for `id`.
    pub fn insert(&mut self, id: u64, value: V)
        requires
            old(self).wf(),
        ensures
            final(self).wf(),
            final(self).spec_entries() == inserted(old(self).spec_entries(), id, value),
    {
        let ghost old_entries = self.entries@;
        match self.position(id) {
            Some(i) => {
                self.entries.set(i, (id, value));
                proof {
                    assert(ids_of(self.entries@) =~= ids_of(old_entries));
                }
            },
            None => {
                self.entries.push((id, value));
                proof {
                    let ids = ids_of(old_entries);
                    let nids = ids_of(self.entries@);
                    assert(nids =~= ids.push(id));
                    assert forall|a: int, b: int|
                        0 <= a < nids.len() && 0 <= b < nids.len() && a != b implies nids[a]
                        != nids[b] by {
                        if a < ids.len() && b < ids.len() {
                            assert(nids[a] == ids[a] && nids[b] == ids[b]);
                        } else if a == ids.len() {
                            assert(nids[b] == ids[b]);
                        } else {
                            assert(nids[a] == ids[a]);
                        }
                    }
                }
            },
        }
    }

    /// Remove and return the entry for `id`, if any.
    pub fn remove(&mut self, id: u64) -> (v: Option<V>)
        requires
            old(self).wf(),
        ensures
            final(self).wf(),
            final(self).spec_entries() == removed(old(self).spec_entries(), id),
            v == lookup(old(self).spec_entries(), id),
    {
        let ghost old_entries = self.entries@;
        match self.position(id) {
            Some(i) => {
                let (_, value) = self.entries.remove(i);
                proof {
                    let ids = ids_of(old_entries);
                    let nids = ids_of(self.entries@);
                    assert(nids =~= ids.remove(i as int));
                    assert forall|a: int, b: int|
                        0 <= a < nids.len() && 0 <= b < nids.len() && a != b implies nids[a]
                        != nids[b] by {
                        let sa = if a < i { a } else { a + 1 };
                        let sb = if b < i { b } else { b + 1 };
                        assert(nids[a] == ids[sa]);
                        assert(nids[b] == ids[sb]);
                    }
                }
                Some(value)
            },
            None => None,
        }
    }

    /// Remove and return all entries, in insertion order.
    pub fn drain(&mut self) -> (all: Vec<(u64, V)>)
        requires
            old(self).wf(),
        ensures
            final(self).wf(),
            final(self).spec_entries() == Seq::<(u64, V)>::empty(),
            all@ == old(self).spec_entries(),
    {
        let mut all: Vec<(u64, V)> = Vec::new();
        core::mem::swap(&mut all, &mut self.entries);
        proof {
            assert(ids_of(self.entries@) =~= Seq::<u64>::empty());
        }
        all
    }
}

/// Inserting an entry and then removing it gives back the inserted value, and
/// leaves the other entries as they were, in their order.
pub proof fn law_insert_then_remove<V>(entries: Seq<(u64, V)>, id: u64, value: V)
    requires
        ids_of(entries).no_duplicates(),
        !ids_of(entries).contains(id),
    ensures
        lookup(inserted(entries, id, value), id) == Some(value),
        removed(inserted(entries, id, value), id) == entries,
{
    let after = inserted(entries, id, value);
    assert(after == entries.push((id, value)));
    let ids = ids_of(entries);
    let aids = ids_of(after);
    assert(aids =~= ids.push(id));
    assert(aids[ids.len() as int] == id);
    assert(aids.contains(id));
    let k = aids.index_of(id);
    assert(aids[k] == id);
    if k < ids.len() {
        assert(ids[k] == id);
    }
    assert(k == ids.len());
    assert(after.remove(k) =~= entries);
}

/// Removing an ID leaves no entry for it.
pub proof fn law_remove_forgets<V>(entries: Seq<(u64, V)>, id: u64)
    requires
        ids_of(entries).no_duplicates(),
    ensures
        !ids_of(removed(entries, id)).contains(id),
        lookup(removed(entries, id), id) is None,
{
    let ids = ids_of(entries);
    if ids.contains(id) {
        let i = ids.index_of(id);
        assert(ids[i] == id);
        let r = entries.remove(i);
        let rids = ids_of(r);
        assert(rids =~= ids.remove(i));
        if rids.contains(id) {
            let a = choose|a: int| 0 <= a < rids.len() && rids[a] == id;
            let sa = if a < i { a } else { a + 1 };
            assert(ids[sa] == id);
        }
    }
}

/// Removing one ID leaves the entry of every other ID as it was.
pub proof fn law_remove_keeps_others<V>(entries: Seq<(u64, V)>, id: u64, other: u64)
    requires
        ids_of(entries).no_duplicates(),
        other != id,
    ensures
        lookup(removed(entries, id), other) == lookup(entries, other),
        ids_of(removed(entries, id)).no_duplicates(),
{
    let ids = ids_of(entries);
    if ids.contains(id) {
        let i = ids.index_of(id);
        assert(ids[i] == id);
        let r = entries.remove(i);
        let rids = ids_of(r);
        assert(rids =~= ids.remove(i));
        assert forall|a: int, b: int| 0 <= a < rids.len() && 0 <= b < rids.len() && a != b implies rids[a]
            != rids[b] by {
            let sa = if a < i { a } else { a + 1 };
            let sb = if b < i { b } else { b + 1 };
            assert(rids[a] == ids[sa] && rids[b] == ids[sb]);
        }
        if ids.contains(other) {
            let k = ids.index_of(other);
            assert(ids[k] == other);
            assert(k != i);
            let rk = if k < i { k } else { k - 1 };
            assert(rids[rk] == other);
            assert(rids.contains(other));
            let rk2 = rids.index_of(other);
            assert(rids[rk2] == other);
            assert(rk2 == rk);
            assert(r[rk] == entries[k]);
        } else {
            if rids.contains(other) {
                let a = choose|a: int| 0 <= a < rids.len() && rids[a] == other;
                let sa = if a < i { a } else { a + 1 };
                assert(ids[sa] == other);
            }
        }
    }
}

/// Inserting under one ID stores exactly the given value there, and leaves
/// the entry of every other ID as it was.
pub proof fn law_insert_stores_and_keeps_others<V>(
    entries: Seq<(u64, V)>,
    id: u64,
    value: V,
    other: u64,
)
    requires
        ids_of(entries).no_duplicates(),
        other != id,
    ensures
        lookup(inserted(entries, id, value), id) == Some(value),
        lookup(inserted(entries, id, value), other) == lookup(entries, other),
{
    let ids = ids_of(entries);
    let ins = inserted(entries, id, value);
    let nids = ids_of(ins);
    if ids.contains(id) {
        let i = ids.index_of(id);
        assert(ids[i] == id);
        assert(nids =~= ids);
        assert(nids.index_of(id) == i);
        if ids.contains(other) {
            let k = ids.index_of(other);
            assert(ids[k] == other);
            assert(nids.index_of(other) == k);
        }
    } else {
        assert(nids =~= ids.push(id));
        assert(nids[ids.len() as int] == id);
        let k0 = nids.index_of(id);
        assert(nids[k0] == id);
        if k0 < ids.len() {
            assert(ids[k0] == id);
        }
        if ids.contains(other) {
            let k = ids.index_of(other);
            assert(ids[k] == other);
            assert(nids[k] == other);
            let k2 = nids.index_of(other);
            assert(nids[k2] == other);
            if k2 < ids.len() {
                assert(ids[k2] == other);
            }
        } else {
            if nids.contains(other) {
                let a = choose|a: int| 0 <= a < nids.len() && nids[a] == other;
                if a < ids.len() {
                    assert(ids[a] == other);
                }
            }
        }
    }
}

} // verus!
