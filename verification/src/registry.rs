//! The relation registry: the bookkeeping store that records a created
//! relation under a fresh opaque id, finds it again, and deletes it at
//! teardown. Modelled as a map from id to relation.

use vstd::prelude::*;
use crate::SynthError;

verus! {

/// A recorded link between two tables of one database.
#[derive(Debug, Clone)]
pub struct Relation {
    /// The database holding both tables.
    pub database: String,
    /// The table whose primary key is distributed.
    pub primary_table: String,
    /// The table that received the foreign-key column.
    pub secondary_table: String,
}

impl Relation {
    /// An equal copy.
    pub fn duplicate(&self) -> (r: Relation)
        ensures
            r == *self,
    {
        Relation {
            database: self.database.clone(),
            primary_table: self.primary_table.clone(),
            secondary_table: self.secondary_table.clone(),
        }
    }
}

/// The bookkeeping store of recorded relations, keyed by an opaque id that
/// grows monotonically.
#[derive(Debug)]
pub struct RelationRegistry {
    next_id: u64,
    entries: Vec<(u64, Relation)>,
}

/// The map an entry list denotes.
pub open spec fn spec_entries_map(es: Seq<(u64, Relation)>) -> Map<u64, Relation>
    decreases es.len(),
{
    if es.len() == 0 {
        Map::empty()
    } else {
        spec_entries_map(es.drop_last()).insert(es.last().0, es.last().1)
    }
}

/// A key absent from every entry is absent from the denoted map.
proof fn lemma_entries_map_absent(es: Seq<(u64, Relation)>, k: u64)
    requires
        forall|i: int| 0 <= i < es.len() ==> (#[trigger] es[i]).0 != k,
    ensures
        !spec_entries_map(es).contains_key(k),
    decreases es.len(),
{
    if es.len() > 0 {
        lemma_entries_map_absent(es.drop_last(), k);
    }
}

/// An entry whose key occurs nowhere later in the list gives the denoted
/// map's value at that key.
proof fn lemma_entries_map_index(es: Seq<(u64, Relation)>, i: int)
    requires
        0 <= i < es.len(),
        forall|a: int, b: int| 0 <= a < b < es.len() ==> (#[trigger] es[a]).0 != (#[trigger] es[b]).0,
    ensures
        spec_entries_map(es).contains_key(es[i].0),
        spec_entries_map(es)[es[i].0] == es[i].1,
    decreases es.len(),
{
    if i == es.len() - 1 {
    } else {
        lemma_entries_map_index(es.drop_last(), i);
        assert(es.drop_last()[i] == es[i]);
        assert(es[i].0 != es.last().0);
    }
}

/// Removing the entry at `i` removes exactly its key from the denoted map.
proof fn lemma_entries_map_remove(es: Seq<(u64, Relation)>, i: int)
    requires
        0 <= i < es.len(),
        forall|a: int, b: int| 0 <= a < b < es.len() ==> (#[trigger] es[a]).0 != (#[trigger] es[b]).0,
    ensures
        spec_entries_map(es.remove(i)) == spec_entries_map(es).remove(es[i].0),
    decreases es.len(),
{
    if i == es.len() - 1 {
        assert(es.remove(i) =~= es.drop_last());
        lemma_entries_map_absent(es.drop_last(), es[i].0);
        assert(spec_entries_map(es.drop_last()).insert(es[i].0, es[i].1).remove(es[i].0)
            =~= spec_entries_map(es.drop_last()));
    } else {
        let shorter = es.drop_last();
        lemma_entries_map_remove(shorter, i);
        assert(es.remove(i).drop_last() =~= shorter.remove(i));
        assert(es.remove(i).last() == es.last());
        assert(es[i].0 != es.last().0);
        assert(spec_entries_map(shorter).remove(es[i].0).insert(es.last().0, es.last().1)
            =~= spec_entries_map(shorter).insert(es.last().0, es.last().1).remove(es[i].0));
    }
}

impl RelationRegistry {
    /// Entry keys are strictly increasing and below the next id.
    pub closed spec fn wf(self) -> bool {
        &&& forall|a: int, b: int|
            0 <= a < b < self.entries@.len() ==> (#[trigger] self.entries@[a]).0 < (
            #[trigger] self.entries@[b]).0
        &&& forall|i: int|
            0 <= i < self.entries@.len() ==> (#[trigger] self.entries@[i]).0 < self.next_id
    }

    /// The recorded relations, keyed by id.
    pub closed spec fn spec_map(self) -> Map<u64, Relation> {
        spec_entries_map(self.entries@)
    }

    /// An empty registry.
    pub fn new() -> (r: RelationRegistry)
        ensures
            r.wf(),
            r.spec_map() == Map::<u64, Relation>::empty(),
            r.spec_ids_left() == u64::MAX as int,
    {
        RelationRegistry { next_id: 0, entries: Vec::new() }
    }

    /// How many fresh ids the registry can still hand out.
    pub closed spec fn spec_ids_left(self) -> int {
        u64::MAX - self.next_id
    }

    /// The number of recorded relations.
    pub closed spec fn spec_len(self) -> nat {
        self.entries@.len()
    }

    /// Whether a fresh id is still available.
    pub fn has_capacity(&self) -> (r: bool)
        ensures
            r == (self.spec_ids_left() > 0),
    {
        self.next_id < u64::MAX
    }

    /// How many relations are recorded.
    pub fn len(&self) -> (n: usize)
        requires
            self.wf(),
        ensures
            n as nat == self.spec_len(),
    {
        self.entries.len()
    }

    /// Records `rel` under a fresh id and returns the id.
    pub fn insert(&mut self, rel: Relation) -> (id: u64)
        requires
            old(self).wf(),
            old(self).spec_ids_left() > 0,
        ensures
            final(self).wf(),
            !old(self).spec_map().contains_key(id),
            final(self).spec_map() == old(self).spec_map().insert(id, rel),
            final(self).spec_ids_left() == old(self).spec_ids_left() - 1,
            final(self).spec_len() == old(self).spec_len() + 1,
    {
        let id = self.next_id;
        proof {
            lemma_entries_map_absent(self.entries@, id);
        }
        self.entries.push((id, rel));
        self.next_id = self.next_id + 1;
        proof {
            assert(self.entries@.drop_last() =~= old(self).entries@);
        }
        id
    }

    /// The relation recorded under `id`, when there is one.
    pub fn find(&self, id: u64) -> (r: Option<&Relation>)
        requires
            self.wf(),
        ensures
            match r {
                Some(rel) => self.spec_map().contains_key(id) && *rel == self.spec_map()[id],
                None => !self.spec_map().contains_key(id),
            },
    {
        let n = self.entries.len();
        let mut i: usize = 0;
        while i < n
            invariant
                i <= n,
                n == self.entries@.len(),
                self.wf(),
                forall|j: int| 0 <= j < i ==> (#[trigger] self.entries@[j]).0 != id,
            decreases n - i,
        {
            if self.entries[i].0 == id {
                proof {
                    lemma_entries_map_index(self.entries@, i as int);
                }
                return Some(&self.entries[i].1);
            }
            i += 1;
        }
        proof {
            lemma_entries_map_absent(self.entries@, id);
        }
        None
    }

    /// Deletes the relation recorded under `id` and returns it; reports
    /// `RelationNotFound`, changing nothing, when no relation has that id.
    pub fn remove(&mut self, id: u64) -> (r: Result<Relation, SynthError>)
        requires
            old(self).wf(),
        ensures
            final(self).wf(),
            match r {
                Ok(rel) => old(self).spec_map().contains_key(id) && rel == old(self).spec_map()[id]
                    && final(self).spec_map() == old(self).spec_map().remove(id)
                    && final(self).spec_len() == old(self).spec_len() - 1,
                Err(e) => e == SynthError::RelationNotFound && !old(self).spec_map().contains_key(
                    id,
                ) && *final(self) == *old(self),
            },
            final(self).spec_ids_left() == old(self).spec_ids_left(),
    {
        let n = self.entries.len();
        let mut i: usize = 0;
        while i < n
            invariant
                i <= n,
                n == self.entries@.len(),
                self.wf(),
                self == old(self),
                forall|j: int| 0 <= j < i ==> (#[trigger] self.entries@[j]).0 != id,
            decreases n - i,
        {
            if self.entries[i].0 == id {
                proof {
                    lemma_entries_map_index(self.entries@, i as int);
                    lemma_entries_map_remove(self.entries@, i as int);
                }
                let entry = self.entries.remove(i);
                proof {
                    assert forall|a: int, b: int|
                        0 <= a < b < self.entries@.len() implies (#[trigger] self.entries@[a]).0 < (
                    #[trigger] self.entries@[b]).0 by {
                        let olda = if a < i { a } else { a + 1 };
                        let oldb = if b < i { b } else { b + 1 };
                        assert(self.entries@[a] == old(self).entries@[olda]);
                        assert(self.entries@[b] == old(self).entries@[oldb]);
                    }
                    assert forall|j: int| 0 <= j < self.entries@.len() implies (
                    #[trigger] self.entries@[j]).0 < self.next_id by {
                        let oldj = if j < i { j } else { j + 1 };
                        assert(self.entries@[j] == old(self).entries@[oldj]);
                    }
                }
                return Ok(entry.1);
            }
            i += 1;
        }
        proof {
            lemma_entries_map_absent(self.entries@, id);
        }
        Err(SynthError::RelationNotFound)
    }
}

} // verus!
