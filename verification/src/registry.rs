//! The registry of workers, keyed by worker id.

use vstd::prelude::*;

use crate::worker::{WorkerInfo, WorkerInfoView};

verus! {

/// `str`'s `==` compares two strings character by character: it holds
/// exactly when both are the same text.
pub assume_specification[ <str as PartialEq>::eq ](a: &str, b: &str) -> (same: bool)
    ensures
        same == (a@ == b@),
;

/// One registered worker: its id and its record.
struct WorkerEntry {
    id: String,
    info: WorkerInfo,
}

/// Whether some entry carries `id`.
spec fn holds(entries: Seq<WorkerEntry>, id: Seq<char>) -> bool {
    exists|i: int| 0 <= i < entries.len() && entries[i].id@ == id
}

/// The place of the entry that carries `id`; meaningful when there is one.
spec fn slot_of(entries: Seq<WorkerEntry>, id: Seq<char>) -> int {
    choose|i: int| 0 <= i < entries.len() && entries[i].id@ == id
}

/// Whether no two entries carry the same id.
spec fn distinct(entries: Seq<WorkerEntry>) -> bool {
    forall|i: int, j: int| 0 <= i < j < entries.len() ==> entries[i].id@ != entries[j].id@
}

/// The map from ids to records that the entries stand for.
spec fn map_of(entries: Seq<WorkerEntry>) -> Map<Seq<char>, WorkerInfoView> {
    Map::new(|id: Seq<char>| holds(entries, id), |id: Seq<char>| entries[slot_of(entries, id)].info@)
}

/// The ids of the entries, in their order.
spec fn ids_of(entries: Seq<WorkerEntry>) -> Seq<Seq<char>> {
    Seq::new(entries.len(), |i: int| entries[i].id@)
}

proof fn lemma_slot(entries: Seq<WorkerEntry>, i: int)
    requires
        distinct(entries),
        0 <= i < entries.len(),
    ensures
        holds(entries, entries[i].id@),
        slot_of(entries, entries[i].id@) == i,
        map_of(entries).contains_key(entries[i].id@),
        map_of(entries)[entries[i].id@] == entries[i].info@,
{
    let id = entries[i].id@;
    assert(holds(entries, id));
    let s = slot_of(entries, id);
    if s < i {
        assert(entries[s].id@ != entries[i].id@);
    } else if i < s {
        assert(entries[i].id@ != entries[s].id@);
    }
}

proof fn lemma_push(entries: Seq<WorkerEntry>, entry: WorkerEntry)
    requires
        distinct(entries),
        !holds(entries, entry.id@),
    ensures
        distinct(entries.push(entry)),
        map_of(entries.push(entry)) == map_of(entries).insert(entry.id@, entry.info@),
{
    let after = entries.push(entry);
    assert forall|i: int, j: int| 0 <= i < j < after.len() implies after[i].id@ != after[j].id@ by {
        if j < entries.len() {
            assert(entries[i].id@ != entries[j].id@);
        } else {
            assert(entries[i].id@ == after[i].id@);
        }
    }
    assert forall|id: Seq<char>|
        map_of(after).contains_key(id) <==> #[trigger] map_of(entries).insert(
            entry.id@,
            entry.info@,
        ).contains_key(id) by {
        if holds(after, id) {
            let s = slot_of(after, id);
            if s < entries.len() {
                assert(entries[s].id@ == id);
            }
        }
        if holds(entries, id) {
            let s = slot_of(entries, id);
            assert(after[s].id@ == id);
        }
        if id == entry.id@ {
            assert(after[entries.len() as int].id@ == id);
        }
    }
    assert forall|id: Seq<char>| map_of(after).contains_key(id) implies #[trigger] map_of(
        after,
    )[id] == map_of(entries).insert(entry.id@, entry.info@)[id] by {
        let s = slot_of(after, id);
        lemma_slot(after, s);
        if s < entries.len() {
            lemma_slot(entries, s);
        }
    }
    assert(map_of(after) =~= map_of(entries).insert(entry.id@, entry.info@));
}

proof fn lemma_update(entries: Seq<WorkerEntry>, i: int, entry: WorkerEntry)
    requires
        distinct(entries),
        0 <= i < entries.len(),
        entry.id@ == entries[i].id@,
    ensures
        distinct(entries.update(i, entry)),
        ids_of(entries.update(i, entry)) == ids_of(entries),
        map_of(entries.update(i, entry)) == map_of(entries).insert(entry.id@, entry.info@),
{
    let after = entries.update(i, entry);
    assert forall|a: int, b: int| 0 <= a < b < after.len() implies after[a].id@ != after[b].id@ by {
        assert(entries[a].id@ != entries[b].id@);
    }
    assert(ids_of(after) =~= ids_of(entries));
    assert forall|id: Seq<char>|
        map_of(after).contains_key(id) <==> #[trigger] map_of(entries).insert(
            entry.id@,
            entry.info@,
        ).contains_key(id) by {
        if holds(after, id) {
            let s = slot_of(after, id);
            assert(entries[s].id@ == id);
        }
        if holds(entries, id) {
            let s = slot_of(entries, id);
            assert(after[s].id@ == id);
        }
        if id == entry.id@ {
            assert(after[i].id@ == id);
        }
    }
    assert forall|id: Seq<char>| map_of(after).contains_key(id) implies #[trigger] map_of(
        after,
    )[id] == map_of(entries).insert(entry.id@, entry.info@)[id] by {
        let s = slot_of(after, id);
        lemma_slot(after, s);
        lemma_slot(entries, s);
    }
    assert(map_of(after) =~= map_of(entries).insert(entry.id@, entry.info@));
}

proof fn lemma_remove(entries: Seq<WorkerEntry>, i: int)
    requires
        distinct(entries),
        0 <= i < entries.len(),
    ensures
        distinct(entries.remove(i)),
        map_of(entries.remove(i)) == map_of(entries).remove(entries[i].id@),
{
    let after = entries.remove(i);
    let gone = entries[i].id@;
    assert forall|a: int, b: int| 0 <= a < b < after.len() implies after[a].id@ != after[b].id@ by {
        let a0 = if a < i { a } else { a + 1 };
        let b0 = if b < i { b } else { b + 1 };
        assert(entries[a0].id@ != entries[b0].id@);
    }
    assert forall|id: Seq<char>|
        map_of(after).contains_key(id) <==> #[trigger] map_of(entries).remove(gone).contains_key(
            id,
        ) by {
        if holds(after, id) {
            let s = slot_of(after, id);
            let s0 = if s < i { s } else { s + 1 };
            assert(entries[s0].id@ == id);
            if s0 < i {
                assert(entries[s0].id@ != entries[i].id@);
            } else {
                assert(entries[i].id@ != entries[s0].id@);
            }
        }
        if holds(entries, id) && id != gone {
            let s = slot_of(entries, id);
            let s1 = if s < i { s } else { s - 1 };
            assert(after[s1].id@ == id);
        }
    }
    assert forall|id: Seq<char>| map_of(after).contains_key(id) implies #[trigger] map_of(
        after,
    )[id] == map_of(entries).remove(gone)[id] by {
        let s = slot_of(after, id);
        let s0 = if s < i { s } else { s + 1 };
        lemma_slot(after, s);
        lemma_slot(entries, s0);
    }
    assert(map_of(after) =~= map_of(entries).remove(gone));
}

/// The workers that are registered, each under its id. No id occurs twice.
pub struct WorkerRegistry {
    entries: Vec<WorkerEntry>,
}

impl View for WorkerRegistry {
    type V = Map<Seq<char>, WorkerInfoView>;

    closed spec fn view(&self) -> Map<Seq<char>, WorkerInfoView> {
        map_of(self.entries@)
    }
}

impl WorkerRegistry {
    /// Whether the registry is well formed: no id is registered twice.
    pub closed spec fn wf(&self) -> bool {
        distinct(self.entries@)
    }

    /// The registered ids in the order in which `id_at` and `info_at` walk
    /// them. The order carries no meaning.
    pub closed spec fn order(&self) -> Seq<Seq<char>> {
        ids_of(self.entries@)
    }

    /// An empty registry.
    pub fn new() -> (registry: Self)
        ensures
            registry.wf(),
            registry@ == Map::<Seq<char>, WorkerInfoView>::empty(),
            registry.order().len() == 0,
    {
        let registry = WorkerRegistry { entries: Vec::new() };
        assert(registry@ =~= Map::<Seq<char>, WorkerInfoView>::empty());
        registry
    }

    fn find(&self, id: &str) -> (slot: Option<usize>)
        ensures
            match slot {
                Some(i) => i < self.entries@.len() && self.entries@[i as int].id@ == id@,
                None => !holds(self.entries@, id@),
            },
    {
        let mut i: usize = 0;
        while i < self.entries.len()
            invariant
                i <= self.entries@.len(),
                forall|j: int| 0 <= j < i ==> self.entries@[j].id@ != id@,
            decreases self.entries@.len() - i,
        {
            if *self.entries[i].id.as_str() == *id {
                return Some(i);
            }
            i += 1;
        }
        None
    }

    /// Whether a worker is registered under `id`.
    pub fn contains_key(&self, id: &str) -> (present: bool)
        requires
            self.wf(),
        ensures
            present == self@.contains_key(id@),
    {
        let slot = self.find(id);
        proof {
            if let Some(i) = slot {
                assert(holds(self.entries@, id@));
            }
        }
        slot.is_some()
    }

    /// Registers `info` under `id` unless the id is taken; says whether it
    /// did. A taken id keeps its record.
    pub fn insert_new(&mut self, id: String, info: WorkerInfo) -> (added: bool)
        requires
            old(self).wf(),
        ensures
            final(self).wf(),
            added == !old(self)@.contains_key(id@),
            added ==> final(self)@ == old(self)@.insert(id@, info@),
            !added ==> final(self)@ == old(self)@ && final(self).order() == old(self).order(),
    {
        match self.find(id.as_str()) {
            Some(i) => {
                assert(holds(self.entries@, id@));
                false
            },
            None => {
                let entry = WorkerEntry { id, info };
                proof {
                    lemma_push(self.entries@, entry);
                }
                self.entries.push(entry);
                true
            },
        }
    }

    /// The record registered under `id`.
    pub fn get(&self, id: &str) -> (found: Option<&WorkerInfo>)
        requires
            self.wf(),
        ensures
            match found {
                Some(info) => self@.contains_key(id@) && self@[id@] == info@,
                None => !self@.contains_key(id@),
            },
    {
        match self.find(id) {
            Some(i) => {
                proof {
                    lemma_slot(self.entries@, i as int);
                }
                Some(&self.entries[i].info)
            },
            None => None,
        }
    }

    /// The record registered under `id`, to be changed in place. Whatever the
    /// caller leaves in it is what the registry then holds under `id`.
    pub fn get_mut(&mut self, id: &str) -> (found: Option<&mut WorkerInfo>)
        requires
            old(self).wf(),
        ensures
            final(self).wf(),
            match found {
                Some(info) => {
                    &&& old(self)@.contains_key(id@)
                    &&& old(self)@[id@] == info@
                    &&& final(self)@ == old(self)@.insert(id@, final(info)@)
                    &&& final(self).order() == old(self).order()
                },
                None => {
                    &&& !old(self)@.contains_key(id@)
                    &&& final(self)@ == old(self)@
                    &&& final(self).order() == old(self).order()
                },
            },
    {
        match self.find(id) {
            Some(i) => {
                proof {
                    lemma_slot(self.entries@, i as int);
                    assert forall|entry: WorkerEntry| entry.id@ == self.entries@[i as int].id@ implies
                        #[trigger] map_of(self.entries@.update(i as int, entry)) == map_of(
                        self.entries@,
                    ).insert(id@, entry.info@) && ids_of(self.entries@.update(i as int, entry))
                        == ids_of(self.entries@) && distinct(self.entries@.update(i as int, entry)) by {
                        lemma_update(self.entries@, i as int, entry);
                    }
                }
                Some(&mut self.entries[i].info)
            },
            None => None,
        }
    }

    /// Takes the record registered under `id` out of the registry.
    pub fn remove(&mut self, id: &str) -> (removed: Option<WorkerInfo>)
        requires
            old(self).wf(),
        ensures
            final(self).wf(),
            final(self)@ == old(self)@.remove(id@),
            match removed {
                Some(info) => old(self)@.contains_key(id@) && old(self)@[id@] == info@,
                None => !old(self)@.contains_key(id@),
            },
    {
        match self.find(id) {
            Some(i) => {
                proof {
                    lemma_slot(self.entries@, i as int);
                    lemma_remove(self.entries@, i as int);
                }
                let entry = self.entries.remove(i);
                Some(entry.info)
            },
            None => {
                assert(self@.remove(id@) =~= self@);
                None
            },
        }
    }

    /// How many workers are registered. The ids in `order()` are these
    /// workers' ids, each once.
    pub fn len(&self) -> (n: usize)
        requires
            self.wf(),
        ensures
            n == self.order().len(),
            self.order().no_duplicates(),
            forall|id: Seq<char>| self@.contains_key(id) <==> self.order().contains(id),
    {
        proof {
            assert forall|id: Seq<char>| self@.contains_key(id) implies self.order().contains(
                id,
            ) by {
                let s = slot_of(self.entries@, id);
                assert(self.order()[s] == id);
            }
            assert forall|id: Seq<char>| self.order().contains(id) implies self@.contains_key(
                id,
            ) by {
                let s = choose|s: int| 0 <= s < self.order().len() && self.order()[s] == id;
                assert(self.entries@[s].id@ == id);
            }
        }
        self.entries.len()
    }

    /// The id of the `i`-th registered worker.
    pub fn id_at(&self, i: usize) -> (id: &String)
        requires
            i < self.order().len(),
        ensures
            id@ == self.order()[i as int],
    {
        &self.entries[i].id
    }

    /// The record of the `i`-th registered worker.
    pub fn info_at(&self, i: usize) -> (info: &WorkerInfo)
        requires
            self.wf(),
            i < self.order().len(),
        ensures
            self@.contains_key(self.order()[i as int]),
            info@ == self@[self.order()[i as int]],
    {
        proof {
            lemma_slot(self.entries@, i as int);
        }
        &self.entries[i].info
    }
}

} // verus!
