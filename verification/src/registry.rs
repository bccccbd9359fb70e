//! A store of values keyed by identifier, where the last write wins.

use vstd::prelude::*;

verus! {

/// A value that can be copied without changing what it stands for.
pub trait Record: View + Sized {
    fn duplicate(&self) -> (copy: Self)
        ensures
            copy@ == self@,
    ;
}

/// One identifier with the value stored under it.
#[derive(Debug)]
pub struct Entry<V> {
    pub id: String,
    pub value: V,
}

/// An identifier-keyed store. Its view is the map from each identifier's
/// text to the view of the value last stored under it.
#[derive(Debug)]
pub struct Registry<V> {
    entries: Vec<Entry<V>>,
}

/// No identifier occurs twice among `entries`.
pub open spec fn distinct_ids<V>(entries: Seq<Entry<V>>) -> bool {
    forall|i: int, j: int|
        0 <= i < entries.len() && 0 <= j < entries.len() && (#[trigger] entries[i]).id@ == (
        #[trigger] entries[j]).id@ ==> i == j
}

/// The position at which `id` is held among `entries`, if it is held.
pub open spec fn position_of<V>(entries: Seq<Entry<V>>, id: Seq<char>) -> int {
    choose|i: int| 0 <= i < entries.len() && (#[trigger] entries[i]).id@ == id
}

/// Whether `id` is held among `entries`.
pub open spec fn holds_id<V>(entries: Seq<Entry<V>>, id: Seq<char>) -> bool {
    exists|i: int| 0 <= i < entries.len() && (#[trigger] entries[i]).id@ == id
}

/// The map that a list of entries with distinct identifiers stands for.
pub open spec fn entries_map<V: View>(entries: Seq<Entry<V>>) -> Map<Seq<char>, V::V> {
    Map::new(
        |id: Seq<char>| holds_id(entries, id),
        |id: Seq<char>| entries[position_of(entries, id)].value@,
    )
}

impl<V: View> View for Registry<V> {
    type V = Map<Seq<char>, V::V>;

    closed spec fn view(&self) -> Map<Seq<char>, V::V> {
        entries_map(self.entries@)
    }
}

impl<V> Registry<V> {
    #[verifier::type_invariant]
    spec fn unique(&self) -> bool {
        distinct_ids(self.entries@)
    }
}

impl<V: View> Registry<V> {
    /// An empty store.
    pub fn new() -> (registry: Self)
        ensures
            registry@ == Map::<Seq<char>, V::V>::empty(),
    {
        let registry = Registry { entries: Vec::new() };
        assert(registry@ =~= Map::<Seq<char>, V::V>::empty());
        registry
    }

    fn find(&self, id: &String) -> (found: Option<usize>)
        ensures
            match found {
                Some(i) => i < self.entries@.len() && self.entries@[i as int].id@ == id@,
                None => !holds_id(self.entries@, id@),
            },
    {
        let mut i: usize = 0;
        while i < self.entries.len()
            invariant
                i <= self.entries@.len(),
                forall|j: int| 0 <= j < i ==> (#[trigger] self.entries@[j]).id@ != id@,
            decreases self.entries@.len() - i,
        {
            if self.entries[i].id == *id {
                return Some(i);
            }
            i = i + 1;
        }
        None
    }

    /// Whether a value is stored under `id`.
    pub fn contains_key(&self, id: &String) -> (held: bool)
        ensures
            held == self@.contains_key(id@),
    {
        self.find(id).is_some()
    }

    /// The value stored under `id`, if there is one.
    pub fn get(&self, id: &String) -> (found: Option<&V>)
        ensures
            match found {
                Some(value) => self@.contains_key(id@) && value@ == self@[id@],
                None => !self@.contains_key(id@),
            },
    {
        proof {
            use_type_invariant(self);
        }
        match self.find(id) {
            Some(i) => Some(&self.entries[i].value),
            None => None,
        }
    }

    /// Stores `value` under `id`, in place of what was stored under it before.
    pub fn insert(&mut self, id: String, value: V)
        ensures
            final(self)@ == old(self)@.insert(id@, value@),
    {
        proof {
            use_type_invariant(&*self);
        }
        let found = self.find(&id);
        let mut taken = Registry { entries: Vec::new() };
        std::mem::swap(self, &mut taken);
        let mut entries = taken.entries;
        let ghost before = entries@;
        match found {
            Some(i) => {
                entries.set(i, Entry { id, value });
                proof {
                    let after = entries@;
                    assert forall|k: Seq<char>| holds_id(after, k) <==> holds_id(before, k) by {
                        if holds_id(after, k) {
                            let j = position_of(after, k);
                            assert(before[j].id@ == k);
                        }
                        if holds_id(before, k) {
                            let j = position_of(before, k);
                            assert(after[j].id@ == k);
                        }
                    }
                    assert(holds_id(before, id@));
                    assert(entries_map(after) =~= entries_map(before).insert(id@, value@));
                }
            },
            None => {
                entries.push(Entry { id, value });
                proof {
                    let after = entries@;
                    let n = before.len() as int;
                    assert(after[n].id@ == id@);
                    assert forall|k: Seq<char>| holds_id(after, k) <==> (holds_id(before, k) || k
                        == id@) by {
                        if holds_id(after, k) {
                            let j = position_of(after, k);
                            if j < n {
                                assert(before[j].id@ == k);
                            }
                        }
                        if holds_id(before, k) {
                            let j = position_of(before, k);
                            assert(after[j].id@ == k);
                        }
                    }
                    assert forall|k: Seq<char>| holds_id(before, k) implies entries_map(after)[k]
                        == entries_map(before)[k] by {
                        let j = position_of(before, k);
                        assert(after[j].id@ == k);
                    }
                    assert(entries_map(after) =~= entries_map(before).insert(id@, value@));
                }
            },
        }
        *self = Registry { entries };
    }
}

/// The identifiers named by `ids`, as a set of texts.
pub open spec fn id_set(ids: Seq<&str>) -> Set<Seq<char>> {
    Set::new(|id: Seq<char>| exists|i: int| 0 <= i < ids.len() && (#[trigger] ids[i])@ == id)
}

/// Two lists that agree entry by entry on identifier and on the view of the
/// value stand for the same map.
proof fn lemma_same_entries_same_map<V: View>(a: Seq<Entry<V>>, b: Seq<Entry<V>>)
    requires
        a.len() == b.len(),
        distinct_ids(a),
        forall|i: int|
            0 <= i < a.len() ==> (#[trigger] a[i]).id@ == b[i].id@ && a[i].value@ == b[i].value@,
    ensures
        distinct_ids(b),
        entries_map(a) == entries_map(b),
{
    assert forall|i: int, j: int|
        0 <= i < b.len() && 0 <= j < b.len() && (#[trigger] b[i]).id@ == (#[trigger] b[j]).id@
        implies i == j by {
        assert(a[i].id@ == a[j].id@);
    }
    assert forall|k: Seq<char>| holds_id(a, k) <==> holds_id(b, k) by {
        if holds_id(a, k) {
            let i = position_of(a, k);
            assert(b[i].id@ == k);
        }
        if holds_id(b, k) {
            let i = position_of(b, k);
            assert(a[i].id@ == k);
        }
    }
    assert forall|k: Seq<char>| holds_id(a, k) implies entries_map(a)[k] == entries_map(b)[k] by {
        let i = position_of(a, k);
        let j = position_of(b, k);
        assert(b[i].id@ == k);
        assert(i == j);
    }
    assert(entries_map(a) =~= entries_map(b));
}

impl<V: Record> Record for Registry<V> {
    fn duplicate(&self) -> (copy: Self) {
        proof {
            use_type_invariant(self);
        }
        let mut entries: Vec<Entry<V>> = Vec::new();
        let mut i: usize = 0;
        while i < self.entries.len()
            invariant
                i <= self.entries@.len(),
                entries@.len() == i,
                forall|j: int|
                    0 <= j < i ==> (#[trigger] self.entries@[j]).id@ == entries@[j].id@
                        && self.entries@[j].value@ == entries@[j].value@,
            decreases self.entries@.len() - i,
        {
            let entry = &self.entries[i];
            entries.push(Entry { id: entry.id.clone(), value: entry.value.duplicate() });
            i = i + 1;
        }
        proof {
            lemma_same_entries_same_map(self.entries@, entries@);
        }
        Registry { entries }
    }
}

impl<V: Record> Registry<V> {
    /// A store of copies of what is stored under each of `ids`.
    pub fn select(&self, ids: &Vec<&str>) -> (chosen: Self)
        requires
            forall|i: int| 0 <= i < ids@.len() ==> self@.contains_key((#[trigger] ids@[i])@),
        ensures
            chosen@ == self@.restrict(id_set(ids@)),
    {
        let mut chosen: Registry<V> = Registry::new();
        let mut i: usize = 0;
        while i < ids.len()
            invariant
                i <= ids@.len(),
                forall|j: int| 0 <= j < ids@.len() ==> self@.contains_key((#[trigger] ids@[j])@),
                chosen@ == self@.restrict(id_set(ids@.subrange(0, i as int))),
            decreases ids@.len() - i,
        {
            let id = ids[i].to_owned();
            let value = match self.get(&id) {
                Some(value) => value,
                None => vstd::pervasive::unreached(),
            };
            chosen.insert(id, value.duplicate());
            proof {
                let shorter = ids@.subrange(0, i as int);
                let longer = ids@.subrange(0, i + 1);
                let key = ids@[i as int]@;
                assert(longer[i as int]@ == key);
                assert forall|k: Seq<char>| id_set(longer).contains(k) <==> (id_set(
                    shorter,
                ).contains(k) || k == key) by {
                    if id_set(longer).contains(k) {
                        let j = choose|j: int| 0 <= j < longer.len() && (#[trigger] longer[j])@ == k;
                        if j < i {
                            assert(shorter[j]@ == k);
                        }
                    }
                    if id_set(shorter).contains(k) {
                        let j = choose|j: int|
                            0 <= j < shorter.len() && (#[trigger] shorter[j])@ == k;
                        assert(longer[j]@ == k);
                    }
                }
                assert(chosen@ =~= self@.restrict(id_set(longer)));
            }
            i = i + 1;
        }
        assert(ids@.subrange(0, ids@.len() as int) =~= ids@);
        chosen
    }
}

impl<V: View> Registry<V> {
    /// Every entry of the store, each identifier once.
    pub fn entries(&self) -> (entries: &Vec<Entry<V>>)
        ensures
            distinct_ids(entries@),
            self@ == entries_map(entries@),
    {
        proof {
            use_type_invariant(self);
        }
        &self.entries
    }
}

} // verus!
