//! A map from names to values that keeps its entries in insertion order.
//!
//! Plugins, their persisted states and the plugin list shown to the user are
//! all keyed by the plugin's name. Names are compared by their characters.
use vstd::prelude::*;

verus! {

/// One named entry of a [`NamedMap`].
pub struct NamedEntry<V> {
    pub name: String,
    pub value: V,
}

/// Whether no two entries of `entries` carry the same name.
pub open spec fn names_unique<V>(entries: Seq<NamedEntry<V>>) -> bool {
    forall|i: int, j: int|
        0 <= i < entries.len() && 0 <= j < entries.len() && i != j
            ==> #[trigger] entries[i].name@ != #[trigger] entries[j].name@
}

/// Whether some entry of `entries` is named `name`.
pub open spec fn has_name<V>(entries: Seq<NamedEntry<V>>, name: Seq<char>) -> bool {
    exists|i: int| 0 <= i < entries.len() && #[trigger] entries[i].name@ == name
}

/// The map that a sequence of entries with distinct names stands for.
pub open spec fn map_of<V>(entries: Seq<NamedEntry<V>>) -> Map<Seq<char>, V> {
    Map::new(
        |name: Seq<char>| has_name(entries, name),
        |name: Seq<char>|
            entries[choose|i: int| 0 <= i < entries.len() && #[trigger] entries[i].name@ == name].value,
    )
}

/// In a sequence with distinct names, the map holds at each entry's name that entry's value.
pub proof fn lemma_map_of_index<V>(entries: Seq<NamedEntry<V>>, i: int)
    requires
        names_unique(entries),
        0 <= i < entries.len(),
    ensures
        map_of(entries).contains_key(entries[i].name@),
        map_of(entries)[entries[i].name@] == entries[i].value,
{
    let name = entries[i].name@;
    assert(has_name(entries, name));
    let j = choose|j: int| 0 <= j < entries.len() && #[trigger] entries[j].name@ == name;
    assert(j == i);
}

/// Replacing the value of entry `i` (keeping its name) replaces the value at that name.
pub proof fn lemma_map_of_update<V>(entries: Seq<NamedEntry<V>>, i: int, entry: NamedEntry<V>)
    requires
        names_unique(entries),
        0 <= i < entries.len(),
        entry.name@ == entries[i].name@,
    ensures
        names_unique(entries.update(i, entry)),
        map_of(entries.update(i, entry)) == map_of(entries).insert(entry.name@, entry.value),
{
    let updated = entries.update(i, entry);
    assert(names_unique(updated)) by {
        assert forall|a: int, b: int|
            0 <= a < updated.len() && 0 <= b < updated.len() && a != b implies
            #[trigger] updated[a].name@ != #[trigger] updated[b].name@ by {
            assert(entries[a].name@ != entries[b].name@);
        }
    }
    let lhs = map_of(updated);
    let rhs = map_of(entries).insert(entry.name@, entry.value);
    assert forall|k: Seq<char>| #[trigger] lhs.contains_key(k) <==> rhs.contains_key(k) by {
        if has_name(updated, k) {
            let j = choose|j: int| 0 <= j < updated.len() && #[trigger] updated[j].name@ == k;
            if j != i {
                assert(entries[j].name@ == k);
            }
        }
        if has_name(entries, k) {
            let j = choose|j: int| 0 <= j < entries.len() && #[trigger] entries[j].name@ == k;
            assert(updated[j].name@ == k);
        }
        if k == entry.name@ {
            assert(updated[i].name@ == k);
        }
    }
    assert forall|k: Seq<char>| #[trigger] lhs.contains_key(k) implies lhs[k] == rhs[k] by {
        let j = choose|j: int| 0 <= j < updated.len() && #[trigger] updated[j].name@ == k;
        lemma_map_of_index(updated, j);
        if j != i {
            assert(entries[j].name@ == k);
            lemma_map_of_index(entries, j);
        }
    }
    assert(lhs =~= rhs);
}

/// Appending an entry with a new name adds that name to the map.
pub proof fn lemma_map_of_push<V>(entries: Seq<NamedEntry<V>>, entry: NamedEntry<V>)
    requires
        names_unique(entries),
        !has_name(entries, entry.name@),
    ensures
        names_unique(entries.push(entry)),
        map_of(entries.push(entry)) == map_of(entries).insert(entry.name@, entry.value),
{
    let pushed = entries.push(entry);
    let n = entries.len() as int;
    assert(names_unique(pushed)) by {
        assert forall|a: int, b: int|
            0 <= a < pushed.len() && 0 <= b < pushed.len() && a != b implies
            #[trigger] pushed[a].name@ != #[trigger] pushed[b].name@ by {
            if a < n && b < n {
                assert(entries[a].name@ != entries[b].name@);
            } else if a < n {
                assert(entries[a].name@ == pushed[a].name@);
            } else {
                assert(entries[b].name@ == pushed[b].name@);
            }
        }
    }
    let lhs = map_of(pushed);
    let rhs = map_of(entries).insert(entry.name@, entry.value);
    assert forall|k: Seq<char>| #[trigger] lhs.contains_key(k) <==> rhs.contains_key(k) by {
        if has_name(pushed, k) {
            let j = choose|j: int| 0 <= j < pushed.len() && #[trigger] pushed[j].name@ == k;
            if j < n {
                assert(entries[j].name@ == k);
            }
        }
        if has_name(entries, k) {
            let j = choose|j: int| 0 <= j < entries.len() && #[trigger] entries[j].name@ == k;
            assert(pushed[j].name@ == k);
        }
        if k == entry.name@ {
            assert(pushed[n].name@ == k);
        }
    }
    assert forall|k: Seq<char>| #[trigger] lhs.contains_key(k) implies lhs[k] == rhs[k] by {
        let j = choose|j: int| 0 <= j < pushed.len() && #[trigger] pushed[j].name@ == k;
        lemma_map_of_index(pushed, j);
        if j < n {
            assert(entries[j].name@ == k);
            lemma_map_of_index(entries, j);
        }
    }
    assert(lhs =~= rhs);
}

/// Removing entry `i` removes its name from the map.
pub proof fn lemma_map_of_remove<V>(entries: Seq<NamedEntry<V>>, i: int)
    requires
        names_unique(entries),
        0 <= i < entries.len(),
    ensures
        names_unique(entries.remove(i)),
        map_of(entries.remove(i)) == map_of(entries).remove(entries[i].name@),
{
    let removed = entries.remove(i);
    let name = entries[i].name@;
    assert(forall|j: int| 0 <= j < removed.len() ==> #[trigger] removed[j] == entries[if j < i { j } else { j + 1 }]);
    assert(names_unique(removed)) by {
        assert forall|a: int, b: int|
            0 <= a < removed.len() && 0 <= b < removed.len() && a != b implies
            #[trigger] removed[a].name@ != #[trigger] removed[b].name@ by {
            let a2 = if a < i { a } else { a + 1 };
            let b2 = if b < i { b } else { b + 1 };
            assert(removed[a] == entries[a2]);
            assert(removed[b] == entries[b2]);
            assert(entries[a2].name@ != entries[b2].name@);
        }
    }
    let lhs = map_of(removed);
    let rhs = map_of(entries).remove(name);
    assert forall|k: Seq<char>| #[trigger] lhs.contains_key(k) <==> rhs.contains_key(k) by {
        if has_name(removed, k) {
            let j = choose|j: int| 0 <= j < removed.len() && #[trigger] removed[j].name@ == k;
            let j2 = if j < i { j } else { j + 1 };
            assert(removed[j] == entries[j2]);
            assert(entries[j2].name@ == k);
            assert(j2 != i);
            assert(entries[i].name@ != entries[j2].name@);
        }
        if has_name(entries, k) && k != name {
            let j = choose|j: int| 0 <= j < entries.len() && #[trigger] entries[j].name@ == k;
            assert(j != i);
            let j2 = if j < i { j } else { j - 1 };
            assert(removed[j2] == entries[j]);
            assert(removed[j2].name@ == k);
        }
    }
    assert forall|k: Seq<char>| #[trigger] lhs.contains_key(k) implies lhs[k] == rhs[k] by {
        let j = choose|j: int| 0 <= j < removed.len() && #[trigger] removed[j].name@ == k;
        lemma_map_of_index(removed, j);
        let j2 = if j < i { j } else { j + 1 };
        assert(removed[j] == entries[j2]);
        lemma_map_of_index(entries, j2);
    }
    assert(lhs =~= rhs);
}

/// An ordered map from names to values; no name occurs twice.
pub struct NamedMap<V> {
    entries: Vec<NamedEntry<V>>,
}

impl<V> View for NamedMap<V> {
    type V = Map<Seq<char>, V>;

    closed spec fn view(&self) -> Map<Seq<char>, V> {
        map_of(self.entries@)
    }
}

impl<V> NamedMap<V> {
    #[verifier::type_invariant]
    closed spec fn names_distinct(&self) -> bool {
        names_unique(self.entries@)
    }

    /// The entries in the order in which they were added.
    pub closed spec fn entries(&self) -> Seq<NamedEntry<V>> {
        self.entries@
    }

    /// The names of the map are the names of its entries, and the value under a name is
    /// the value of an entry with that name.
    pub proof fn lemma_domain(&self)
        ensures
            forall|k: Seq<char>| #[trigger] self@.contains_key(k) <==> has_name(self.entries(), k),
            forall|k: Seq<char>| #[trigger] self@.contains_key(k) ==> exists|i: int|
                0 <= i < self.entries().len() && #[trigger] self.entries()[i].name@ == k
                    && self.entries()[i].value == self@[k],
    {
        assert forall|k: Seq<char>| #[trigger] self@.contains_key(k) implies exists|i: int|
            0 <= i < self.entries().len() && #[trigger] self.entries()[i].name@ == k
                && self.entries()[i].value == self@[k] by {
            let i = choose|i: int| 0 <= i < self.entries@.len() && #[trigger] self.entries@[i].name@ == k;
            assert(self.entries()[i].name@ == k);
        }
    }

    /// Creates an empty map.
    pub fn new() -> (m: Self)
        ensures
            m@ == Map::<Seq<char>, V>::empty(),
            m.entries().len() == 0,
    {
        let m = NamedMap { entries: Vec::new() };
        assert(m@ =~= Map::<Seq<char>, V>::empty());
        m
    }

    /// The number of entries.
    pub fn len(&self) -> (n: usize)
        ensures
            n == self.entries().len(),
            n == self@.len(),
    {
        proof {
            use_type_invariant(self);
            self.lemma_dom_len();
        }
        self.entries.len()
    }

    proof fn lemma_dom_len(&self)
        requires
            names_unique(self.entries@),
        ensures
            self@.dom().finite(),
            self@.len() == self.entries@.len(),
        decreases self.entries@.len(),
    {
        let s = self.entries@;
        let names = Seq::new(s.len(), |i: int| s[i].name@);
        assert(names.no_duplicates());
        names.unique_seq_to_set();
        assert(self@.dom() =~= names.to_set()) by {
            assert forall|k: Seq<char>| self@.dom().contains(k) implies names.to_set().contains(k) by {
                let j = choose|j: int| 0 <= j < s.len() && #[trigger] s[j].name@ == k;
                assert(names[j] == k);
            }
            assert forall|k: Seq<char>| names.to_set().contains(k) implies self@.dom().contains(k) by {
                let j = choose|j: int| 0 <= j < names.len() && names[j] == k;
                assert(s[j].name@ == k);
            }
        }
    }

    /// The entry at position `i`.
    pub fn entry_at(&self, i: usize) -> (e: &NamedEntry<V>)
        requires
            i < self.entries().len(),
        ensures
            *e == self.entries()[i as int],
            self@.contains_key(e.name@),
            self@[e.name@] == e.value,
            names_unique(self.entries()),
    {
        proof {
            use_type_invariant(self);
            lemma_map_of_index(self.entries@, i as int);
        }
        &self.entries[i]
    }

    /// The position of the entry named `name`, if there is one.
    pub fn index_of(&self, name: &str) -> (r: Option<usize>)
        ensures
            match r {
                Some(i) => i < self.entries().len() && self.entries()[i as int].name@ == name@
                    && self@.contains_key(name@) && self@[name@] == self.entries()[i as int].value,
                None => !self@.contains_key(name@),
            },
    {
        proof {
            use_type_invariant(self);
        }
        let mut i: usize = 0;
        while i < self.entries.len()
            invariant
                i <= self.entries@.len(),
                names_unique(self.entries@),
                forall|j: int| 0 <= j < i ==> #[trigger] self.entries@[j].name@ != name@,
            decreases self.entries@.len() - i,
        {
            if crate::text::str_equals(self.entries[i].name.as_str(), name) {
                proof {
                    lemma_map_of_index(self.entries@, i as int);
                }
                return Some(i);
            }
            i = i + 1;
        }
        None
    }

    /// The names of the entries, in order; each name of the map occurs once.
    pub fn names(&self) -> (r: Vec<String>)
        ensures
            forall|j: int| 0 <= j < r@.len() ==> #[trigger] self@.contains_key(r@[j]@),
            forall|k: Seq<char>| #[trigger] self@.contains_key(k) ==> exists|j: int|
                0 <= j < r@.len() && #[trigger] r@[j]@ == k,
            forall|j1: int, j2: int| 0 <= j1 < j2 < r@.len() ==> #[trigger] r@[j1]@ != #[trigger] r@[j2]@,
    {
        proof {
            use_type_invariant(self);
        }
        let mut r: Vec<String> = Vec::new();
        let mut i: usize = 0;
        while i < self.entries.len()
            invariant
                i <= self.entries@.len(),
                names_unique(self.entries@),
                r@.len() == i,
                forall|j: int| 0 <= j < i ==> #[trigger] r@[j]@ == self.entries@[j].name@,
            decreases self.entries@.len() - i,
        {
            r.push(self.entries[i].name.clone());
            i = i + 1;
        }
        proof {
            assert forall|j: int| 0 <= j < r@.len() implies #[trigger] self@.contains_key(r@[j]@) by {
                lemma_map_of_index(self.entries@, j);
            }
            assert forall|k: Seq<char>| #[trigger] self@.contains_key(k) implies exists|j: int|
                0 <= j < r@.len() && #[trigger] r@[j]@ == k by {
                let j = choose|j: int| 0 <= j < self.entries@.len() && #[trigger] self.entries@[j].name@ == k;
                assert(r@[j]@ == k);
            }
            assert forall|j1: int, j2: int| 0 <= j1 < j2 < r@.len() implies #[trigger] r@[j1]@ != #[trigger] r@[j2]@ by {
                assert(self.entries@[j1].name@ != self.entries@[j2].name@);
            }
        }
        r
    }

    /// Whether an entry is named `name`.
    pub fn contains_key(&self, name: &str) -> (b: bool)
        ensures
            b == self@.contains_key(name@),
    {
        self.index_of(name).is_some()
    }

    /// The value stored under `name`, if any.
    pub fn get(&self, name: &str) -> (r: Option<&V>)
        ensures
            match r {
                Some(v) => self@.contains_key(name@) && *v == self@[name@],
                None => !self@.contains_key(name@),
            },
    {
        match self.index_of(name) {
            Some(i) => Some(&self.entries[i].value),
            None => None,
        }
    }

    /// Stores `value` under `name`, replacing the value stored there before.
    pub fn insert(&mut self, name: String, value: V)
        ensures
            final(self)@ == old(self)@.insert(name@, value),
    {
        proof {
            use_type_invariant(&*self);
        }
        match self.index_of(name.as_str()) {
            Some(i) => {
                let entry = NamedEntry { name, value };
                proof {
                    lemma_map_of_update(self.entries@, i as int, entry);
                }
                let mut entries = Vec::new();
                std::mem::swap(&mut entries, &mut self.entries);
                entries.set(i, entry);
                self.entries = entries;
            },
            None => {
                let entry = NamedEntry { name, value };
                proof {
                    lemma_map_of_push(self.entries@, entry);
                }
                let mut entries = Vec::new();
                std::mem::swap(&mut entries, &mut self.entries);
                entries.push(entry);
                self.entries = entries;
            },
        }
    }

    /// Removes the entry named `name` and returns its value.
    pub fn remove(&mut self, name: &str) -> (r: Option<V>)
        ensures
            final(self)@ == old(self)@.remove(name@),
            match r {
                Some(v) => old(self)@.contains_key(name@) && v == old(self)@[name@],
                None => !old(self)@.contains_key(name@),
            },
    {
        proof {
            use_type_invariant(&*self);
        }
        match self.index_of(name) {
            Some(i) => {
                proof {
                    lemma_map_of_remove(self.entries@, i as int);
                }
                let mut entries = Vec::new();
                std::mem::swap(&mut entries, &mut self.entries);
                let entry = entries.remove(i);
                self.entries = entries;
                Some(entry.value)
            },
            None => {
                assert(old(self)@.remove(name@) =~= old(self)@);
                None
            },
        }
    }

    /// Takes the entry at position `i` out of the map; [`NamedMap::put_back`] puts it back.
    pub fn take_at(&mut self, i: usize) -> (e: NamedEntry<V>)
        requires
            i < old(self).entries().len(),
        ensures
            e == old(self).entries()[i as int],
            final(self).entries() == old(self).entries().remove(i as int),
            final(self)@ == old(self)@.remove(e.name@),
    {
        proof {
            use_type_invariant(&*self);
            lemma_map_of_remove(self.entries@, i as int);
        }
        let mut entries = Vec::new();
        std::mem::swap(&mut entries, &mut self.entries);
        let entry = entries.remove(i);
        self.entries = entries;
        entry
    }

    /// Puts an entry back at position `i`; no other entry may carry its name.
    #[verifier::spinoff_prover]
    pub fn put_back(&mut self, i: usize, e: NamedEntry<V>)
        requires
            i <= old(self).entries().len(),
            !old(self)@.contains_key(e.name@),
        ensures
            final(self).entries() == old(self).entries().insert(i as int, e),
            final(self)@ == old(self)@.insert(e.name@, e.value),
    {
        proof {
            use_type_invariant(&*self);
            let s = self.entries@;
            let t = s.insert(i as int, e);
            assert(!has_name(s, e.name@));
            assert forall|a: int, b: int|
                0 <= a < t.len() && 0 <= b < t.len() && a != b implies
                #[trigger] t[a].name@ != #[trigger] t[b].name@ by {
                if a != i as int && b != i as int {
                    let a2 = if a < i { a } else { a - 1 };
                    let b2 = if b < i { b } else { b - 1 };
                    assert(t[a] == s[a2]);
                    assert(t[b] == s[b2]);
                } else if a == i as int {
                    let b2 = if b < i { b } else { b - 1 };
                    assert(t[b] == s[b2]);
                } else {
                    let a2 = if a < i { a } else { a - 1 };
                    assert(t[a] == s[a2]);
                }
            }
            // the map of t equals the map of s pushed with e
            lemma_map_of_push(s, e);
            let p = s.push(e);
            let lhs = map_of(t);
            let rhs = map_of(p);
            assert forall|k: Seq<char>| #[trigger] lhs.contains_key(k) <==> rhs.contains_key(k) by {
                if has_name(t, k) {
                    let j = choose|j: int| 0 <= j < t.len() && #[trigger] t[j].name@ == k;
                    if j == i as int {
                        assert(p[s.len() as int].name@ == k);
                    } else {
                        let j2 = if j < i { j } else { j - 1 };
                        assert(t[j] == s[j2]);
                        assert(p[j2].name@ == k);
                    }
                }
                if has_name(p, k) {
                    let j = choose|j: int| 0 <= j < p.len() && #[trigger] p[j].name@ == k;
                    if j == s.len() as int {
                        assert(t[i as int].name@ == k);
                    } else {
                        let j2 = if j < i { j } else { j + 1 };
                        assert(t[j2] == s[j]);
                        assert(t[j2].name@ == k);
                    }
                }
            }
            assert forall|k: Seq<char>| #[trigger] lhs.contains_key(k) implies lhs[k] == rhs[k] by {
                let j = choose|j: int| 0 <= j < t.len() && #[trigger] t[j].name@ == k;
                lemma_map_of_index(t, j);
                if j == i as int {
                    lemma_map_of_index(p, s.len() as int);
                } else {
                    let j2 = if j < i { j } else { j - 1 };
                    assert(t[j] == s[j2]);
                    assert(p[j2] == s[j2]);
                    lemma_map_of_index(p, j2);
                }
            }
            assert(lhs =~= rhs);
        }
        let mut entries = Vec::new();
        std::mem::swap(&mut entries, &mut self.entries);
        entries.insert(i, e);
        self.entries = entries;
    }
}

} // verus!
