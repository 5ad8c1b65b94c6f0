//! Maps and sets keyed by text.

use crate::text::same_text;
use vstd::prelude::*;

verus! {

/// Map from text to values. Entries keep the order of their first insertion, and no name
/// occurs twice.
#[derive(Debug)]
pub struct StringMap<V> {
    entries: Vec<(String, V)>,
}

impl<V> StringMap<V> {
    #[verifier::type_invariant]
    spec fn distinct(self) -> bool {
        self.names().no_duplicates()
    }

    /// Names in entry order.
    pub closed spec fn names(self) -> Seq<Seq<char>> {
        Seq::new(self.entries.len() as nat, |i: int| self.entries[i].0@)
    }

    /// Values in entry order.
    pub closed spec fn values(self) -> Seq<V> {
        Seq::new(self.entries.len() as nat, |i: int| self.entries[i].1)
    }
}

impl<V> View for StringMap<V> {
    type V = Map<Seq<char>, V>;

    open spec fn view(&self) -> Map<Seq<char>, V> {
        Map::new(
            |name: Seq<char>| self.names().contains(name),
            |name: Seq<char>| self.values()[self.names().index_of(name)],
        )
    }
}

impl<V> StringMap<V> {
    /// Empty map.
    pub fn new() -> (r: StringMap<V>)
        ensures
            r@ == Map::<Seq<char>, V>::empty(),
            r.names() == Seq::<Seq<char>>::empty(),
    {
        let r = StringMap { entries: Vec::new() };
        assert(r.names() =~= Seq::<Seq<char>>::empty());
        assert(r@ =~= Map::<Seq<char>, V>::empty());
        r
    }

    /// Number of entries. Entry names are distinct, and the map takes each to its entry's value.
    pub fn len(&self) -> (r: usize)
        ensures
            r == self.names().len(),
            self.names().no_duplicates(),
            self.values().len() == self.names().len(),
            self@.dom() == self.names().to_set(),
            forall|i: int|
                0 <= i < self.names().len() ==> #[trigger] self@[self.names()[i]]
                    == self.values()[i],
    {
        proof {
            use_type_invariant(self);
            assert forall|i: int| 0 <= i < self.names().len() implies #[trigger] self@[self.names()[i]]
                == self.values()[i] by {
                assert(self.names().contains(self.names()[i]));
            }
            assert(self@.dom() =~= self.names().to_set());
        }
        self.entries.len()
    }

    /// Whether the map has no entry.
    pub fn is_empty(&self) -> (r: bool)
        ensures
            r == (self@ == Map::<Seq<char>, V>::empty()),
    {
        let entries: usize = self.len();
        proof {
            if entries == 0 {
                assert(self@ =~= Map::<Seq<char>, V>::empty());
            } else {
                assert(self.names().contains(self.names()[0]));
                assert(self@.dom().contains(self.names()[0]));
            }
        }
        entries == 0
    }

    /// Position of `name` among the entries.
    fn position(&self, name: &str) -> (r: Option<usize>)
        ensures
            match r {
                Some(at) => at < self.names().len() && self.names()[at as int] == name@,
                None => !self.names().contains(name@),
            },
    {
        let mut at: usize = 0;
        while at < self.entries.len()
            invariant
                at <= self.entries.len(),
                forall|i: int| 0 <= i < at ==> #[trigger] self.names()[i] != name@,
            decreases self.entries.len() - at,
        {
            if same_text(self.entries[at].0.as_str(), name) {
                return Some(at);
            }
            assert(self.names()[at as int] != name@);
            at = at + 1;
        }
        None
    }

    /// Value mapped from `name`.
    pub fn get(&self, name: &str) -> (r: Option<&V>)
        ensures
            match r {
                Some(value) => self@.contains_key(name@) && *value == self@[name@],
                None => !self@.contains_key(name@),
            },
    {
        proof {
            use_type_invariant(self);
        }
        match self.position(name) {
            Some(at) => {
                assert(self.names().contains(name@));
                assert(self.names().index_of(name@) == at);
                Some(&self.entries[at].1)
            },
            None => None,
        }
    }

    /// Whether `name` is mapped.
    pub fn contains(&self, name: &str) -> (r: bool)
        ensures
            r == self@.contains_key(name@),
    {
        self.get(name).is_some()
    }

    /// Maps `name` to `value`, in the place of an earlier value if there is one.
    pub fn with(self, name: String, value: V) -> (r: StringMap<V>)
        ensures
            r@ == self@.insert(name@, value),
            r.names() == if self@.contains_key(name@) {
                self.names()
            } else {
                self.names().push(name@)
            },
    {
        proof {
            use_type_invariant(&self);
        }
        let found = self.position(name.as_str());
        let ghost before = self;
        let mut entries = self.entries;
        match found {
            Some(at) => {
                let ghost key = name@;
                entries.set(at, (name, value));
                proof {
                    let after = StringMap { entries };
                    assert(after.names() =~= before.names());
                    assert(before.names().index_of(key) == at);
                    assert(before.names().contains(key));
                    assert forall|k: Seq<char>| before.names().contains(k) implies after@[k]
                        == #[trigger] before@.insert(key, value)[k] by {
                        if k != key {
                            assert(before.names().index_of(k) != at);
                        }
                    }
                    assert(after@ =~= before@.insert(key, value));
                }
            },
            None => {
                let ghost key = name@;
                entries.push((name, value));
                proof {
                    let after = StringMap { entries };
                    assert(after.names() =~= before.names().push(key));
                    assert(after.names()[before.names().len() as int] == key);
                    assert forall|k: Seq<char>| after.names().contains(k) <==> before.names().contains(
                        k,
                    ) || k == key by {
                        if before.names().contains(k) {
                            let i = choose|i: int|
                                0 <= i < before.names().len() && before.names()[i] == k;
                            assert(after.names()[i] == k);
                        }
                    }
                    assert(after.names().no_duplicates());
                    assert forall|k: Seq<char>| after.names().contains(k) implies after@[k]
                        == #[trigger] before@.insert(key, value)[k] by {
                        if k == key {
                            assert(after.names().index_of(k) == before.names().len());
                        } else {
                            assert(after.names()[before.names().index_of(k)] == k);
                            assert(after.names().index_of(k) == before.names().index_of(k));
                        }
                    }
                    assert(after@ =~= before@.insert(key, value));
                }
            },
        }
        StringMap { entries }
    }

    /// Name of the entry at `at`.
    pub fn name_at(&self, at: usize) -> (r: &str)
        requires
            at < self.names().len(),
        ensures
            r@ == self.names()[at as int],
    {
        self.entries[at].0.as_str()
    }

    /// Value of the entry at `at`.
    pub fn value_at(&self, at: usize) -> (r: &V)
        requires
            at < self.names().len(),
        ensures
            *r == self.values()[at as int],
    {
        &self.entries[at].1
    }
}

impl<V: Clone> Clone for StringMap<V> {
    fn clone(&self) -> (r: StringMap<V>)
        ensures
            r.names() == self.names(),
            forall|i: int|
                0 <= i < self.values().len() ==> cloned::<V>(
                    #[trigger] self.values()[i],
                    r.values()[i],
                ),
    {
        proof {
            use_type_invariant(self);
        }
        let mut entries: Vec<(String, V)> = Vec::new();
        let mut at: usize = 0;
        while at < self.entries.len()
            invariant
                at <= self.entries.len(),
                entries.len() == at,
                forall|i: int| 0 <= i < at ==> (#[trigger] entries[i]).0 == self.entries[i].0,
                forall|i: int|
                    0 <= i < at ==> cloned::<V>(self.entries[i].1, (#[trigger] entries[i]).1),
            decreases self.entries.len() - at,
        {
            entries.push((self.entries[at].0.clone(), self.entries[at].1.clone()));
            at = at + 1;
        }
        proof {
            assert(StringMap { entries }.names() =~= self.names());
        }
        StringMap { entries }
    }
}

/// Set of texts.
#[derive(Debug, Clone)]
pub struct NameSet {
    names: Vec<String>,
}

impl View for NameSet {
    type V = Set<Seq<char>>;

    closed spec fn view(&self) -> Set<Seq<char>> {
        self.names.deep_view().to_set()
    }
}

impl NameSet {
    /// Empty set.
    pub fn new() -> (r: NameSet)
        ensures
            r@ == Set::<Seq<char>>::empty(),
    {
        let r = NameSet { names: Vec::new() };
        assert(r@ =~= Set::<Seq<char>>::empty());
        r
    }

    /// Adds `name`.
    pub fn with(self, name: String) -> (r: NameSet)
        ensures
            r@ == self@.insert(name@),
    {
        let ghost before = self;
        let ghost key = name@;
        let mut names = self.names;
        names.push(name);
        let r = NameSet { names };
        proof {
            let old_names = before.names.deep_view();
            let new_names = r.names.deep_view();
            assert(new_names =~= old_names.push(key));
            assert forall|k: Seq<char>| new_names.contains(k) <==> old_names.contains(k) || k
                == key by {
                if old_names.contains(k) {
                    let i = choose|i: int| 0 <= i < old_names.len() && old_names[i] == k;
                    assert(new_names[i] == k);
                }
                if k == key {
                    assert(new_names[old_names.len() as int] == k);
                }
            }
            assert(r@ =~= before@.insert(key));
        }
        r
    }

    /// Whether `name` is in the set.
    pub fn contains(&self, name: &str) -> (r: bool)
        ensures
            r == self@.contains(name@),
    {
        let mut at: usize = 0;
        while at < self.names.len()
            invariant
                at <= self.names.len(),
                forall|i: int| 0 <= i < at ==> #[trigger] self.names.deep_view()[i] != name@,
            decreases self.names.len() - at,
        {
            if same_text(self.names[at].as_str(), name) {
                assert(self.names.deep_view()[at as int] == name@);
                return true;
            }
            assert(self.names.deep_view()[at as int] != name@);
            at = at + 1;
        }
        false
    }
}

} // verus!
