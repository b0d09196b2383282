//! A small map from strings to values that keeps its keys in the order in
//! which they first came.

use vstd::prelude::*;

verus! {

/// Whether `key` is the view of one of `keys`.
pub open spec fn has_key(keys: Seq<String>, key: Seq<char>) -> bool {
    exists|i: int| 0 <= i < keys.len() && #[trigger] keys[i]@ == key
}

/// A position at which `key` stands in `keys`.
pub open spec fn index_of(keys: Seq<String>, key: Seq<char>) -> int {
    choose|i: int| 0 <= i < keys.len() && #[trigger] keys[i]@ == key
}

/// Whether no two of `keys` are the same string.
pub open spec fn distinct(keys: Seq<String>) -> bool {
    forall|i: int, j: int|
        0 <= i < j < keys.len() ==> (#[trigger] keys[i])@ != (#[trigger] keys[j])@
}

/// A map keyed by strings. No key occurs twice; a second insertion under a
/// key replaces the value and keeps the key's place.
pub struct Table<V> {
    keys: Vec<String>,
    values: Vec<V>,
}

impl<V> View for Table<V> {
    type V = Map<Seq<char>, V>;

    closed spec fn view(&self) -> Map<Seq<char>, V> {
        Map::new(
            |k: Seq<char>| has_key(self.keys@, k),
            |k: Seq<char>| self.values@[index_of(self.keys@, k)],
        )
    }
}

impl<V> Table<V> {
    #[verifier::type_invariant]
    spec fn inv(self) -> bool {
        self.keys@.len() == self.values@.len() && distinct(self.keys@)
    }

    /// The keys, in the order in which they first came.
    pub closed spec fn ids(self) -> Seq<Seq<char>> {
        Seq::new(self.keys@.len(), |i: int| self.keys@[i]@)
    }

    /// An empty table.
    pub fn new() -> (table: Self)
        ensures
            table@ == Map::<Seq<char>, V>::empty(),
            table.ids() == Seq::<Seq<char>>::empty(),
    {
        let table = Table { keys: Vec::new(), values: Vec::new() };
        assert(table@ =~= Map::<Seq<char>, V>::empty());
        assert(table.ids() =~= Seq::<Seq<char>>::empty());
        table
    }

    /// The number of keys. The keys are distinct, and they are the map's
    /// domain.
    pub fn len(&self) -> (n: usize)
        ensures
            n == self.ids().len(),
            self.ids().no_duplicates(),
            forall|k: Seq<char>| self@.contains_key(k) <==> self.ids().contains(k),
    {
        proof {
            use_type_invariant(self);
            assert forall|k: Seq<char>| self@.contains_key(k) <==> self.ids().contains(k) by {
                if self@.contains_key(k) {
                    let i = index_of(self.keys@, k);
                    assert(self.ids()[i] == k);
                }
                if self.ids().contains(k) {
                    let i = choose|i: int| 0 <= i < self.ids().len() && self.ids()[i] == k;
                    assert(self.keys@[i]@ == k);
                }
            }
        }
        self.keys.len()
    }

    fn find(&self, key: &String) -> (at: Option<usize>)
        ensures
            match at {
                Some(i) => i < self.keys@.len() && self.keys@[i as int]@ == key@,
                None => !has_key(self.keys@, key@),
            },
    {
        let mut i: usize = 0;
        while i < self.keys.len()
            invariant
                i <= self.keys@.len(),
                forall|j: int| 0 <= j < i ==> (#[trigger] self.keys@[j])@ != key@,
            decreases self.keys@.len() - i,
        {
            if self.keys[i] == *key {
                return Some(i);
            }
            i += 1;
        }
        None
    }

    /// Whether the table has `key`.
    pub fn contains_key(&self, key: &str) -> (found: bool)
        ensures
            found == self@.contains_key(key@),
    {
        let owned = key.to_owned();
        self.find(&owned).is_some()
    }

    /// The value under `key`, if there is one.
    pub fn get(&self, key: &str) -> (value: Option<&V>)
        ensures
            self@.contains_key(key@) ==> value == Some(&self@[key@]),
            !self@.contains_key(key@) ==> value is None,
    {
        proof {
            use_type_invariant(self);
        }
        let owned = key.to_owned();
        match self.find(&owned) {
            Some(i) => {
                assert(has_key(self.keys@, key@));
                Some(&self.values[i])
            },
            None => None,
        }
    }

    /// The value under the key at position `i`.
    pub fn value_at(&self, i: usize) -> (value: &V)
        requires
            i < self.ids().len(),
        ensures
            self@.contains_key(self.ids()[i as int]),
            *value == self@[self.ids()[i as int]],
    {
        proof {
            use_type_invariant(self);
            assert(self.keys@[i as int]@ == self.ids()[i as int]);
            assert(has_key(self.keys@, self.ids()[i as int]));
        }
        &self.values[i]
    }

    /// The table with `value` under `key`. A key that is there keeps its place
    /// and gets the new value; a new key goes behind the others.
    pub fn with(self, key: String, value: V) -> (table: Self)
        ensures
            table@ == self@.insert(key@, value),
            table.ids() == (if self@.contains_key(key@) {
                self.ids()
            } else {
                self.ids().push(key@)
            }),
    {
        proof {
            use_type_invariant(&self);
        }
        let found = self.find(&key);
        let ghost before = self;
        let Table { keys, values } = self;
        let mut keys = keys;
        let mut values = values;
        match found {
            Some(i) => {
                values.set(i, value);
                let table = Table { keys, values };
                proof {
                    assert(has_key(before.keys@, key@));
                    assert forall|k: Seq<char>| #[trigger]
                        before@.insert(key@, value).contains_key(k) implies table@[k]
                        == before@.insert(key@, value)[k] by {
                        assert(has_key(table.keys@, k));
                    }
                    assert(table@ =~= before@.insert(key@, value));
                    assert(table.ids() =~= before.ids());
                }
                table
            },
            None => {
                let ghost shown = key@;
                keys.push(key);
                values.push(value);
                let table = Table { keys, values };
                proof {
                    let n = before.keys@.len() as int;
                    assert(table.keys@[n]@ == shown);
                    assert forall|k: Seq<char>|
                        has_key(table.keys@, k) <==> (k == shown || has_key(before.keys@, k)) by {
                        if has_key(table.keys@, k) {
                            let j = index_of(table.keys@, k);
                            if j < n {
                                assert(before.keys@[j]@ == k);
                            }
                        }
                        if has_key(before.keys@, k) {
                            let j = index_of(before.keys@, k);
                            assert(table.keys@[j]@ == k);
                        }
                    }
                    assert forall|k: Seq<char>| #[trigger]
                        before@.insert(shown, value).contains_key(k) implies table@[k]
                        == before@.insert(shown, value)[k] by {
                        assert(has_key(table.keys@, k));
                        let j = index_of(table.keys@, k);
                        if k != shown {
                            let j0 = index_of(before.keys@, k);
                            assert(table.keys@[j0]@ == k);
                            assert(j < n);
                        }
                    }
                    assert(table@ =~= before@.insert(shown, value));
                    assert(table.ids() =~= before.ids().push(shown));
                }
                table
            },
        }
    }
}

} // verus!
