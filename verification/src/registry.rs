//! A small map from textual keys to values.
//!
//! The provider keeps several tables keyed by a name: the running pods by
//! their `namespace:name` key, the containers of a pod by container name, the
//! wasm modules fetched for a pod, one logger per actor, and plain string
//! tables such as environment variables or a pod's node selector. They all
//! share this one structure, whose meaning is a `Map` from the key's
//! characters to the stored value.

use vstd::prelude::*;

verus! {

/// A table of values, each stored under a distinct `String` key.
pub struct Registry<V> {
    keys: Vec<String>,
    values: Vec<V>,
}

impl<V> Registry<V> {
    /// The keys, in storage order, as character sequences.
    pub closed spec fn key_seq(&self) -> Seq<Seq<char>> {
        self.keys@.map_values(|k: String| k@)
    }

    /// The internal invariant: one value per key and no key twice.
    pub closed spec fn wf(&self) -> bool {
        &&& self.keys.len() == self.values.len()
        &&& self.key_seq().no_duplicates()
    }

    /// The contents of the table.
    pub closed spec fn as_map(&self) -> Map<Seq<char>, V> {
        Map::new(
            |k: Seq<char>| self.key_seq().contains(k),
            |k: Seq<char>| self.values@[self.key_seq().index_of(k)],
        )
    }

    proof fn lemma_entry(&self, i: int)
        requires
            self.wf(),
            0 <= i < self.keys.len(),
        ensures
            self.as_map().dom().contains(self.keys@[i]@),
            self.as_map()[self.keys@[i]@] == self.values@[i],
    {
        let k = self.keys@[i]@;
        assert(self.key_seq()[i] == k);
        let j: int = self.key_seq().index_of(k);
        assert(self.key_seq()[j] == k);
        assert(i == j);
    }

    proof fn lemma_absent(&self, k: Seq<char>)
        requires
            self.wf(),
            forall|i: int| 0 <= i < self.keys.len() ==> self.keys@[i]@ != k,
        ensures
            !self.as_map().dom().contains(k),
    {
        if self.key_seq().contains(k) {
            let j: int = choose|j: int| 0 <= j < self.key_seq().len() && self.key_seq()[j] == k;
            assert(self.keys@[j]@ == k);
        }
    }

    /// The number of entries equals the size of the key set.
    proof fn lemma_len(&self)
        requires
            self.wf(),
        ensures
            self.as_map().dom().finite(),
            self.as_map().dom().len() == self.keys.len(),
    {
        assert(self.as_map().dom() =~= self.key_seq().to_set());
        self.key_seq().unique_seq_to_set();
    }

    /// Finds the position of `key`, if it is stored.
    fn position(&self, key: &str) -> (r: Option<usize>)
        requires
            self.wf(),
        ensures
            match r {
                Some(i) => i < self.keys.len() && self.keys@[i as int]@ == key@,
                None => forall|i: int| 0 <= i < self.keys.len() ==> self.keys@[i]@ != key@,
            },
    {
        let wanted = key.to_owned();
        let mut i: usize = 0;
        while i < self.keys.len()
            invariant
                self.wf(),
                wanted@ == key@,
                i <= self.keys.len(),
                forall|j: int| 0 <= j < i ==> self.keys@[j]@ != key@,
            decreases self.keys.len() - i,
        {
            if self.keys[i] == wanted {
                return Some(i);
            }
            i = i + 1;
        }
        None
    }

    /// An empty table.
    pub fn new() -> (r: Self)
        ensures
            r.wf(),
            r@ == Map::<Seq<char>, V>::empty(),
    {
        let r = Registry { keys: Vec::new(), values: Vec::new() };
        assert(r.as_map() =~= Map::<Seq<char>, V>::empty());
        r
    }

    /// The number of entries.
    pub fn len(&self) -> (r: usize)
        requires
            self.wf(),
        ensures
            self@.dom().finite(),
            r == self@.dom().len(),
    {
        proof {
            self.lemma_len();
        }
        self.keys.len()
    }

    /// Whether `key` is stored.
    pub fn contains_key(&self, key: &str) -> (r: bool)
        requires
            self.wf(),
        ensures
            r == self@.dom().contains(key@),
    {
        match self.position(key) {
            Some(i) => {
                proof {
                    self.lemma_entry(i as int);
                }
                true
            },
            None => {
                proof {
                    self.lemma_absent(key@);
                }
                false
            },
        }
    }

    /// The value stored under `key`.
    pub fn get(&self, key: &str) -> (r: Option<&V>)
        requires
            self.wf(),
        ensures
            match r {
                Some(v) => self@.dom().contains(key@) && *v == self@[key@],
                None => !self@.dom().contains(key@),
            },
    {
        match self.position(key) {
            Some(i) => {
                proof {
                    self.lemma_entry(i as int);
                }
                Some(&self.values[i])
            },
            None => {
                proof {
                    self.lemma_absent(key@);
                }
                None
            },
        }
    }

    /// Replacing the value at position `i` replaces the value of its key.
    proof fn lemma_update(&self, i: int, x: V, other: Self)
        requires
            self.wf(),
            0 <= i < self.keys.len(),
            other.keys@ == self.keys@,
            other.values@ == self.values@.update(i, x),
        ensures
            other.wf(),
            other.as_map() == self.as_map().insert(self.keys@[i]@, x),
    {
        let key = self.keys@[i]@;
        assert(other.key_seq() == self.key_seq());
        assert(self.key_seq()[i] == key);
        assert forall|k: Seq<char>|
            #![trigger other.as_map().dom().contains(k)]
            other.as_map().dom().contains(k) implies other.as_map()[k] == self.as_map().insert(
            key,
            x,
        )[k] by {
            let j: int = other.key_seq().index_of(k);
            assert(other.key_seq()[j] == k);
            assert(self.key_seq()[j] == k);
            self.lemma_entry(j);
            if k != key {
                assert(j != i);
            } else {
                assert(j == i);
            }
        }
        assert(other.as_map() =~= self.as_map().insert(key, x));
    }

    /// Mutable access to the value stored under `key`.
    pub fn get_mut(&mut self, key: &str) -> (r: Option<&mut V>)
        requires
            old(self).wf(),
        ensures
            final(self).wf(),
            match r {
                Some(v) => {
                    &&& old(self)@.dom().contains(key@)
                    &&& *v == old(self)@[key@]
                    &&& final(self)@ == old(self)@.insert(key@, *final(v))
                },
                None => !old(self)@.dom().contains(key@) && final(self)@ == old(self)@,
            },
    {
        match self.position(key) {
            Some(i) => {
                proof {
                    self.lemma_entry(i as int);
                }
                proof {
                    assert forall|x: V, other: Self|
                        #![trigger other.wf(), self.values@.update(i as int, x)]
                        #![trigger other.as_map(), self.values@.update(i as int, x)]
                        other.keys@ == self.keys@ && other.values@ == self.values@.update(i as int, x)
                        implies other.wf() && other.as_map() == self.as_map().insert(key@, x) by {
                        self.lemma_update(i as int, x, other);
                    }
                }
                Some(&mut self.values[i])
            },
            None => {
                proof {
                    self.lemma_absent(key@);
                }
                None
            },
        }
    }

    /// Stores `value` under `key`, giving back the value it replaces.
    pub fn insert(&mut self, key: String, value: V) -> (r: Option<V>)
        requires
            old(self).wf(),
        ensures
            final(self).wf(),
            final(self)@ == old(self)@.insert(key@, value),
            match r {
                Some(v) => old(self)@.dom().contains(key@) && v == old(self)@[key@],
                None => !old(self)@.dom().contains(key@),
            },
    {
        match self.position(key.as_str()) {
            Some(i) => {
                proof {
                    self.lemma_entry(i as int);
                }
                let mut slot = value;
                std::mem::swap(&mut slot, &mut self.values[i]);
                proof {
                    old(self).lemma_update(i as int, value, *self);
                }
                Some(slot)
            },
            None => {
                proof {
                    old(self).lemma_absent(key@);
                }
                self.keys.push(key);
                self.values.push(value);
                proof {
                    let n: int = old(self).keys.len() as int;
                    assert(self.key_seq() == old(self).key_seq().push(key@));
                    assert forall|a: int, b: int|
                        0 <= a < self.key_seq().len() && 0 <= b < self.key_seq().len() && a != b
                        implies self.key_seq()[a] != self.key_seq()[b] by {
                        if a < n && b < n {
                            assert(old(self).key_seq()[a] != old(self).key_seq()[b]);
                        } else if a == n {
                            assert(old(self).keys@[b]@ != key@);
                        } else {
                            assert(old(self).keys@[a]@ != key@);
                        }
                    }
                    assert forall|k: Seq<char>|
                        #![trigger self.as_map().dom().contains(k)]
                        self.as_map().dom().contains(k) implies self.as_map()[k]
                        == old(self)@.insert(key@, value)[k] by {
                        let j: int = self.key_seq().index_of(k);
                        assert(self.key_seq()[j] == k);
                        self.lemma_entry(j);
                        if j < n {
                            assert(old(self).key_seq()[j] == k);
                            assert(self.values@[j] == old(self).values@[j]);
                            old(self).lemma_entry(j);
                            assert(old(self).keys@[j]@ != key@);
                        } else {
                            assert(k == key@);
                        }
                    }
                    assert forall|k: Seq<char>| old(self)@.insert(key@, value).dom().contains(k)
                        implies #[trigger] self.as_map().dom().contains(k) by {
                        if k == key@ {
                            self.lemma_entry(n);
                        } else {
                            let j: int = old(self).key_seq().index_of(k);
                            assert(old(self).key_seq()[j] == k);
                            assert(self.key_seq()[j] == k);
                        }
                    }
                    assert(self.as_map() =~= old(self)@.insert(key@, value));
                }
                None
            },
        }
    }

    /// Takes out the value stored under `key`.
    pub fn remove(&mut self, key: &str) -> (r: Option<V>)
        requires
            old(self).wf(),
        ensures
            final(self).wf(),
            final(self)@ == old(self)@.remove(key@),
            match r {
                Some(v) => old(self)@.dom().contains(key@) && v == old(self)@[key@],
                None => !old(self)@.dom().contains(key@),
            },
    {
        match self.position(key) {
            Some(i) => {
                proof {
                    self.lemma_entry(i as int);
                }
                self.keys.remove(i);
                let v = self.values.remove(i);
                proof {
                    let n: int = old(self).keys.len() as int;
                    let ii: int = i as int;
                    assert(self.key_seq() == old(self).key_seq().remove(ii));
                    assert forall|a: int, b: int|
                        0 <= a < self.key_seq().len() && 0 <= b < self.key_seq().len() && a != b
                        implies self.key_seq()[a] != self.key_seq()[b] by {
                        let oa: int = if a < ii { a } else { a + 1 };
                        let ob: int = if b < ii { b } else { b + 1 };
                        assert(old(self).key_seq()[oa] != old(self).key_seq()[ob]);
                    }
                    assert forall|k: Seq<char>|
                        #![trigger self.as_map().dom().contains(k)]
                        self.as_map().dom().contains(k) implies old(self)@.remove(key@).dom().contains(k)
                        && self.as_map()[k] == old(self)@.remove(key@)[k] by {
                        let j: int = self.key_seq().index_of(k);
                        assert(self.key_seq()[j] == k);
                        self.lemma_entry(j);
                        let oj: int = if j < ii { j } else { j + 1 };
                        assert(old(self).key_seq()[oj] == k);
                        assert(self.values@[j] == old(self).values@[oj]);
                        old(self).lemma_entry(oj);
                        assert(oj != ii);
                        assert(old(self).key_seq()[ii] == key@);
                        assert(k != key@);
                    }
                    assert forall|k: Seq<char>| old(self)@.remove(key@).dom().contains(k)
                        implies #[trigger] self.as_map().dom().contains(k) by {
                        let j: int = old(self).key_seq().index_of(k);
                        assert(old(self).key_seq()[j] == k);
                        assert(j != ii);
                        let nj: int = if j < ii { j } else { j - 1 };
                        assert(self.key_seq()[nj] == k);
                    }
                    assert(self.as_map() =~= old(self)@.remove(key@));
                }
                Some(v)
            },
            None => {
                proof {
                    self.lemma_absent(key@);
                    assert(self.as_map() =~= old(self)@.remove(key@));
                }
                None
            },
        }
    }
}

impl<V> Registry<V> {
    /// The keys, each once.
    pub fn keys(&self) -> (r: Vec<String>)
        requires
            self.wf(),
        ensures
            r@.len() == self@.dom().len(),
            r@.map_values(|k: String| k@).no_duplicates(),
            r@.map_values(|k: String| k@).to_set() == self@.dom(),
    {
        let mut r: Vec<String> = Vec::new();
        let mut i: usize = 0;
        while i < self.keys.len()
            invariant
                self.wf(),
                i <= self.keys.len(),
                r@.map_values(|k: String| k@) == self.key_seq().take(i as int),
            decreases self.keys.len() - i,
        {
            let ghost before = r@;
            r.push(self.keys[i].clone());
            proof {
                assert(r@ == before.push(self.keys@[i as int]));
                assert(r@.map_values(|k: String| k@) =~= before.map_values(|k: String| k@).push(
                    self.keys@[i as int]@,
                ));
                assert(r@.map_values(|k: String| k@) =~= self.key_seq().take(i + 1));
            }
            i = i + 1;
        }
        proof {
            self.lemma_len();
            assert(self.key_seq().take(i as int) =~= self.key_seq());
            assert(self.as_map().dom() =~= self.key_seq().to_set());
        }
        r
    }

    /// Every entry as a key/value pair, each key once.
    pub fn into_pairs(self) -> (r: Vec<(String, V)>)
        requires
            self.wf(),
        ensures
            r@.len() == self@.dom().len(),
            r@.map_values(|p: (String, V)| p.0@).no_duplicates(),
            forall|i: int|
                0 <= i < r@.len() ==> self@.dom().contains(#[trigger] r@[i].0@) && self@[r@[i].0@]
                    == r@[i].1,
            forall|k: Seq<char>|
                self@.dom().contains(k) ==> exists|i: int| 0 <= i < r@.len() && #[trigger] r@[i].0@ == k,
    {
        proof {
            self.lemma_len();
        }
        let ghost whole = self;
        let Registry { keys, values } = self;
        let mut keys = keys;
        let mut values = values;
        let mut r: Vec<(String, V)> = Vec::new();
        let ghost mut done: int = 0;
        while keys.len() > 0
            invariant
                whole.wf(),
                0 <= done <= whole.keys.len(),
                keys.len() == values.len(),
                keys@ == whole.keys@.skip(done),
                values@ == whole.values@.skip(done),
                r@.len() == done,
                forall|j: int|
                    0 <= j < done ==> #[trigger] r@[j] == (whole.keys@[j], whole.values@[j]),
            decreases keys.len(),
        {
            let k = keys.remove(0);
            let v = values.remove(0);
            r.push((k, v));
            proof {
                done = done + 1;
                assert(keys@ =~= whole.keys@.skip(done));
                assert(values@ =~= whole.values@.skip(done));
            }
        }
        proof {
            assert(r@.map_values(|p: (String, V)| p.0@) =~= whole.key_seq());
            assert forall|i: int| 0 <= i < r@.len() implies whole@.dom().contains(
                #[trigger] r@[i].0@,
            ) && whole@[r@[i].0@] == r@[i].1 by {
                whole.lemma_entry(i);
            }
            assert forall|k: Seq<char>| whole@.dom().contains(k) implies exists|i: int|
                0 <= i < r@.len() && #[trigger] r@[i].0@ == k by {
                let i: int = whole.key_seq().index_of(k);
                assert(whole.key_seq()[i] == k);
                assert(r@[i].0@ == k);
            }
        }
        r
    }
}

impl Registry<String> {
    /// The contents of a table of strings, with each value taken as its characters.
    pub open spec fn text(&self) -> Map<Seq<char>, Seq<char>> {
        self@.map_values(|v: String| v@)
    }
}

/// The table that storing the pairs one after another leaves behind: a later
/// pair replaces an earlier one with the same key.
pub open spec fn pairs_to_map<V>(pairs: Seq<(String, V)>) -> Map<Seq<char>, V>
    decreases pairs.len(),
{
    if pairs.len() == 0 {
        Map::empty()
    } else {
        pairs_to_map(pairs.drop_last()).insert(pairs.last().0@, pairs.last().1)
    }
}

impl<V> Registry<V> {
    /// Builds a table from key/value pairs, in order.
    pub fn from_pairs(pairs: Vec<(String, V)>) -> (r: Self)
        ensures
            r.wf(),
            r@ == pairs_to_map(pairs@),
    {
        let ghost all = pairs@;
        let mut rest = pairs;
        let mut r = Registry::new();
        let ghost mut done: int = 0;
        while rest.len() > 0
            invariant
                r.wf(),
                0 <= done <= all.len(),
                rest@ == all.skip(done),
                r@ == pairs_to_map(all.take(done)),
            decreases rest.len(),
        {
            let (k, v) = rest.remove(0);
            proof {
                assert(all[done] == (k, v));
                assert(all.take(done + 1).drop_last() == all.take(done));
            }
            r.insert(k, v);
            proof {
                done = done + 1;
                assert(rest@ == all.skip(done));
            }
        }
        proof {
            assert(all.take(done) == all);
        }
        r
    }
}

impl<V> View for Registry<V> {
    type V = Map<Seq<char>, V>;

    open spec fn view(&self) -> Map<Seq<char>, V> {
        self.as_map()
    }
}

} // verus!
