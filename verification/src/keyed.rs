//! A small dictionary keyed by text, kept as a list of distinct keys.
use vstd::prelude::*;
use crate::text::{chars_of, same_chars};

verus! {

/// Values keyed by text; each key occurs once.
#[derive(Debug)]
pub struct KeyedList<V> {
    pub entries: Vec<(String, V)>,
}

/// The position of `k` among the keys of `entries`, when it occurs.
pub open spec fn key_index<V>(entries: Seq<(String, V)>, k: Seq<char>) -> Option<int> {
    if exists|i: int| 0 <= i < entries.len() && #[trigger] entries[i].0@ == k {
        Some(choose|i: int| 0 <= i < entries.len() && #[trigger] entries[i].0@ == k)
    } else {
        None
    }
}

impl<V> KeyedList<V> {
    /// No key occurs twice.
    pub open spec fn well_formed(&self) -> bool {
        forall|i: int, j: int|
            0 <= i < self.entries@.len() && 0 <= j < self.entries@.len() && i != j
                ==> #[trigger] self.entries@[i].0@ != #[trigger] self.entries@[j].0@
    }

    /// The dictionary as a map.
    pub open spec fn to_map(&self) -> Map<Seq<char>, V> {
        Map::new(
            |k: Seq<char>| key_index(self.entries@, k) is Some,
            |k: Seq<char>| self.entries@[key_index(self.entries@, k)->0].1,
        )
    }

    /// An empty dictionary.
    pub fn new() -> (m: Self)
        ensures
            m.well_formed(),
            m.to_map() == Map::<Seq<char>, V>::empty(),
    {
        let m = KeyedList { entries: Vec::new() };
        proof {
            assert(m.to_map() =~= Map::<Seq<char>, V>::empty());
        }
        m
    }

    /// The number of keys.
    pub fn len(&self) -> (n: usize)
        requires
            self.well_formed(),
        ensures
            n == self.entries@.len(),
    {
        self.entries.len()
    }

    fn find(&self, k: &str) -> (r: Option<usize>)
        ensures
            match r {
                Some(i) => i < self.entries@.len() && self.entries@[i as int].0@ == k@,
                None => forall|i: int|
                    0 <= i < self.entries@.len() ==> #[trigger] self.entries@[i].0@ != k@,
            },
    {
        let kc = chars_of(k);
        let n = self.entries.len();
        let mut i: usize = 0;
        while i < n
            invariant
                n == self.entries.len(),
                i <= n,
                kc@ == k@,
                forall|j: int| 0 <= j < i ==> #[trigger] self.entries@[j].0@ != k@,
            decreases n - i,
        {
            let name = chars_of(self.entries[i].0.as_str());
            if same_chars(&name, &kc) {
                return Some(i);
            }
            i = i + 1;
        }
        None
    }

    /// The value under `k`, if any.
    pub fn get(&self, k: &str) -> (r: Option<&V>)
        requires
            self.well_formed(),
        ensures
            match r {
                Some(v) => self.to_map().contains_key(k@) && self.to_map()[k@] == *v,
                None => !self.to_map().contains_key(k@),
            },
    {
        match self.find(k) {
            Some(i) => {
                proof {
                    let j = key_index(self.entries@, k@)->0;
                    assert(self.entries@[j].0@ == k@);
                    assert(j == i);
                }
                Some(&self.entries[i].1)
            },
            None => None,
        }
    }

    /// Stores `v` under `k`, replacing any earlier value.
    pub fn insert(&mut self, k: String, v: V)
        requires
            old(self).well_formed(),
        ensures
            final(self).well_formed(),
            final(self).to_map() == old(self).to_map().insert(k@, v),
    {
        let ghost kv = k@;
        match self.find(k.as_str()) {
            Some(i) => {
                self.entries.set(i, (k, v));
                proof {
                    assert forall|key: Seq<char>| #[trigger]
                        self.to_map().contains_key(key) == old(self).to_map().insert(
                            kv,
                            v,
                        ).contains_key(key) by {
                        if key != kv {
                            if key_index(old(self).entries@, key) is Some {
                                let j = key_index(old(self).entries@, key)->0;
                                assert(self.entries@[j].0@ == key);
                            }
                            if key_index(self.entries@, key) is Some {
                                let j = key_index(self.entries@, key)->0;
                                assert(old(self).entries@[j].0@ == key);
                            }
                        } else {
                            assert(self.entries@[i as int].0@ == key);
                        }
                    }
                    assert forall|key: Seq<char>| #[trigger]
                        self.to_map().contains_key(key) implies self.to_map()[key] == old(
                            self,
                        ).to_map().insert(kv, v)[key] by {
                        let j = key_index(self.entries@, key)->0;
                        if key == kv {
                            assert(j == i);
                        } else {
                            assert(old(self).entries@[j].0@ == key);
                            let j0 = key_index(old(self).entries@, key)->0;
                            assert(j0 == j);
                        }
                    }
                    assert(self.to_map() =~= old(self).to_map().insert(kv, v));
                }
            },
            None => {
                self.entries.push((k, v));
                proof {
                    let n = old(self).entries@.len();
                    assert forall|key: Seq<char>| #[trigger]
                        self.to_map().contains_key(key) == old(self).to_map().insert(
                            kv,
                            v,
                        ).contains_key(key) by {
                        if key != kv {
                            if key_index(old(self).entries@, key) is Some {
                                let j = key_index(old(self).entries@, key)->0;
                                assert(self.entries@[j].0@ == key);
                            }
                            if key_index(self.entries@, key) is Some {
                                let j = key_index(self.entries@, key)->0;
                                assert(j != n);
                                assert(old(self).entries@[j].0@ == key);
                            }
                        } else {
                            assert(self.entries@[n as int].0@ == key);
                        }
                    }
                    assert forall|key: Seq<char>| #[trigger]
                        self.to_map().contains_key(key) implies self.to_map()[key] == old(
                            self,
                        ).to_map().insert(kv, v)[key] by {
                        let j = key_index(self.entries@, key)->0;
                        if key == kv {
                            assert(j == n);
                        } else {
                            assert(j != n);
                            assert(old(self).entries@[j].0@ == key);
                            let j0 = key_index(old(self).entries@, key)->0;
                            assert(j0 == j);
                        }
                    }
                    assert(self.to_map() =~= old(self).to_map().insert(kv, v));
                }
            },
        }
    }

    /// Takes out the value under `k`, if any.
    pub fn remove(&mut self, k: &str) -> (r: Option<V>)
        requires
            old(self).well_formed(),
        ensures
            final(self).well_formed(),
            final(self).to_map() == old(self).to_map().remove(k@),
            match r {
                Some(v) => old(self).to_map().contains_key(k@) && old(self).to_map()[k@] == v,
                None => !old(self).to_map().contains_key(k@),
            },
    {
        match self.find(k) {
            Some(i) => {
                let (_, v) = self.entries.remove(i);
                proof {
                    let j0 = key_index(old(self).entries@, k@)->0;
                    assert(old(self).entries@[j0].0@ == k@);
                    assert(j0 == i);
                    assert forall|key: Seq<char>| #[trigger]
                        self.to_map().contains_key(key) == old(self).to_map().remove(
                            k@,
                        ).contains_key(key) by {
                        if key_index(old(self).entries@, key) is Some {
                            let j = key_index(old(self).entries@, key)->0;
                            if j < i {
                                assert(self.entries@[j].0@ == key);
                            } else if j > i {
                                assert(self.entries@[j - 1].0@ == key);
                            }
                        }
                        if key_index(self.entries@, key) is Some {
                            let j = key_index(self.entries@, key)->0;
                            if j < i {
                                assert(old(self).entries@[j].0@ == key);
                            } else {
                                assert(old(self).entries@[j + 1].0@ == key);
                            }
                        }
                    }
                    assert forall|key: Seq<char>| #[trigger]
                        self.to_map().contains_key(key) implies self.to_map()[key] == old(
                            self,
                        ).to_map().remove(k@)[key] by {
                        let j = key_index(self.entries@, key)->0;
                        let jo = if j < i {
                            j
                        } else {
                            j + 1
                        };
                        assert(old(self).entries@[jo].0@ == key);
                        let j0 = key_index(old(self).entries@, key)->0;
                        assert(j0 == jo);
                    }
                    assert(self.to_map() =~= old(self).to_map().remove(k@));
                }
                Some(v)
            },
            None => {
                proof {
                    assert(old(self).to_map().remove(k@) =~= old(self).to_map());
                }
                None
            },
        }
    }
}

} // verus!
