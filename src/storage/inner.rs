//! The map that every in-memory backend keeps: a list of entries with
//! pairwise distinct keys, viewed as a finite map from key to value.
use vstd::prelude::*;

use super::error::KvError;

verus! {

/// Key-value pairs, each key present at most once.
pub struct Storage {
    entries: Vec<(String, String)>,
    contents: Ghost<Map<Seq<char>, Seq<char>>>,
}

impl View for Storage {
    type V = Map<Seq<char>, Seq<char>>;

    closed spec fn view(&self) -> Map<Seq<char>, Seq<char>> {
        self.contents@
    }
}

/// Keys are pairwise distinct, and the entries are exactly the pairs of `contents`.
spec fn entries_match(entries: Seq<(String, String)>, contents: Map<Seq<char>, Seq<char>>) -> bool {
    &&& forall|i: int, j: int|
        0 <= i < j < entries.len() ==> #[trigger] entries[i].0@ != #[trigger] entries[j].0@
    &&& forall|i: int|
        0 <= i < entries.len() ==> contents.contains_key(#[trigger] entries[i].0@)
            && contents[entries[i].0@] == entries[i].1@
    &&& forall|k: Seq<char>|
        #[trigger] contents.contains_key(k) ==> exists|i: int|
            0 <= i < entries.len() && #[trigger] entries[i].0@ == k
}

impl Storage {
    #[verifier::type_invariant]
    spec fn inv(&self) -> bool {
        entries_match(self.entries@, self.contents@)
    }

    /// An empty map.
    pub fn new() -> (s: Self)
        ensures
            s@ == Map::<Seq<char>, Seq<char>>::empty(),
    {
        Storage { entries: Vec::new(), contents: Ghost(Map::empty()) }
    }

    /// The position of `key` among the entries, if it is there.
    fn find(&self, key: &String) -> (r: Option<usize>)
        ensures
            match r {
                Some(i) => i < self.entries@.len() && self.entries@[i as int].0@ == key@,
                None => forall|i: int|
                    0 <= i < self.entries@.len() ==> #[trigger] self.entries@[i].0@ != key@,
            },
    {
        let mut i: usize = 0;
        while i < self.entries.len()
            invariant
                i <= self.entries@.len(),
                forall|j: int| 0 <= j < i ==> #[trigger] self.entries@[j].0@ != key@,
            decreases self.entries@.len() - i,
        {
            if self.entries[i].0 == *key {
                return Some(i);
            }
            i = i + 1;
        }
        None
    }

    /// Inserts `key` with `value`, replacing the value it had.
    pub fn set(&mut self, key: String, value: String)
        ensures
            final(self)@ == old(self)@.insert(key@, value@),
    {
        proof {
            use_type_invariant(&*self);
        }
        let found = self.find(&key);
        let mut taken = Storage::new();
        std::mem::swap(&mut taken, self);
        proof {
            use_type_invariant(&taken);
        }
        let Storage { mut entries, contents } = taken;
        let ghost old_entries = entries@;
        let ghost k = key@;
        let ghost v = value@;
        match found {
            Some(i) => {
                entries.remove(i);
            },
            None => {},
        }
        let ghost kept = entries@;
        entries.push((key, value));
        let ghost new_contents = contents@.insert(k, v);
        proof {
            let skip: int = match found {
                Some(i) => i as int,
                None => old_entries.len() as int,
            };
            assert forall|j: int| 0 <= j < kept.len() implies #[trigger] kept[j] == (if j
                < skip {
                old_entries[j]
            } else {
                old_entries[j + 1]
            }) by {}
            assert forall|j: int| 0 <= j < kept.len() implies #[trigger] kept[j].0@ != k by {
                if j < skip {
                    assert(old_entries[j] == kept[j]);
                } else {
                    assert(old_entries[j + 1] == kept[j]);
                }
            }
            assert(entries@ == kept.push((key, value)));
            assert forall|a: int, b: int|
                0 <= a < b < entries@.len() implies #[trigger] entries@[a].0@
                != #[trigger] entries@[b].0@ by {
                if b == kept.len() {
                    assert(entries@[a] == kept[a]);
                } else {
                    assert(entries@[a] == kept[a]);
                    assert(entries@[b] == kept[b]);
                    if a < skip && b >= skip {
                        assert(old_entries[a].0@ != old_entries[b + 1].0@);
                    }
                }
            }
            assert forall|a: int| 0 <= a < entries@.len() implies new_contents.contains_key(
                #[trigger] entries@[a].0@,
            ) && new_contents[entries@[a].0@] == entries@[a].1@ by {
                if a < kept.len() {
                    assert(entries@[a] == kept[a]);
                    assert(kept[a].0@ != k);
                    if a < skip {
                        assert(old_entries[a] == kept[a]);
                    } else {
                        assert(old_entries[a + 1] == kept[a]);
                    }
                }
            }
            assert forall|q: Seq<char>| #[trigger] new_contents.contains_key(q) implies exists|
                i: int,
            | 0 <= i < entries@.len() && #[trigger] entries@[i].0@ == q by {
                if q == k {
                    assert(entries@[kept.len() as int].0@ == q);
                } else {
                    let o = choose|o: int| 0 <= o < old_entries.len() && old_entries[o].0@ == q;
                    if o < skip {
                        assert(entries@[o] == kept[o]);
                        assert(entries@[o].0@ == q);
                    } else {
                        assert(o != skip);
                        assert(entries@[o - 1] == kept[o - 1]);
                        assert(entries@[o - 1].0@ == q);
                    }
                }
            }
        }
        proof {
            assert(entries_match(entries@, new_contents));
        }
        *self = Storage { entries, contents: Ghost(new_contents) };
    }

    /// The value of `key`, or `KeyNotFound`.
    pub fn get(&self, key: &str) -> (r: Result<String, KvError>)
        ensures
            r is Ok <==> self@.contains_key(key@),
            r is Ok ==> r->Ok_0@ == self@[key@],
            r is Err ==> r->Err_0 is KeyNotFound,
    {
        proof {
            use_type_invariant(&*self);
        }
        let k = key.to_owned();
        match self.find(&k) {
            Some(i) => Ok(self.entries[i].1.clone()),
            None => Err(KvError::KeyNotFound),
        }
    }

    /// Removes `key`, or reports `KeyNotFound` and changes nothing.
    pub fn delete(&mut self, key: &str) -> (r: Result<(), KvError>)
        ensures
            r is Ok <==> old(self)@.contains_key(key@),
            r is Ok ==> final(self)@ == old(self)@.remove(key@),
            r is Err ==> r->Err_0 is KeyNotFound && final(self)@ == old(self)@,
    {
        proof {
            use_type_invariant(&*self);
        }
        let k = key.to_owned();
        match self.find(&k) {
            None => Err(KvError::KeyNotFound),
            Some(i) => {
                let mut taken = Storage::new();
                std::mem::swap(&mut taken, self);
                proof {
                    use_type_invariant(&taken);
                }
                let Storage { mut entries, contents } = taken;
                let ghost old_entries = entries@;
                entries.remove(i);
                let ghost new_contents = contents@.remove(k@);
                proof {
                    assert forall|j: int| 0 <= j < entries@.len() implies #[trigger] entries@[j]
                        == (if j < i {
                        old_entries[j]
                    } else {
                        old_entries[j + 1]
                    }) by {}
                    assert forall|a: int, b: int|
                        0 <= a < b < entries@.len() implies #[trigger] entries@[a].0@
                        != #[trigger] entries@[b].0@ by {
                        if a < i && b >= i {
                            assert(old_entries[a].0@ != old_entries[b + 1].0@);
                        }
                    }
                    assert forall|a: int| 0 <= a < entries@.len() implies new_contents.contains_key(
                        #[trigger] entries@[a].0@,
                    ) && new_contents[entries@[a].0@] == entries@[a].1@ by {
                        if a < i {
                            assert(old_entries[a].0@ != old_entries[i as int].0@);
                        } else {
                            assert(old_entries[i as int].0@ != old_entries[a + 1].0@);
                        }
                    }
                    assert forall|q: Seq<char>| #[trigger] new_contents.contains_key(q) implies exists|
                        j: int,
                    | 0 <= j < entries@.len() && #[trigger] entries@[j].0@ == q by {
                        let o = choose|o: int|
                            0 <= o < old_entries.len() && old_entries[o].0@ == q;
                        if o < i {
                            assert(entries@[o].0@ == q);
                        } else {
                            assert(o != i);
                            assert(entries@[o - 1].0@ == q);
                        }
                    }
                }
                proof {
                    assert(entries_match(entries@, new_contents));
                }
                *self = Storage { entries, contents: Ghost(new_contents) };
                Ok(())
            },
        }
    }
}

} // verus!
