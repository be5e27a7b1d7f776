//! A small table of values under text keys.

use crate::text::same;
use vstd::prelude::*;

verus! {

/// Values under text keys, each key at most once.
#[derive(Debug)]
pub struct Table<V> {
    entries: Vec<(String, V)>,
}

impl<V> Table<V> {
    /// Whether entry `i` has the key `k`.
    pub closed spec fn at(self, i: int, k: Seq<char>) -> bool {
        0 <= i < self.entries@.len() && self.entries@[i].0@ == k
    }

    /// Whether no key occurs twice.
    pub closed spec fn wf(self) -> bool {
        forall|i: int, j: int|
            0 <= i < j < self.entries@.len() ==> (#[trigger] self.entries@[i]).0@ != (
            #[trigger] self.entries@[j]).0@
    }

    proof fn lemma_at(self, i: int, k: Seq<char>)
        requires
            self.wf(),
            self.at(i, k),
        ensures
            self@.contains_key(k),
            self@[k] == self.entries@[i].1,
    {
        let c = choose|c: int| self.at(c, k);
        assert(self.at(c, k));
        if c < i {
            assert(self.entries@[c].0@ != self.entries@[i].0@);
        } else if i < c {
            assert(self.entries@[i].0@ != self.entries@[c].0@);
        }
    }

    /// An empty table.
    pub fn new() -> (r: Self)
        ensures
            r.wf(),
            r@ == Map::<Seq<char>, V>::empty(),
    {
        let r = Table { entries: Vec::new() };
        assert(r@ =~= Map::<Seq<char>, V>::empty());
        r
    }

    fn find(&self, key: &str) -> (r: Option<usize>)
        requires
            self.wf(),
        ensures
            match r {
                Some(i) => self.at(i as int, key@),
                None => !self@.contains_key(key@),
            },
    {
        let mut i: usize = 0;
        while i < self.entries.len()
            invariant
                i <= self.entries@.len(),
                forall|j: int| 0 <= j < i ==> !self.at(j, key@),
            decreases self.entries@.len() - i,
        {
            if same(&self.entries[i].0, key) {
                return Some(i);
            }
            i = i + 1;
        }
        assert(forall|j: int| !self.at(j, key@));
        None
    }

    /// The value under a key.
    pub fn get(&self, key: &str) -> (r: Option<&V>)
        requires
            self.wf(),
        ensures
            match r {
                Some(v) => self@.contains_key(key@) && self@[key@] == *v,
                None => !self@.contains_key(key@),
            },
    {
        match self.find(key) {
            Some(i) => {
                proof {
                    self.lemma_at(i as int, key@);
                }
                Some(&self.entries[i].1)
            },
            None => None,
        }
    }

    /// Takes the value under a key out, if there is one.
    pub fn remove(&mut self, key: &str) -> (r: Option<V>)
        requires
            old(self).wf(),
        ensures
            final(self).wf(),
            final(self)@ == old(self)@.remove(key@),
            match r {
                Some(v) => old(self)@.contains_key(key@) && old(self)@[key@] == v,
                None => !old(self)@.contains_key(key@),
            },
    {
        match self.find(key) {
            Some(i) => {
                let ghost before = *self;
                let (_, v) = self.entries.remove(i);
                proof {
                    before.lemma_at(i as int, key@);
                    assert(self.entries@ == before.entries@.remove(i as int));
                    let want = before@.remove(key@);
                    assert forall|k: Seq<char>| #[trigger]
                        self@.dom().contains(k) implies want.dom().contains(k) && self@[k]
                        == want[k] by {
                        let j = choose|j: int| self.at(j, k);
                        assert(self.at(j, k));
                        self.lemma_at(j, k);
                        let o = if j < i {
                            j
                        } else {
                            j + 1
                        };
                        assert(before.entries@[o] == self.entries@[j]);
                        assert(before.at(o, k));
                        before.lemma_at(o, k);
                        if o < i {
                            assert(before.entries@[o].0@ != before.entries@[i as int].0@);
                        } else {
                            assert(before.entries@[i as int].0@ != before.entries@[o].0@);
                        }
                    }
                    assert forall|k: Seq<char>| #[trigger]
                        want.dom().contains(k) implies self@.dom().contains(k) by {
                        let o = choose|o: int| before.at(o, k);
                        assert(before.at(o, k));
                        let j = if o < i {
                            o
                        } else {
                            o - 1
                        };
                        assert(self.entries@[j] == before.entries@[o]);
                        assert(self.at(j, k));
                        self.lemma_at(j, k);
                    }
                    assert(self@ =~= want);
                }
                Some(v)
            },
            None => {
                assert(self@ =~= old(self)@.remove(key@));
                None
            },
        }
    }

    /// Puts a value under a key, in place of what was there.
    pub fn insert(&mut self, key: &str, value: V)
        requires
            old(self).wf(),
        ensures
            final(self).wf(),
            final(self)@ == old(self)@.insert(key@, value),
    {
        let _ = self.remove(key);
        let ghost before = *self;
        self.entries.push((key.to_owned(), value));
        proof {
            let n = before.entries@.len() as int;
            assert(self.at(n, key@));
            assert forall|i: int, j: int| 0 <= i < j < self.entries@.len() implies (
            #[trigger] self.entries@[i]).0@ != (#[trigger] self.entries@[j]).0@ by {
                if j == n {
                    if self.entries@[i].0@ == key@ {
                        assert(before.at(i, key@));
                        before.lemma_at(i, key@);
                    }
                } else {
                    assert(before.entries@[i].0@ != before.entries@[j].0@);
                }
            }
            let want = before@.insert(key@, value);
            self.lemma_at(n, key@);
            assert forall|k: Seq<char>| #[trigger] self@.dom().contains(k) implies want.dom().contains(
                k,
            ) && self@[k] == want[k] by {
                if k != key@ {
                    let j = choose|j: int| self.at(j, k);
                    assert(self.at(j, k));
                    self.lemma_at(j, k);
                    assert(before.at(j, k));
                    before.lemma_at(j, k);
                }
            }
            assert forall|k: Seq<char>| #[trigger] want.dom().contains(k) implies self@.dom().contains(
                k,
            ) by {
                if k != key@ {
                    let j = choose|j: int| before.at(j, k);
                    assert(before.at(j, k));
                    assert(self.at(j, k));
                    self.lemma_at(j, k);
                }
            }
            assert(self@ =~= want);
            assert(self@ =~= old(self)@.insert(key@, value));
        }
    }
}

impl<V> View for Table<V> {
    type V = Map<Seq<char>, V>;

    closed spec fn view(&self) -> Map<Seq<char>, V> {
        Map::new(
            |k: Seq<char>| exists|i: int| self.at(i, k),
            |k: Seq<char>| self.entries@[choose|i: int| self.at(i, k)].1,
        )
    }
}

} // verus!
