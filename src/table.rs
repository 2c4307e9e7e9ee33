use crate::address::Address;
use vstd::prelude::*;

verus! {

/// Values keyed by address, held as a vector of entries with distinct keys.
/// Its view is the map from each key's bytes to the view of its value.
pub struct Table<V: View> {
    entries: Vec<(Address, V)>,
    contents: Ghost<Map<Seq<u8>, V::V>>,
}

impl<V: View + Copy> View for Table<V> {
    type V = Map<Seq<u8>, V::V>;

    closed spec fn view(&self) -> Map<Seq<u8>, V::V> {
        self.contents@
    }
}

impl<V: View + Copy> Table<V> {
    /// Keys are distinct and the entries are exactly the contents.
    pub closed spec fn wf(&self) -> bool {
        &&& forall|i: int, j: int|
            0 <= i < j < self.entries@.len() ==> self.entries@[i].0@ != self.entries@[j].0@
        &&& forall|k: Seq<u8>|
            self.contents@.contains_key(k) <==> exists|i: int|
                0 <= i < self.entries@.len() && (#[trigger] self.entries@[i]).0@ == k
        &&& forall|i: int|
            0 <= i < self.entries@.len() ==> self.contents@[(#[trigger] self.entries@[i]).0@]
                == self.entries@[i].1@
    }

    pub fn new() -> (r: Table<V>)
        ensures
            r.wf(),
            r@ == Map::<Seq<u8>, V::V>::empty(),
    {
        Table { entries: Vec::new(), contents: Ghost(Map::empty()) }
    }

    fn position(&self, k: &Address) -> (r: Option<usize>)
        requires
            self.wf(),
        ensures
            match r {
                Some(i) => i < self.entries@.len() && self.entries@[i as int].0@ == k@,
                None => !self@.contains_key(k@),
            },
    {
        let mut i: usize = 0;
        while i < self.entries.len()
            invariant
                self.wf(),
                0 <= i <= self.entries@.len(),
                forall|j: int| 0 <= j < i ==> self.entries@[j].0@ != k@,
            decreases self.entries@.len() - i,
        {
            if self.entries[i].0.same(k) {
                return Some(i);
            }
            i = i + 1;
        }
        None
    }

    /// The value under `k`, if any.
    pub fn get(&self, k: &Address) -> (r: Option<V>)
        requires
            self.wf(),
        ensures
            match r {
                Some(v) => self@.contains_key(k@) && self@[k@] == v@,
                None => !self@.contains_key(k@),
            },
    {
        match self.position(k) {
            Some(i) => Some(self.entries[i].1),
            None => None,
        }
    }

    /// Puts `v` under `k`, replacing any earlier value.
    pub fn set(&mut self, k: &Address, v: V)
        requires
            old(self).wf(),
        ensures
            final(self).wf(),
            final(self)@ == old(self)@.insert(k@, v@),
    {
        match self.position(k) {
            Some(i) => {
                let ghost before = self.entries@;
                self.entries.set(i, (*k, v));
                self.contents = Ghost(self.contents@.insert(k@, v@));
                assert forall|key: Seq<u8>|
                    self.contents@.contains_key(key) <==> exists|j: int|
                        0 <= j < self.entries@.len() && (#[trigger] self.entries@[j]).0@ == key by {
                    if self.contents@.contains_key(key) && key != k@ {
                        let j = choose|j: int|
                            0 <= j < before.len() && (#[trigger] before[j]).0@ == key;
                        assert(self.entries@[j] == before[j]);
                    }
                    if key == k@ {
                        assert(self.entries@[i as int].0@ == key);
                    }
                }
            },
            None => {
                let ghost before = self.entries@;
                self.entries.push((*k, v));
                self.contents = Ghost(self.contents@.insert(k@, v@));
                assert forall|key: Seq<u8>|
                    self.contents@.contains_key(key) <==> exists|j: int|
                        0 <= j < self.entries@.len() && (#[trigger] self.entries@[j]).0@ == key by {
                    if self.contents@.contains_key(key) && key != k@ {
                        let j = choose|j: int|
                            0 <= j < before.len() && (#[trigger] before[j]).0@ == key;
                        assert(self.entries@[j] == before[j]);
                    }
                    if key == k@ {
                        assert(self.entries@[before.len() as int].0@ == key);
                    }
                }
            },
        }
    }

    /// Takes the entry under `k` out, if there is one.
    pub fn remove(&mut self, k: &Address)
        requires
            old(self).wf(),
        ensures
            final(self).wf(),
            final(self)@ == old(self)@.remove(k@),
    {
        match self.position(k) {
            Some(i) => {
                let ghost before = self.entries@;
                self.entries.remove(i);
                self.contents = Ghost(self.contents@.remove(k@));
                assert forall|key: Seq<u8>|
                    self.contents@.contains_key(key) <==> exists|j: int|
                        0 <= j < self.entries@.len() && (#[trigger] self.entries@[j]).0@ == key by {
                    if self.contents@.contains_key(key) {
                        let j = choose|j: int|
                            0 <= j < before.len() && (#[trigger] before[j]).0@ == key;
                        if j < i {
                            assert(self.entries@[j] == before[j]);
                        } else {
                            assert(j != i);
                            assert(self.entries@[j - 1] == before[j]);
                        }
                    }
                    if exists|j: int|
                        0 <= j < self.entries@.len() && (#[trigger] self.entries@[j]).0@ == key {
                        let j = choose|j: int|
                            0 <= j < self.entries@.len() && (#[trigger] self.entries@[j]).0@ == key;
                        if j < i {
                            assert(self.entries@[j] == before[j]);
                        } else {
                            assert(self.entries@[j] == before[j + 1]);
                        }
                    }
                }
            },
            None => {
                assert(self.contents@.remove(k@) =~= self.contents@);
            },
        }
    }

    /// A copy with the same contents.
    pub fn duplicate(&self) -> (r: Table<V>)
        requires
            self.wf(),
        ensures
            r.wf(),
            r@ == self@,
    {
        let mut entries: Vec<(Address, V)> = Vec::new();
        let mut i: usize = 0;
        while i < self.entries.len()
            invariant
                0 <= i <= self.entries@.len(),
                entries@ == self.entries@.subrange(0, i as int),
            decreases self.entries@.len() - i,
        {
            entries.push(self.entries[i]);
            i = i + 1;
            assert(entries@ =~= self.entries@.subrange(0, i as int));
        }
        assert(entries@ =~= self.entries@);
        let r = Table { entries, contents: Ghost(self.contents@) };
        assert(r.entries@ == self.entries@);
        assert(r.wf());
        r
    }
}

} // verus!
