//! The flat store of byte-string values under byte-string keys.

use vstd::prelude::*;
use vstd::slice::slice_to_vec;

verus! {

/// Whether two byte strings hold the same bytes.
pub fn bytes_eq(a: &[u8], b: &[u8]) -> (r: bool)
    ensures
        r == (a@ == b@),
{
    if a.len() != b.len() {
        return false;
    }
    let mut i: usize = 0;
    while i < a.len()
        invariant
            a@.len() == b@.len(),
            0 <= i <= a@.len(),
            forall|j: int| 0 <= j < i ==> a@[j] == b@[j],
        decreases a@.len() - i,
    {
        if a[i] != b[i] {
            return false;
        }
        i += 1;
    }
    assert(a@ =~= b@);
    true
}

/// The content of a key space after a run of writes into an empty one, the
/// first write first. A write is a key and the value put under it.
pub open spec fn after_writes(writes: Seq<(Seq<u8>, Seq<u8>)>) -> Map<Seq<u8>, Seq<u8>>
    decreases writes.len(),
{
    if writes.len() == 0 {
        Map::empty()
    } else {
        after_writes(writes.drop_last()).insert(writes.last().0, writes.last().1)
    }
}

/// After a run of writes a key holds a value exactly if one of the writes
/// was at that key: a key never written is absent, a key just written is
/// present.
pub proof fn lemma_present_iff_written(writes: Seq<(Seq<u8>, Seq<u8>)>, key: Seq<u8>)
    ensures
        after_writes(writes).contains_key(key) <==> exists|i: int|
            0 <= i < writes.len() && (#[trigger] writes[i]).0 == key,
    decreases writes.len(),
{
    if writes.len() > 0 {
        let head = writes.drop_last();
        lemma_present_iff_written(head, key);
        if after_writes(writes).contains_key(key) {
            if writes.last().0 == key {
                assert(writes[writes.len() - 1].0 == key);
            } else {
                let i = choose|i: int| 0 <= i < head.len() && (#[trigger] head[i]).0 == key;
                assert(writes[i].0 == key);
            }
        }
        if exists|i: int| 0 <= i < writes.len() && (#[trigger] writes[i]).0 == key {
            let i = choose|i: int| 0 <= i < writes.len() && (#[trigger] writes[i]).0 == key;
            if i < head.len() {
                assert(head[i].0 == key);
            }
        }
    }
}

/// After a run of writes a key that was written holds the value of the last
/// write at it.
pub proof fn lemma_last_write_wins(writes: Seq<(Seq<u8>, Seq<u8>)>, i: int)
    requires
        0 <= i < writes.len(),
        forall|j: int| i < j < writes.len() ==> (#[trigger] writes[j]).0 != writes[i].0,
    ensures
        after_writes(writes).contains_key(writes[i].0),
        after_writes(writes)[writes[i].0] == writes[i].1,
    decreases writes.len(),
{
    if i < writes.len() - 1 {
        let head = writes.drop_last();
        assert(head[i] == writes[i]);
        assert forall|j: int| i < j < head.len() implies (#[trigger] head[j]).0 != head[i].0 by {
            assert(head[j] == writes[j]);
        }
        lemma_last_write_wins(head, i);
        assert(writes[writes.len() - 1].0 != writes[i].0);
    }
}

struct Entry {
    key: Vec<u8>,
    value: Vec<u8>,
}

/// A key space: at most one value under each key.
///
/// Its view is the map from the keys that were written, and not deleted
/// since, to the value last written under each.
pub struct KeySpace {
    entries: Vec<Entry>,
}

impl KeySpace {
    spec fn key_at(&self, i: int) -> Seq<u8> {
        self.entries@[i].key@
    }

    spec fn holds(&self, k: Seq<u8>) -> bool {
        exists|i: int| 0 <= i < self.entries@.len() && #[trigger] self.key_at(i) == k
    }

    spec fn slot(&self, k: Seq<u8>) -> int {
        choose|i: int| 0 <= i < self.entries@.len() && #[trigger] self.key_at(i) == k
    }

    /// No key is held twice.
    pub closed spec fn wf(&self) -> bool {
        forall|i: int, j: int|
            #![trigger self.key_at(i), self.key_at(j)]
            0 <= i < j < self.entries@.len() ==> self.key_at(i) != self.key_at(j)
    }

    pub closed spec fn view(&self) -> Map<Seq<u8>, Seq<u8>> {
        Map::new(|k: Seq<u8>| self.holds(k), |k: Seq<u8>| self.entries@[self.slot(k)].value@)
    }

    proof fn lemma_slot(&self, i: int)
        requires
            self.wf(),
            0 <= i < self.entries@.len(),
        ensures
            self@.contains_key(self.key_at(i)),
            self@[self.key_at(i)] == self.entries@[i].value@,
            self.slot(self.key_at(i)) == i,
    {
        let k = self.key_at(i);
        assert(self.holds(k));
        let j = self.slot(k);
        assert(self.key_at(j) == k);
        if i < j {
            assert(self.key_at(i) != self.key_at(j));
        } else if j < i {
            assert(self.key_at(j) != self.key_at(i));
        }
    }

    /// The empty key space.
    pub fn new() -> (r: KeySpace)
        ensures
            r.wf(),
            r@ == Map::<Seq<u8>, Seq<u8>>::empty(),
    {
        let r = KeySpace { entries: Vec::new() };
        assert(r@ =~= Map::<Seq<u8>, Seq<u8>>::empty());
        r
    }

    fn find(&self, key: &[u8]) -> (r: Option<usize>)
        ensures
            match r {
                Some(i) => i < self.entries@.len() && self.key_at(i as int) == key@,
                None => forall|j: int| 0 <= j < self.entries@.len() ==> self.key_at(j) != key@,
            },
    {
        let mut i: usize = 0;
        while i < self.entries.len()
            invariant
                0 <= i <= self.entries@.len(),
                forall|j: int| 0 <= j < i ==> self.key_at(j) != key@,
            decreases self.entries@.len() - i,
        {
            if bytes_eq(self.entries[i].key.as_slice(), key) {
                return Some(i);
            }
            i += 1;
        }
        None
    }

    /// The value under `key`, if one is there.
    pub fn read(&self, key: &[u8]) -> (r: Option<Vec<u8>>)
        requires
            self.wf(),
        ensures
            match r {
                Some(v) => self@.contains_key(key@) && self@[key@] == v@,
                None => !self@.contains_key(key@),
            },
    {
        match self.find(key) {
            Some(i) => {
                proof {
                    self.lemma_slot(i as int);
                }
                Some(slice_to_vec(self.entries[i].value.as_slice()))
            },
            None => None,
        }
    }

    /// Whether a value is under `key`.
    pub fn is_present(&self, key: &[u8]) -> (r: bool)
        requires
            self.wf(),
        ensures
            r == self@.contains_key(key@),
    {
        match self.find(key) {
            Some(i) => {
                proof {
                    self.lemma_slot(i as int);
                }
                true
            },
            None => false,
        }
    }

    /// Puts `value` under `key`, in place of what was there.
    pub fn write(&mut self, key: &[u8], value: &[u8])
        requires
            old(self).wf(),
        ensures
            final(self).wf(),
            final(self)@ == old(self)@.insert(key@, value@),
    {
        let found = self.find(key);
        let entry = Entry { key: slice_to_vec(key), value: slice_to_vec(value) };
        let ghost before = *self;
        let ghost at: int = match found {
            Some(i) => i as int,
            None => self.entries@.len() as int,
        };
        match found {
            Some(i) => {
                self.entries.set(i, entry);
            },
            None => {
                self.entries.push(entry);
            },
        }
        proof {
            let after = *self;
            assert(after.key_at(at) == key@);
            assert forall|j: int| 0 <= j < before.entries@.len() implies #[trigger] after.key_at(j)
                == before.key_at(j) by {}
            assert(after.wf()) by {
                assert forall|i: int, j: int| 0 <= i < j < after.entries@.len() implies after.key_at(
                    i,
                ) != after.key_at(j) by {
                    if j < before.entries@.len() {
                        assert(before.key_at(i) != before.key_at(j));
                    } else {
                        assert(before.key_at(i) != key@);
                    }
                }
            }
            let want = before@.insert(key@, value@);
            assert forall|q: Seq<u8>| after@.contains_key(q) <==> want.contains_key(q) by {
                if before.holds(q) {
                    let j = before.slot(q);
                    assert(after.key_at(j) == q);
                }
                if after.holds(q) && q != key@ {
                    let j = after.slot(q);
                    assert(before.key_at(j) == q);
                }
            }
            assert forall|q: Seq<u8>| after@.contains_key(q) implies after@[q] == want[q] by {
                let j = after.slot(q);
                after.lemma_slot(j);
                after.lemma_slot(at);
                if q != key@ {
                    before.lemma_slot(j);
                }
            }
            assert(after@ =~= want);
        }
    }

    /// Takes away what is under `key`.
    pub fn delete(&mut self, key: &[u8])
        requires
            old(self).wf(),
        ensures
            final(self).wf(),
            final(self)@ == old(self)@.remove(key@),
    {
        let ghost before = *self;
        match self.find(key) {
            Some(i) => {
                let _ = self.entries.remove(i);
                proof {
                    let after = *self;
                    let at = i as int;
                    assert forall|j: int| 0 <= j < after.entries@.len() implies #[trigger] after.key_at(
                        j,
                    ) == before.key_at(if j < at { j } else { j + 1 }) by {}
                    assert(after.wf()) by {
                        assert forall|a: int, b: int| 0 <= a < b < after.entries@.len() implies after.key_at(
                            a,
                        ) != after.key_at(b) by {
                            let a0 = if a < at { a } else { a + 1 };
                            let b0 = if b < at { b } else { b + 1 };
                            assert(before.key_at(a0) != before.key_at(b0));
                        }
                    }
                    let want = before@.remove(key@);
                    before.lemma_slot(at);
                    assert forall|q: Seq<u8>| after@.contains_key(q) <==> want.contains_key(q) by {
                        if before.holds(q) && q != key@ {
                            let j = before.slot(q);
                            let j1 = if j < at { j } else { j - 1 };
                            assert(after.key_at(j1) == q);
                        }
                        if after.holds(q) {
                            let j = after.slot(q);
                            let j0 = if j < at { j } else { j + 1 };
                            assert(before.key_at(j0) == q);
                            if q == key@ {
                                before.lemma_slot(j0);
                            }
                        }
                    }
                    assert forall|q: Seq<u8>| after@.contains_key(q) implies after@[q] == want[q] by {
                        let j = after.slot(q);
                        let j0 = if j < at { j } else { j + 1 };
                        after.lemma_slot(j);
                        before.lemma_slot(j0);
                    }
                    assert(after@ =~= want);
                }
            },
            None => {
                proof {
                    assert(!before@.contains_key(key@));
                    assert(before@ =~= before@.remove(key@));
                }
            },
        }
    }
}

} // verus!
