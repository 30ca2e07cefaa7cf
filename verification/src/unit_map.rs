//! The units of one kind, keyed by their ids.
use vstd::prelude::*;
use crate::types::{UnitId, UnitRecord};

verus! {

/// Whether two unit ids are the same 32 bytes.
pub fn same_id(a: &UnitId, b: &UnitId) -> (same: bool)
    ensures
        same == (*a == *b),
{
    let mut i: usize = 0;
    while i < 32
        invariant
            i <= 32,
            a@.len() == 32,
            b@.len() == 32,
            forall|j: int| 0 <= j < i ==> a@[j] == b@[j],
        decreases 32 - i,
    {
        if a[i] != b[i] {
            return false;
        }
        i = i + 1;
    }
    proof {
        broadcast use vstd::array::group_array_axioms;
        assert(*a =~= *b);
    }
    true
}

/// A map from unit ids to units, kept as two aligned vectors whose keys occur once.
pub struct UnitMap {
    keys: Vec<UnitId>,
    values: Vec<UnitRecord>,
}

impl View for UnitMap {
    type V = Map<UnitId, UnitRecord>;

    closed spec fn view(&self) -> Map<UnitId, UnitRecord> {
        Map::new(
            |k: UnitId| self.keys@.contains(k),
            |k: UnitId| self.values@[self.keys@.index_of(k)],
        )
    }
}

impl UnitMap {
    /// The vectors are aligned and no key occurs twice.
    pub closed spec fn wf(&self) -> bool {
        &&& self.keys@.len() == self.values@.len()
        &&& self.keys@.no_duplicates()
    }

    /// A map with no units.
    pub fn new() -> (map: Self)
        ensures
            map.wf(),
            map@ == Map::<UnitId, UnitRecord>::empty(),
    {
        let map = UnitMap { keys: Vec::new(), values: Vec::new() };
        assert(map@ =~= Map::<UnitId, UnitRecord>::empty());
        map
    }

    proof fn lemma_value_at(&self, i: int)
        requires
            self.wf(),
            0 <= i < self.keys@.len(),
        ensures
            self@.contains_key(self.keys@[i]),
            self@[self.keys@[i]] == self.values@[i],
    {
        let k = self.keys@[i];
        assert(self.keys@.contains(k));
        let j = self.keys@.index_of(k);
        assert(0 <= j < self.keys@.len() && self.keys@[j] == k);
    }

    /// The position of `id` among the keys, if it is one.
    fn find(&self, id: &UnitId) -> (pos: Option<usize>)
        requires
            self.wf(),
        ensures
            match pos {
                Some(i) => i < self.keys@.len() && self.keys@[i as int] == *id,
                None => !self@.contains_key(*id),
            },
    {
        let mut i: usize = 0;
        while i < self.keys.len()
            invariant
                i <= self.keys@.len(),
                forall|j: int| 0 <= j < i ==> self.keys@[j] != *id,
            decreases self.keys@.len() - i,
        {
            if same_id(&self.keys[i], id) {
                return Some(i);
            }
            i = i + 1;
        }
        None
    }

    /// The unit stored under `id`, if there is one.
    pub fn get(&self, id: &UnitId) -> (unit: Option<UnitRecord>)
        requires
            self.wf(),
        ensures
            unit == (if self@.contains_key(*id) {
                Some(self@[*id])
            } else {
                None
            }),
    {
        match self.find(id) {
            Some(i) => {
                proof {
                    self.lemma_value_at(i as int);
                }
                Some(self.values[i])
            },
            None => None,
        }
    }

    /// Whether a unit is stored under `id`.
    pub fn contains(&self, id: &UnitId) -> (found: bool)
        requires
            self.wf(),
        ensures
            found == self@.contains_key(*id),
    {
        match self.find(id) {
            Some(i) => {
                proof {
                    self.lemma_value_at(i as int);
                }
                true
            },
            None => false,
        }
    }

    /// Stores `unit` under `id`, replacing what was stored there.
    pub fn insert(&mut self, id: UnitId, unit: UnitRecord)
        requires
            old(self).wf(),
        ensures
            final(self).wf(),
            final(self)@ == old(self)@.insert(id, unit),
    {
        let ghost pre = *self;
        match self.find(&id) {
            Some(i) => {
                self.values.set(i, unit);
                proof {
                    assert(self.keys@ == pre.keys@);
                    pre.lemma_value_at(i as int);
                    assert forall|k: UnitId| #[trigger] self@.contains_key(k) implies self@[k]
                        == pre@.insert(id, unit)[k] by {
                        let j = self.keys@.index_of(k);
                        assert(self.keys@.contains(k));
                        assert(0 <= j < self.keys@.len() && self.keys@[j] == k);
                        if k == id {
                            assert(j == i);
                        } else {
                            assert(j != i);
                            pre.lemma_value_at(j);
                        }
                    }
                    assert(self@ =~= pre@.insert(id, unit));
                }
            },
            None => {
                self.keys.push(id);
                self.values.push(unit);
                proof {
                    let n = pre.keys@.len();
                    assert(self.keys@[n as int] == id);
                    assert(forall|j: int| 0 <= j < n ==> self.keys@[j] == pre.keys@[j]);
                    assert(!pre.keys@.contains(id));
                    assert(self.keys@.no_duplicates());
                    assert forall|k: UnitId| #[trigger] self@.contains_key(k) implies self@[k]
                        == pre@.insert(id, unit)[k] by {
                        let j = self.keys@.index_of(k);
                        assert(self.keys@.contains(k));
                        assert(0 <= j < self.keys@.len() && self.keys@[j] == k);
                        if k == id {
                            assert(j == n);
                        } else {
                            assert(j < n);
                            pre.lemma_value_at(j);
                        }
                    }
                    assert forall|k: UnitId| #[trigger] self.keys@.contains(k) <==> (
                    pre.keys@.contains(k) || k == id) by {
                        if pre.keys@.contains(k) {
                            let j = choose|j: int| 0 <= j < n && pre.keys@[j] == k;
                            assert(self.keys@[j] == k);
                        }
                        if k == id {
                            assert(self.keys@[n as int] == k);
                        }
                    }
                    assert(self@ =~= pre@.insert(id, unit));
                }
            },
        }
    }
}

} // verus!
