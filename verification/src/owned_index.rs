//! For one kind of unit, which units each account holds, in a list of bounded length.
use vstd::prelude::*;
use crate::types::{AccountId, UnitId};
use crate::model::IndexModel;
use crate::unit_map::same_id;

verus! {

/// The first position of `x` in `s` (meaningful when `s` holds `x`).
pub open spec fn first_index(s: Seq<UnitId>, x: UnitId) -> int {
    choose|i: int| 0 <= i < s.len() && s[i] == x && forall|j: int| 0 <= j < i ==> s[j] != x
}

/// The first position of an element that `s` holds exists, is where `s` holds it, and
/// nothing before it is that element.
pub proof fn lemma_first_index(s: Seq<UnitId>, x: UnitId)
    requires
        s.contains(x),
    ensures
        0 <= first_index(s, x) < s.len(),
        s[first_index(s, x)] == x,
        forall|j: int| 0 <= j < first_index(s, x) ==> s[j] != x,
    decreases s.len(),
{
    if s[0] == x {
        assert(0 <= 0 < s.len() && s[0] == x && forall|j: int| 0 <= j < 0 ==> s[j] != x);
    } else {
        let t = s.drop_first();
        let w = choose|i: int| 0 <= i < s.len() && s[i] == x;
        assert(t[w - 1] == x);
        lemma_first_index(t, x);
        let f = first_index(t, x);
        assert(0 <= f + 1 < s.len() && s[f + 1] == x && forall|j: int| 0 <= j < f + 1 ==> s[j] != x) by {
            assert forall|j: int| 0 <= j < f + 1 implies s[j] != x by {
                if j > 0 {
                    assert(s[j] == t[j - 1]);
                }
            }
        }
    }
}

/// Removing an element that `s` holds shortens `s` by one.
pub proof fn lemma_remove_first_len(s: Seq<UnitId>, x: UnitId)
    requires
        s.contains(x),
    ensures
        remove_first(s, x).len() == s.len() - 1,
{
    lemma_first_index(s, x);
}

/// `s` without its element at `i`, the last element taking its place.
pub open spec fn swap_remove(s: Seq<UnitId>, i: int) -> Seq<UnitId> {
    s.update(i, s.last()).drop_last()
}

/// `s` without the first occurrence of `x`, the last element taking its place.
pub open spec fn remove_first(s: Seq<UnitId>, x: UnitId) -> Seq<UnitId> {
    swap_remove(s, first_index(s, x))
}

/// The first position of `id` in `v`, if `v` holds it.
fn first_position(v: &Vec<UnitId>, id: &UnitId) -> (pos: Option<usize>)
    ensures
        match pos {
            Some(k) => k < v@.len() && v@[k as int] == *id && k == first_index(v@, *id),
            None => !v@.contains(*id),
        },
{
    let mut k: usize = 0;
    while k < v.len()
        invariant
            k <= v@.len(),
            forall|j: int| 0 <= j < k ==> v@[j] != *id,
        decreases v@.len() - k,
    {
        if same_id(&v[k], id) {
            proof {
                let s = v@;
                let f = first_index(s, *id);
                assert(0 <= k < s.len() && s[k as int] == *id && forall|j: int| 0 <= j < k ==> s[j] != *id);
                assert(0 <= f < s.len() && s[f] == *id && forall|j: int| 0 <= j < f ==> s[j] != *id);
                if f < k {
                    assert(s[f] != *id);
                }
                if k < f {
                    assert(s[k as int] != *id);
                }
            }
            return Some(k);
        }
        k = k + 1;
    }
    None
}

/// Lists of unit ids by account; an account that was never given a list holds the empty one.
pub struct OwnedIndex {
    accounts: Vec<AccountId>,
    lists: Vec<Vec<UnitId>>,
    bound: u32,
}

impl View for OwnedIndex {
    type V = Map<AccountId, Seq<UnitId>>;

    closed spec fn view(&self) -> Map<AccountId, Seq<UnitId>> {
        Map::new(|a: AccountId| true, |a: AccountId| self.list_of(a))
    }
}

impl OwnedIndex {
    /// The list that `a` holds.
    pub closed spec fn list_of(&self, a: AccountId) -> Seq<UnitId> {
        if self.accounts@.contains(a) {
            self.lists@[self.accounts@.index_of(a)]@
        } else {
            Seq::empty()
        }
    }

    /// How long a list may grow.
    pub closed spec fn spec_bound(&self) -> u32 {
        self.bound
    }

    /// The lists and the bound, as mathematics.
    pub open spec fn model(&self) -> IndexModel {
        IndexModel { lists: self@, bound: self.spec_bound() }
    }

    /// The vectors are aligned, no account occurs twice and no list is longer than the bound.
    pub closed spec fn wf(&self) -> bool {
        &&& self.accounts@.len() == self.lists@.len()
        &&& self.accounts@.no_duplicates()
        &&& forall|i: int| 0 <= i < self.lists@.len() ==> #[trigger] self.lists@[i]@.len() <= self.bound
    }

    proof fn lemma_list_at(&self, i: int)
        requires
            self.wf(),
            0 <= i < self.accounts@.len(),
        ensures
            self.list_of(self.accounts@[i]) == self.lists@[i]@,
    {
        let a = self.accounts@[i];
        assert(self.accounts@.contains(a));
        let j = self.accounts@.index_of(a);
        assert(0 <= j < self.accounts@.len() && self.accounts@[j] == a);
    }

    /// Every list of a well-formed index is within the bound.
    pub proof fn lemma_bounded(&self, a: AccountId)
        requires
            self.wf(),
        ensures
            self@[a].len() <= self.spec_bound(),
    {
        if self.accounts@.contains(a) {
            let j = self.accounts@.index_of(a);
            assert(0 <= j < self.accounts@.len() && self.accounts@[j] == a);
            assert(self.lists@[j]@.len() <= self.bound);
        }
    }

    /// An index in which every account holds the empty list.
    pub fn new(bound: u32) -> (index: Self)
        ensures
            index.wf(),
            index.spec_bound() == bound,
            index@ == Map::new(|a: AccountId| true, |a: AccountId| Seq::<UnitId>::empty()),
    {
        let index = OwnedIndex { accounts: Vec::new(), lists: Vec::new(), bound };
        assert(index@ =~= Map::new(|a: AccountId| true, |a: AccountId| Seq::<UnitId>::empty()));
        index
    }

    /// How long a list may grow.
    pub fn bound(&self) -> (b: u32)
        ensures
            b == self.spec_bound(),
    {
        self.bound
    }

    /// The position of `a` among the accounts, if it is one.
    fn find(&self, a: AccountId) -> (pos: Option<usize>)
        requires
            self.wf(),
        ensures
            match pos {
                Some(i) => i < self.accounts@.len() && self.accounts@[i as int] == a,
                None => !self.accounts@.contains(a),
            },
    {
        let mut i: usize = 0;
        while i < self.accounts.len()
            invariant
                i <= self.accounts@.len(),
                forall|j: int| 0 <= j < i ==> self.accounts@[j] != a,
            decreases self.accounts@.len() - i,
        {
            if self.accounts[i] == a {
                return Some(i);
            }
            i = i + 1;
        }
        None
    }

    /// The number of ids in the list of `a`.
    pub fn len_of(&self, a: AccountId) -> (n: usize)
        requires
            self.wf(),
        ensures
            n == self@[a].len(),
    {
        match self.find(a) {
            Some(i) => {
                proof {
                    self.lemma_list_at(i as int);
                }
                self.lists[i].len()
            },
            None => 0,
        }
    }

    /// Whether the list of `a` holds `id`.
    pub fn holds(&self, a: AccountId, id: &UnitId) -> (found: bool)
        requires
            self.wf(),
        ensures
            found == self@[a].contains(*id),
    {
        match self.find(a) {
            Some(i) => {
                proof {
                    self.lemma_list_at(i as int);
                }
                assert(self@[a] == self.lists@[i as int]@);
                match first_position(&self.lists[i], id) {
                    Some(k) => {
                        assert(self.lists@[i as int]@[k as int] == *id);
                        true
                    },
                    None => false,
                }
            },
            None => {
                assert(self@[a] == Seq::<UnitId>::empty());
                false
            },
        }
    }

    /// A copy of the list of `a`.
    pub fn list(&self, a: AccountId) -> (ids: Vec<UnitId>)
        requires
            self.wf(),
        ensures
            ids@ == self@[a],
    {
        match self.find(a) {
            Some(i) => {
                proof {
                    self.lemma_list_at(i as int);
                }
                let src = &self.lists[i];
                let mut out: Vec<UnitId> = Vec::new();
                let mut k: usize = 0;
                while k < src.len()
                    invariant
                        k <= src@.len(),
                        out@ == src@.take(k as int),
                    decreases src@.len() - k,
                {
                    out.push(src[k]);
                    assert(src@.take(k + 1) =~= src@.take(k as int).push(src@[k as int]));
                    k = k + 1;
                }
                assert(src@.take(src@.len() as int) =~= src@);
                out
            },
            None => Vec::new(),
        }
    }

    /// Replaces the list of the account at position `i`, keeping every other list.
    proof fn lemma_set_list(pre: &Self, post: &Self, i: int, l: Seq<UnitId>)
        requires
            pre.wf(),
            0 <= i < pre.accounts@.len(),
            post.accounts@ == pre.accounts@,
            post.lists@.len() == pre.lists@.len(),
            post.lists@[i]@ == l,
            forall|j: int| 0 <= j < pre.lists@.len() && j != i ==> post.lists@[j] == pre.lists@[j],
        ensures
            post@ == pre@.insert(pre.accounts@[i], l),
    {
        let a = pre.accounts@[i];
        assert forall|b: AccountId| #[trigger] post@[b] == pre@.insert(a, l)[b] by {
            if post.accounts@.contains(b) {
                let j = post.accounts@.index_of(b);
                assert(0 <= j < post.accounts@.len() && post.accounts@[j] == b);
                if b == a {
                    assert(j == i);
                } else {
                    pre.lemma_list_at(j);
                }
            }
        }
        assert(post@ =~= pre@.insert(a, l));
    }

    /// Appends `id` to the list of `a` when that list is shorter than the bound; else
    /// changes nothing.
    pub fn try_push(&mut self, a: AccountId, id: UnitId) -> (pushed: bool)
        requires
            old(self).wf(),
        ensures
            final(self).wf(),
            final(self).spec_bound() == old(self).spec_bound(),
            pushed == (old(self)@[a].len() < old(self).spec_bound()),
            pushed ==> final(self)@ == old(self)@.insert(a, old(self)@[a].push(id)),
            !pushed ==> *final(self) == *old(self),
    {
        let ghost pre = *self;
        match self.find(a) {
            Some(i) => {
                proof {
                    pre.lemma_list_at(i as int);
                }
                if self.lists[i].len() < self.bound as usize {
                    self.lists[i].push(id);
                    proof {
                        Self::lemma_set_list(&pre, self, i as int, pre@[a].push(id));
                        assert forall|j: int| 0 <= j < self.lists@.len() implies #[trigger] self.lists@[j]@.len()
                            <= self.bound by {
                            if j != i {
                                assert(self.lists@[j] == pre.lists@[j]);
                            }
                        }
                    }
                    true
                } else {
                    false
                }
            },
            None => {
                if 0 < self.bound {
                    let mut l: Vec<UnitId> = Vec::new();
                    l.push(id);
                    self.accounts.push(a);
                    self.lists.push(l);
                    proof {
                        let n = pre.accounts@.len();
                        assert(self.accounts@[n as int] == a);
                        assert(forall|j: int| 0 <= j < n ==> self.accounts@[j] == pre.accounts@[j]);
                        assert(forall|j: int| 0 <= j < n ==> self.lists@[j] == pre.lists@[j]);
                        assert(self.accounts@.no_duplicates());
                        assert forall|j: int| 0 <= j < self.lists@.len() implies #[trigger] self.lists@[j]@.len()
                            <= self.bound by {
                            if j < n {
                                assert(self.lists@[j] == pre.lists@[j]);
                            }
                        }
                        assert forall|b: AccountId| #[trigger] self@[b] == pre@.insert(a, pre@[a].push(id))[b] by {
                            if b == a {
                                self.lemma_list_at(n as int);
                                assert(l@ =~= Seq::<UnitId>::empty().push(id));
                            } else if pre.accounts@.contains(b) {
                                let j = pre.accounts@.index_of(b);
                                assert(0 <= j < n && pre.accounts@[j] == b);
                                pre.lemma_list_at(j);
                                self.lemma_list_at(j);
                            } else {
                                assert(!self.accounts@.contains(b)) by {
                                    if self.accounts@.contains(b) {
                                        let j = choose|j: int| 0 <= j < self.accounts@.len() && self.accounts@[j] == b;
                                        if j < n {
                                            assert(pre.accounts@[j] == b);
                                        }
                                    }
                                }
                            }
                        }
                        assert(self@ =~= pre@.insert(a, pre@[a].push(id)));
                    }
                    true
                } else {
                    false
                }
            },
        }
    }

    /// Removes the first occurrence of `id` from the list of `a`, the last id of that list
    /// taking its place, when the list holds `id`; else changes nothing.
    pub fn remove(&mut self, a: AccountId, id: &UnitId) -> (removed: bool)
        requires
            old(self).wf(),
        ensures
            final(self).wf(),
            final(self).spec_bound() == old(self).spec_bound(),
            removed == old(self)@[a].contains(*id),
            removed ==> final(self)@ == old(self)@.insert(a, remove_first(old(self)@[a], *id)),
            !removed ==> *final(self) == *old(self),
    {
        let ghost pre = *self;
        match self.find(a) {
            Some(i) => {
                proof {
                    pre.lemma_list_at(i as int);
                }
                let found = first_position(&self.lists[i], id);
                assert(pre@[a] == pre.lists@[i as int]@);
                if let Some(k) = found {
                    let ghost s = pre.lists@[i as int]@;
                    assert(s[k as int] == *id);
                    self.lists[i].swap_remove(k);
                    proof {
                        Self::lemma_set_list(&pre, self, i as int, remove_first(s, *id));
                        assert forall|j: int| 0 <= j < self.lists@.len() implies #[trigger] self.lists@[j]@.len()
                            <= self.bound by {
                            if j != i {
                                assert(self.lists@[j] == pre.lists@[j]);
                            }
                        }
                    }
                    true
                } else {
                    false
                }
            },
            None => {
                assert(pre@[a] == Seq::<UnitId>::empty());
                false
            },
        }
    }
}

} // verus!
