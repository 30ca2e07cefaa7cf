//! The units of one kind with their counter, and the two moves that touch a store together
//! with an index of holdings: minting and transferring.
use vstd::prelude::*;
use crate::types::{AccountId, Balance, Dna, Error, UnitId, UnitKind, UnitRecord};
use crate::unit_map::UnitMap;
use crate::owned_index::OwnedIndex;
use crate::model::{StoreModel, mint_parts, transfer_parts};
use crate::codec::unit_id;

verus! {

/// The units of one kind and the number of units of that kind ever minted.
pub struct UnitStore {
    units: UnitMap,
    count: u64,
}

impl View for UnitStore {
    type V = StoreModel;

    closed spec fn view(&self) -> StoreModel {
        StoreModel { units: self.units@, count: self.count }
    }
}

impl UnitStore {
    /// The map of units is well formed.
    pub closed spec fn wf(&self) -> bool {
        self.units.wf()
    }

    /// A store with no units and a counter at zero.
    pub fn new() -> (store: Self)
        ensures
            store.wf(),
            store@.units == Map::<UnitId, UnitRecord>::empty(),
            store@.count == 0,
    {
        UnitStore { units: UnitMap::new(), count: 0 }
    }

    /// The counter.
    pub fn count(&self) -> (n: u64)
        ensures
            n == self@.count,
    {
        self.count
    }

    /// The unit stored under `id`, if there is one.
    pub fn get(&self, id: &UnitId) -> (unit: Option<UnitRecord>)
        requires
            self.wf(),
        ensures
            unit == (if self@.units.contains_key(*id) {
                Some(self@.units[*id])
            } else {
                None
            }),
    {
        self.units.get(id)
    }

    /// Stores `unit` under `id`, which already holds a unit.
    fn replace(&mut self, id: UnitId, unit: UnitRecord)
        requires
            old(self).wf(),
        ensures
            final(self).wf(),
            final(self)@ == (StoreModel { units: old(self)@.units.insert(id, unit), ..old(self)@ }),
    {
        self.units.insert(id, unit);
    }
}

/// Sets the price of the unit stored under `id`, which must exist.
pub fn set_unit_price(store: &mut UnitStore, id: &UnitId, unit: UnitRecord, price: Option<Balance>)
    requires
        old(store).wf(),
    ensures
        final(store).wf(),
        final(store)@ == (StoreModel {
            units: old(store)@.units.insert(*id, UnitRecord { price, ..unit }),
            ..old(store)@
        }),
{
    store.replace(*id, UnitRecord { price, ..unit });
}

/// Mints a unit of `kind` for `owner` from `dna` into `store`, appending its key to the
/// owner's list in `index`.
pub fn mint_into(
    store: &mut UnitStore,
    index: &mut OwnedIndex,
    kind: UnitKind,
    owner: AccountId,
    dna: Dna,
) -> (r: Result<UnitId, Error>)
    requires
        old(store).wf(),
        old(index).wf(),
    ensures
        final(store).wf(),
        final(index).wf(),
        final(store)@ == mint_parts(old(store)@, old(index).model(), kind, owner, dna).0,
        final(index).model() == mint_parts(old(store)@, old(index).model(), kind, owner, dna).1,
        r == mint_parts(old(store)@, old(index).model(), kind, owner, dna).2,
{
    let attribute: u64 = if kind == UnitKind::Sukuk {
        3
    } else {
        10
    };
    let unit = UnitRecord { id: dna, price: None, attribute, owner };
    let id = unit_id(kind, &unit);
    if store.count == u64::MAX {
        return Err(Error::CountForUnitOverflow);
    }
    if store.units.contains(&id) {
        return Err(Error::UnitExists);
    }
    if !index.try_push(owner, id) {
        return Err(Error::ExceedMaxUnitOwned);
    }
    store.units.insert(id, unit);
    store.count = store.count + 1;
    Ok(id)
}

/// Moves the unit stored under `id` to `to`: its key leaves its owner's list in `index`,
/// the unit gets the new owner and no price, and the key is appended to the list of `to`.
pub fn transfer_within(store: &mut UnitStore, index: &mut OwnedIndex, id: &UnitId, to: AccountId) -> (r:
    Result<(), Error>)
    requires
        old(store).wf(),
        old(index).wf(),
    ensures
        final(store).wf(),
        final(index).wf(),
        final(store)@ == transfer_parts(old(store)@, old(index).model(), *id, to).0,
        final(index).model() == transfer_parts(old(store)@, old(index).model(), *id, to).1,
        r == transfer_parts(old(store)@, old(index).model(), *id, to).2,
{
    let unit = match store.get(id) {
        None => {
            return Err(Error::UnitNotExist);
        },
        Some(u) => u,
    };
    let prev = unit.owner;
    if !index.holds(prev, id) {
        return Err(Error::UnitNotExist);
    }
    proof {
        index.lemma_bounded(prev);
        index.lemma_bounded(to);
    }
    let room = if to == prev {
        true
    } else {
        index.len_of(to) < index.bound() as usize
    };
    if !room {
        return Err(Error::ExceedMaxUnitOwned);
    }
    let ghost index_before = index.model();
    let removed = index.remove(prev, id);
    assert(removed);
    proof {
        crate::owned_index::lemma_remove_first_len(index_before.lists[prev], *id);
        if to != prev {
            assert(index@[to] == index_before.lists[to]);
        }
    }
    let pushed = index.try_push(to, *id);
    assert(pushed);
    store.replace(*id, UnitRecord { owner: to, price: None, ..unit });
    Ok(())
}

} // verus!
