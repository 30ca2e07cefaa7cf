//! The pallet's storage, read: the counters, the units and the lists of holdings.
use vstd::prelude::*;
use crate::types::{AccountId, Gold, Land, Silver, Stock, Sukuk, UnitId, UnitKind, UnitRecord};
use crate::pallet::Pallet;

verus! {

/// A stored unit, seen as `Gold`.
pub open spec fn as_gold(unit: UnitRecord) -> Gold {
    Gold { id: unit.id, price: unit.price, weight: unit.attribute, owner: unit.owner }
}

/// A stored unit, seen as `Silver`.
pub open spec fn as_silver(unit: UnitRecord) -> Silver {
    Silver { id: unit.id, price: unit.price, weight: unit.attribute, owner: unit.owner }
}

/// A stored unit, seen as `Land`.
pub open spec fn as_land(unit: UnitRecord) -> Land {
    Land { id: unit.id, price: unit.price, area: unit.attribute, owner: unit.owner }
}

/// A stored unit, seen as `Stock`.
pub open spec fn as_stock(unit: UnitRecord) -> Stock {
    Stock { id: unit.id, price: unit.price, nos: unit.attribute, owner: unit.owner }
}

/// A stored unit, seen as `Sukuk`.
pub open spec fn as_sukuk(unit: UnitRecord) -> Sukuk {
    Sukuk { id: unit.id, price: unit.price, rate: unit.attribute, owner: unit.owner }
}

impl Pallet {
    /// The number of golds ever minted.
    pub fn count_for_gold(&self) -> (n: u64)
        requires
            self.wf(),
        ensures
            n == self@.store(UnitKind::Gold).count,
    {
        self.store_ref(UnitKind::Gold).count()
    }

    /// The gold stored under `gold_id`, if there is one.
    pub fn golds(&self, gold_id: &UnitId) -> (unit: Option<Gold>)
        requires
            self.wf(),
        ensures
            unit == (if self@.store(UnitKind::Gold).units.contains_key(*gold_id) {
                Some(as_gold(self@.store(UnitKind::Gold).units[*gold_id]))
            } else {
                None
            }),
    {
        match self.store_ref(UnitKind::Gold).get(gold_id) {
            Some(u) => Some(Gold { id: u.id, price: u.price, weight: u.attribute, owner: u.owner }),
            None => None,
        }
    }

    /// The keys in the list of gold of `acct`, in order.
    pub fn gold_owned(&self, acct: AccountId) -> (ids: Vec<UnitId>)
        requires
            self.wf(),
        ensures
            ids@ == self@.index(UnitKind::Gold).lists[acct],
    {
        self.index_ref(UnitKind::Gold).list(acct)
    }

    /// The number of silvers ever minted.
    pub fn count_for_silver(&self) -> (n: u64)
        requires
            self.wf(),
        ensures
            n == self@.store(UnitKind::Silver).count,
    {
        self.store_ref(UnitKind::Silver).count()
    }

    /// The silver stored under `silver_id`, if there is one.
    pub fn silvers(&self, silver_id: &UnitId) -> (unit: Option<Silver>)
        requires
            self.wf(),
        ensures
            unit == (if self@.store(UnitKind::Silver).units.contains_key(*silver_id) {
                Some(as_silver(self@.store(UnitKind::Silver).units[*silver_id]))
            } else {
                None
            }),
    {
        match self.store_ref(UnitKind::Silver).get(silver_id) {
            Some(u) => Some(Silver { id: u.id, price: u.price, weight: u.attribute, owner: u.owner }),
            None => None,
        }
    }

    /// The keys in the list of silver of `acct`, in order.
    pub fn silver_owned(&self, acct: AccountId) -> (ids: Vec<UnitId>)
        requires
            self.wf(),
        ensures
            ids@ == self@.index(UnitKind::Silver).lists[acct],
    {
        self.index_ref(UnitKind::Silver).list(acct)
    }

    /// The number of lands ever minted.
    pub fn count_for_land(&self) -> (n: u64)
        requires
            self.wf(),
        ensures
            n == self@.store(UnitKind::Land).count,
    {
        self.store_ref(UnitKind::Land).count()
    }

    /// The land stored under `land_id`, if there is one.
    pub fn lands(&self, land_id: &UnitId) -> (unit: Option<Land>)
        requires
            self.wf(),
        ensures
            unit == (if self@.store(UnitKind::Land).units.contains_key(*land_id) {
                Some(as_land(self@.store(UnitKind::Land).units[*land_id]))
            } else {
                None
            }),
    {
        match self.store_ref(UnitKind::Land).get(land_id) {
            Some(u) => Some(Land { id: u.id, price: u.price, area: u.attribute, owner: u.owner }),
            None => None,
        }
    }

    /// The keys in the list of land of `acct`, in order.
    pub fn land_owned(&self, acct: AccountId) -> (ids: Vec<UnitId>)
        requires
            self.wf(),
        ensures
            ids@ == self@.index(UnitKind::Land).lists[acct],
    {
        self.index_ref(UnitKind::Land).list(acct)
    }

    /// The number of stocks ever minted.
    pub fn count_for_stock(&self) -> (n: u64)
        requires
            self.wf(),
        ensures
            n == self@.store(UnitKind::Stock).count,
    {
        self.store_ref(UnitKind::Stock).count()
    }

    /// The stock stored under `stock_id`, if there is one.
    pub fn stocks(&self, stock_id: &UnitId) -> (unit: Option<Stock>)
        requires
            self.wf(),
        ensures
            unit == (if self@.store(UnitKind::Stock).units.contains_key(*stock_id) {
                Some(as_stock(self@.store(UnitKind::Stock).units[*stock_id]))
            } else {
                None
            }),
    {
        match self.store_ref(UnitKind::Stock).get(stock_id) {
            Some(u) => Some(Stock { id: u.id, price: u.price, nos: u.attribute, owner: u.owner }),
            None => None,
        }
    }

    /// The keys in the list of stock of `acct`, in order.
    pub fn stock_owned(&self, acct: AccountId) -> (ids: Vec<UnitId>)
        requires
            self.wf(),
        ensures
            ids@ == self@.index(UnitKind::Stock).lists[acct],
    {
        self.index_ref(UnitKind::Stock).list(acct)
    }

    /// The number of sukuks ever minted.
    pub fn count_for_sukuk(&self) -> (n: u64)
        requires
            self.wf(),
        ensures
            n == self@.store(UnitKind::Sukuk).count,
    {
        self.store_ref(UnitKind::Sukuk).count()
    }

    /// The sukuk stored under `sukuk_id`, if there is one.
    pub fn sukuks(&self, sukuk_id: &UnitId) -> (unit: Option<Sukuk>)
        requires
            self.wf(),
        ensures
            unit == (if self@.store(UnitKind::Sukuk).units.contains_key(*sukuk_id) {
                Some(as_sukuk(self@.store(UnitKind::Sukuk).units[*sukuk_id]))
            } else {
                None
            }),
    {
        match self.store_ref(UnitKind::Sukuk).get(sukuk_id) {
            Some(u) => Some(Sukuk { id: u.id, price: u.price, rate: u.attribute, owner: u.owner }),
            None => None,
        }
    }

    /// The keys in the list of sukuk of `acct`, in order.
    pub fn sukuk_owned(&self, acct: AccountId) -> (ids: Vec<UnitId>)
        requires
            self.wf(),
        ensures
            ids@ == self@.index(UnitKind::Sukuk).lists[acct],
    {
        self.index_ref(UnitKind::Sukuk).list(acct)
    }
}

} // verus!
