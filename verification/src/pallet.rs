//! The pallet: five stores of units, five indexes of holdings, and the calls on them.
use vstd::prelude::*;
use crate::types::{AccountId, Balance, Config, Dna, Error, Event, Purchase, UnitId, UnitKind};
use crate::owned_index::OwnedIndex;
use crate::store::{UnitStore, mint_into, set_unit_price, transfer_within};
use crate::model::{
    IndexModel, PalletModel, StoreModel, buy, is_owner, mint, set_price, transfer, transfer_to,
};
use crate::laws::{
    consistent, law_empty_is_consistent, law_mint_keeps_consistency,
    law_set_price_keeps_consistency, law_transfer_to_keeps_consistency,
};

verus! {

/// The state of the pallet.
pub struct Pallet {
    golds: UnitStore,
    silvers: UnitStore,
    lands: UnitStore,
    stocks: UnitStore,
    sukuks: UnitStore,
    gold_owned: OwnedIndex,
    silver_owned: OwnedIndex,
    land_owned: OwnedIndex,
    stock_owned: OwnedIndex,
    sukuk_owned: OwnedIndex,
}

impl View for Pallet {
    type V = PalletModel;

    closed spec fn view(&self) -> PalletModel {
        PalletModel {
            golds: self.golds@,
            silvers: self.silvers@,
            lands: self.lands@,
            stocks: self.stocks@,
            sukuks: self.sukuks@,
            gold_owned: self.gold_owned.model(),
            silver_owned: self.silver_owned.model(),
            land_owned: self.land_owned.model(),
            stock_owned: self.stock_owned.model(),
            sukuk_owned: self.sukuk_owned.model(),
        }
    }
}

/// The state of a pallet that holds nothing yet, with the limits of `config`.
pub open spec fn empty_model(config: Config) -> PalletModel {
    let no_units = StoreModel { units: Map::empty(), count: 0 };
    let no_lists = Map::new(|a: AccountId| true, |a: AccountId| Seq::<UnitId>::empty());
    PalletModel {
        golds: no_units,
        silvers: no_units,
        lands: no_units,
        stocks: no_units,
        sukuks: no_units,
        gold_owned: IndexModel { lists: no_lists, bound: config.max_gold_owned },
        silver_owned: IndexModel { lists: no_lists, bound: config.max_silver_owned },
        land_owned: IndexModel { lists: no_lists, bound: config.max_land_owned },
        stock_owned: IndexModel { lists: no_lists, bound: config.max_stock_owned },
        sukuk_owned: IndexModel { lists: no_lists, bound: config.max_sukuk_owned },
    }
}

impl Pallet {
    /// Every store and every index is well formed, and the state is consistent.
    pub closed spec fn wf(&self) -> bool {
        &&& consistent(self@)
        &&& self.golds.wf()
        &&& self.silvers.wf()
        &&& self.lands.wf()
        &&& self.stocks.wf()
        &&& self.sukuks.wf()
        &&& self.gold_owned.wf()
        &&& self.silver_owned.wf()
        &&& self.land_owned.wf()
        &&& self.stock_owned.wf()
        &&& self.sukuk_owned.wf()
    }

    /// A pallet that holds nothing yet.
    pub fn new(config: Config) -> (pallet: Self)
        ensures
            pallet.wf(),
            pallet@ == empty_model(config),
    {
        let pallet = Pallet {
            golds: UnitStore::new(),
            silvers: UnitStore::new(),
            lands: UnitStore::new(),
            stocks: UnitStore::new(),
            sukuks: UnitStore::new(),
            gold_owned: OwnedIndex::new(config.max_gold_owned),
            silver_owned: OwnedIndex::new(config.max_silver_owned),
            land_owned: OwnedIndex::new(config.max_land_owned),
            stock_owned: OwnedIndex::new(config.max_stock_owned),
            sukuk_owned: OwnedIndex::new(config.max_sukuk_owned),
        };
        assert(pallet@ =~= empty_model(config));
        proof {
            law_empty_is_consistent(config);
        }
        pallet
    }

    /// Every pallet is consistent, so that the laws of `laws` apply to its state.
    pub proof fn lemma_consistent(&self)
        requires
            self.wf(),
        ensures
            consistent(self@),
    {
    }

    pub(crate) fn store_ref(&self, kind: UnitKind) -> (store: &UnitStore)
        requires
            self.wf(),
        ensures
            store.wf(),
            store@ == self@.store(kind),
    {
        match kind {
            UnitKind::Gold => &self.golds,
            UnitKind::Silver => &self.silvers,
            UnitKind::Land => &self.lands,
            UnitKind::Stock => &self.stocks,
            UnitKind::Sukuk => &self.sukuks,
        }
    }

    pub(crate) fn index_ref(&self, kind: UnitKind) -> (index: &OwnedIndex)
        requires
            self.wf(),
        ensures
            index.wf(),
            index.model() == self@.index(kind),
    {
        match kind {
            UnitKind::Gold => &self.gold_owned,
            UnitKind::Silver => &self.silver_owned,
            UnitKind::Land => &self.land_owned,
            UnitKind::Stock => &self.stock_owned,
            UnitKind::Sukuk => &self.sukuk_owned,
        }
    }

    /// Mints a unit of `kind` into its store and its index.
    pub(crate) fn mint_unit(&mut self, kind: UnitKind, owner: AccountId, dna: Dna) -> (r: Result<
        UnitId,
        Error,
    >)
        requires
            old(self).wf(),
        ensures
            final(self).wf(),
            final(self)@ == mint(old(self)@, kind, owner, dna).0,
            r == mint(old(self)@, kind, owner, dna).1,
    {
        let ghost pre = self@;
        let ghost parts = crate::model::mint_parts(pre.store(kind), pre.index(kind), kind, owner, dna);
        let r = match kind {
            UnitKind::Gold => mint_into(&mut self.golds, &mut self.gold_owned, kind, owner, dna),
            UnitKind::Silver => mint_into(&mut self.silvers, &mut self.silver_owned, kind, owner, dna),
            UnitKind::Land => mint_into(&mut self.lands, &mut self.land_owned, kind, owner, dna),
            UnitKind::Stock => mint_into(&mut self.stocks, &mut self.stock_owned, kind, owner, dna),
            UnitKind::Sukuk => mint_into(&mut self.sukuks, &mut self.sukuk_owned, kind, owner, dna),
        };
        proof {
            if r is Ok {
                assert(self@ =~= pre.with_store(kind, parts.0).with_index(kind, parts.1));
            } else {
                assert(self@ =~= pre);
            }
            law_mint_keeps_consistency(pre, kind, owner, dna);
        }
        r
    }

    /// Moves the unit `id` of `kind` to `to` within the store and index of `kind`.
    pub(crate) fn transfer_unit_to(&mut self, kind: UnitKind, id: &UnitId, to: AccountId) -> (r: Result<
        (),
        Error,
    >)
        requires
            old(self).wf(),
        ensures
            final(self).wf(),
            final(self)@ == transfer_to(old(self)@, kind, *id, to).0,
            r == transfer_to(old(self)@, kind, *id, to).1,
    {
        let ghost pre = self@;
        let r = match kind {
            UnitKind::Gold => transfer_within(&mut self.golds, &mut self.gold_owned, id, to),
            UnitKind::Silver => transfer_within(&mut self.silvers, &mut self.silver_owned, id, to),
            UnitKind::Land => transfer_within(&mut self.lands, &mut self.land_owned, id, to),
            UnitKind::Stock => transfer_within(&mut self.stocks, &mut self.stock_owned, id, to),
            UnitKind::Sukuk => transfer_within(&mut self.sukuks, &mut self.sukuk_owned, id, to),
        };
        assert(self@ =~= transfer_to(pre, kind, *id, to).0);
        proof {
            law_transfer_to_keeps_consistency(pre, kind, *id, to);
        }
        r
    }

    /// Whether `acct` owns the unit `id` of `kind`.
    pub(crate) fn check_owner(&self, kind: UnitKind, id: &UnitId, acct: AccountId) -> (r: Result<bool, Error>)
        requires
            self.wf(),
        ensures
            r == is_owner(self@, kind, *id, acct),
    {
        match self.store_ref(kind).get(id) {
            Some(unit) => Ok(unit.owner == acct),
            None => Err(Error::UnitNotExist),
        }
    }

    /// Sets the price of the unit `id` of `kind` on behalf of `sender`.
    pub(crate) fn set_unit_price(&mut self, kind: UnitKind, sender: AccountId, id: &UnitId, new_price: Option<
        Balance,
    >) -> (r: Result<Event, Error>)
        requires
            old(self).wf(),
        ensures
            final(self).wf(),
            final(self)@ == set_price(old(self)@, kind, sender, *id, new_price).0,
            r == set_price(old(self)@, kind, sender, *id, new_price).1,
    {
        let ghost pre = self@;
        let unit = match self.store_ref(kind).get(id) {
            None => {
                return Err(Error::UnitNotExist);
            },
            Some(unit) => unit,
        };
        if unit.owner != sender {
            return Err(Error::NotUnitOwner);
        }
        match kind {
            UnitKind::Gold => set_unit_price(&mut self.golds, id, unit, new_price),
            UnitKind::Silver => set_unit_price(&mut self.silvers, id, unit, new_price),
            UnitKind::Land => set_unit_price(&mut self.lands, id, unit, new_price),
            UnitKind::Stock => set_unit_price(&mut self.stocks, id, unit, new_price),
            UnitKind::Sukuk => set_unit_price(&mut self.sukuks, id, unit, new_price),
        }
        assert(self@ =~= set_price(pre, kind, sender, *id, new_price).0);
        proof {
            law_set_price_keeps_consistency(pre, kind, sender, *id, new_price);
        }
        Ok(Event::PriceSet(sender, *id, new_price))
    }

    /// A transfer of the unit `id` of `kind` by `from` to `to`.
    pub(crate) fn transfer_unit(
        &mut self,
        kind: UnitKind,
        from: AccountId,
        to: AccountId,
        id: &UnitId,
    ) -> (r: Result<Event, Error>)
        requires
            old(self).wf(),
        ensures
            final(self).wf(),
            final(self)@ == transfer(old(self)@, kind, from, to, *id).0,
            r == transfer(old(self)@, kind, from, to, *id).1,
    {
        match self.check_owner(kind, id, from) {
            Err(e) => {
                return Err(e);
            },
            Ok(false) => {
                return Err(Error::NotUnitOwner);
            },
            Ok(true) => {},
        }
        if from == to {
            return Err(Error::TransferToSelf);
        }
        let index = self.index_ref(kind);
        proof {
            index.lemma_bounded(to);
        }
        if index.len_of(to) >= index.bound() as usize {
            return Err(Error::ExceedMaxUnitOwned);
        }
        match self.transfer_unit_to(kind, id, to) {
            Ok(()) => Ok(Event::Transferred(from, to, *id)),
            Err(e) => Err(e),
        }
    }

    /// The checks of a purchase of the unit `id` of `kind`.
    pub(crate) fn check_purchase(
        &self,
        kind: UnitKind,
        buyer: AccountId,
        id: &UnitId,
        bid_price: Balance,
        free_balance: Balance,
    ) -> (r: Result<Purchase, Error>)
        requires
            self.wf(),
        ensures
            r == buy(self@, kind, buyer, *id, bid_price, free_balance),
    {
        let unit = match self.store_ref(kind).get(id) {
            None => {
                return Err(Error::UnitNotExist);
            },
            Some(unit) => unit,
        };
        if unit.owner == buyer {
            return Err(Error::BuyerIsUnitOwner);
        }
        match unit.price {
            None => {
                return Err(Error::UnitNotForSale);
            },
            Some(ask) => {
                if ask > bid_price {
                    return Err(Error::UnitBidPriceTooLow);
                }
            },
        }
        if free_balance < bid_price {
            return Err(Error::NotEnoughBalance);
        }
        let index = self.index_ref(kind);
        proof {
            index.lemma_bounded(buyer);
        }
        if index.len_of(buyer) >= index.bound() as usize {
            return Err(Error::ExceedMaxUnitOwned);
        }
        Ok(Purchase { kind, unit_id: *id, buyer, seller: unit.owner, price: bid_price })
    }
}

} // verus!
