//! The pallet's state as mathematics, and what each call does to it.
use vstd::prelude::*;
use crate::types::{AccountId, Balance, Dna, Error, Event, IdEntropy, Purchase, UnitId, UnitKind, UnitRecord};
use crate::codec::{dna_of, unit_id_of};
use crate::owned_index::remove_first;

verus! {

/// The units of one kind and the counter of how many were minted.
#[verifier::ext_equal]
pub struct StoreModel {
    pub units: Map<UnitId, UnitRecord>,
    pub count: u64,
}

/// The lists of unit ids that accounts hold (every account has one, empty by default) and
/// the bound on their length.
#[verifier::ext_equal]
pub struct IndexModel {
    pub lists: Map<AccountId, Seq<UnitId>>,
    pub bound: u32,
}

/// The whole state: a store of units and an index of holdings for each kind.
#[verifier::ext_equal]
pub struct PalletModel {
    pub golds: StoreModel,
    pub silvers: StoreModel,
    pub lands: StoreModel,
    pub stocks: StoreModel,
    pub sukuks: StoreModel,
    pub gold_owned: IndexModel,
    pub silver_owned: IndexModel,
    pub land_owned: IndexModel,
    pub stock_owned: IndexModel,
    pub sukuk_owned: IndexModel,
}

impl PalletModel {
    /// The store of a kind.
    pub open spec fn store(self, kind: UnitKind) -> StoreModel {
        match kind {
            UnitKind::Gold => self.golds,
            UnitKind::Silver => self.silvers,
            UnitKind::Land => self.lands,
            UnitKind::Stock => self.stocks,
            UnitKind::Sukuk => self.sukuks,
        }
    }

    /// The index of holdings of a kind.
    pub open spec fn index(self, kind: UnitKind) -> IndexModel {
        match kind {
            UnitKind::Gold => self.gold_owned,
            UnitKind::Silver => self.silver_owned,
            UnitKind::Land => self.land_owned,
            UnitKind::Stock => self.stock_owned,
            UnitKind::Sukuk => self.sukuk_owned,
        }
    }

    /// The state with the store of `kind` replaced.
    pub open spec fn with_store(self, kind: UnitKind, store: StoreModel) -> PalletModel {
        match kind {
            UnitKind::Gold => PalletModel { golds: store, ..self },
            UnitKind::Silver => PalletModel { silvers: store, ..self },
            UnitKind::Land => PalletModel { lands: store, ..self },
            UnitKind::Stock => PalletModel { stocks: store, ..self },
            UnitKind::Sukuk => PalletModel { sukuks: store, ..self },
        }
    }

    /// The state with the index of `kind` replaced.
    pub open spec fn with_index(self, kind: UnitKind, index: IndexModel) -> PalletModel {
        match kind {
            UnitKind::Gold => PalletModel { gold_owned: index, ..self },
            UnitKind::Silver => PalletModel { silver_owned: index, ..self },
            UnitKind::Land => PalletModel { land_owned: index, ..self },
            UnitKind::Stock => PalletModel { stock_owned: index, ..self },
            UnitKind::Sukuk => PalletModel { sukuk_owned: index, ..self },
        }
    }
}

/// The attribute a freshly minted unit of `kind` carries: a sukuk's rate is 3, the weight,
/// area or number of shares of the others is 10.
pub open spec fn initial_attribute(kind: UnitKind) -> u64 {
    if kind == UnitKind::Sukuk {
        3
    } else {
        10
    }
}

/// A freshly minted unit: no price, the initial attribute of its kind.
pub open spec fn fresh_unit(kind: UnitKind, dna: Dna, owner: AccountId) -> UnitRecord {
    UnitRecord { id: dna, price: None, attribute: initial_attribute(kind), owner }
}

/// The dna a mint uses: the one given, else the one drawn from the chain state.
pub open spec fn chosen_dna(id: Option<Dna>, entropy: IdEntropy) -> Dna {
    match id {
        Some(dna) => dna,
        None => dna_of(entropy),
    }
}

/// Minting into a store and an index: the counter must not overflow, the key must be new and
/// the owner's list must have room; then the unit is stored, its key appended to the owner's
/// list and the counter raised by one. A refused mint changes nothing.
pub open spec fn mint_parts(
    store: StoreModel,
    index: IndexModel,
    kind: UnitKind,
    owner: AccountId,
    dna: Dna,
) -> (StoreModel, IndexModel, Result<UnitId, Error>) {
    let unit = fresh_unit(kind, dna, owner);
    let id = unit_id_of(kind, unit);
    if store.count == u64::MAX {
        (store, index, Err(Error::CountForUnitOverflow))
    } else if store.units.contains_key(id) {
        (store, index, Err(Error::UnitExists))
    } else if index.lists[owner].len() >= index.bound {
        (store, index, Err(Error::ExceedMaxUnitOwned))
    } else {
        (
            StoreModel { units: store.units.insert(id, unit), count: (store.count + 1) as u64 },
            IndexModel { lists: index.lists.insert(owner, index.lists[owner].push(id)), ..index },
            Ok(id),
        )
    }
}

/// Minting a unit of `kind` into the store and the index of `kind`.
pub open spec fn mint(m: PalletModel, kind: UnitKind, owner: AccountId, dna: Dna) -> (
    PalletModel,
    Result<UnitId, Error>,
) {
    let (store, index, r) = mint_parts(m.store(kind), m.index(kind), kind, owner, dna);
    match r {
        Ok(id) => (m.with_store(kind, store).with_index(kind, index), Ok(id)),
        Err(e) => (m, Err(e)),
    }
}

/// Creating a unit: a mint for the sender with a dna drawn from the chain state, reported
/// as `Created`.
pub open spec fn create(m: PalletModel, kind: UnitKind, sender: AccountId, entropy: IdEntropy) -> (
    PalletModel,
    Result<Event, Error>,
) {
    let (post, r) = mint(m, kind, sender, dna_of(entropy));
    match r {
        Ok(id) => (post, Ok(Event::Created(sender, id))),
        Err(e) => (m, Err(e)),
    }
}

/// Whether `acct` owns the unit `id` of `kind`; an error when there is no such unit.
pub open spec fn is_owner(m: PalletModel, kind: UnitKind, id: UnitId, acct: AccountId) -> Result<
    bool,
    Error,
> {
    if m.store(kind).units.contains_key(id) {
        Ok(m.store(kind).units[id].owner == acct)
    } else {
        Err(Error::UnitNotExist)
    }
}

/// Setting a price: only the owner of an existing unit may; the unit keeps everything but
/// its price.
pub open spec fn set_price(
    m: PalletModel,
    kind: UnitKind,
    sender: AccountId,
    id: UnitId,
    new_price: Option<Balance>,
) -> (PalletModel, Result<Event, Error>) {
    match is_owner(m, kind, id, sender) {
        Err(e) => (m, Err(e)),
        Ok(false) => (m, Err(Error::NotUnitOwner)),
        Ok(true) => {
            let store = m.store(kind);
            let unit = store.units[id];
            (
                m.with_store(
                    kind,
                    StoreModel { units: store.units.insert(id, UnitRecord { price: new_price, ..unit }), ..store },
                ),
                Ok(Event::PriceSet(sender, id, new_price)),
            )
        },
    }
}

/// Moving a unit within a store and an index: the unit must exist and its key must be in
/// its owner's list; the key leaves that list, the unit gets the new owner and no price,
/// and the key is appended to the new owner's list if that list has room. A refused move
/// changes nothing.
pub open spec fn transfer_parts(store: StoreModel, index: IndexModel, id: UnitId, to: AccountId) -> (
    StoreModel,
    IndexModel,
    Result<(), Error>,
) {
    if !store.units.contains_key(id) {
        (store, index, Err(Error::UnitNotExist))
    } else {
        let unit = store.units[id];
        let prev = unit.owner;
        if !index.lists[prev].contains(id) {
            (store, index, Err(Error::UnitNotExist))
        } else {
            let lists = index.lists.insert(prev, remove_first(index.lists[prev], id));
            if lists[to].len() >= index.bound {
                (store, index, Err(Error::ExceedMaxUnitOwned))
            } else {
                (
                    StoreModel {
                        units: store.units.insert(id, UnitRecord { owner: to, price: None, ..unit }),
                        ..store
                    },
                    IndexModel { lists: lists.insert(to, lists[to].push(id)), ..index },
                    Ok(()),
                )
            }
        }
    }
}

/// Moving a unit of `kind` to `to`, within the store and the index of `kind`.
pub open spec fn transfer_to(m: PalletModel, kind: UnitKind, id: UnitId, to: AccountId) -> (
    PalletModel,
    Result<(), Error>,
) {
    let (store, index, r) = transfer_parts(m.store(kind), m.index(kind), id, to);
    match r {
        Ok(()) => (m.with_store(kind, store).with_index(kind, index), Ok(())),
        Err(e) => (m, Err(e)),
    }
}

/// A transfer by `from`: `from` must own the unit of `kind`, `to` must differ from `from`
/// and have room in the index of `kind`; then the unit is moved to `to`.
pub open spec fn transfer(
    m: PalletModel,
    kind: UnitKind,
    from: AccountId,
    to: AccountId,
    id: UnitId,
) -> (PalletModel, Result<Event, Error>) {
    match is_owner(m, kind, id, from) {
        Err(e) => (m, Err(e)),
        Ok(false) => (m, Err(Error::NotUnitOwner)),
        Ok(true) => if from == to {
            (m, Err(Error::TransferToSelf))
        } else if m.index(kind).lists[to].len() >= m.index(kind).bound {
            (m, Err(Error::ExceedMaxUnitOwned))
        } else {
            let (post, r) = transfer_to(m, kind, id, to);
            match r {
                Ok(()) => (post, Ok(Event::Transferred(from, to, id))),
                Err(e) => (m, Err(e)),
            }
        },
    }
}

/// The checks of a purchase of the unit `id` of `kind`: it exists, the buyer does not own
/// it, it has an asking price no higher than the bid, the buyer's free balance covers the
/// bid and the buyer has room in the index of `kind`. What passes is the payment
/// to make.
pub open spec fn buy(
    m: PalletModel,
    kind: UnitKind,
    buyer: AccountId,
    id: UnitId,
    bid_price: Balance,
    free_balance: Balance,
) -> Result<Purchase, Error> {
    let store = m.store(kind);
    if !store.units.contains_key(id) {
        Err(Error::UnitNotExist)
    } else {
        let unit = store.units[id];
        if unit.owner == buyer {
            Err(Error::BuyerIsUnitOwner)
        } else {
            match unit.price {
                None => Err(Error::UnitNotForSale),
                Some(ask) => if ask > bid_price {
                    Err(Error::UnitBidPriceTooLow)
                } else if free_balance < bid_price {
                    Err(Error::NotEnoughBalance)
                } else if m.index(kind).lists[buyer].len() >= m.index(kind).bound {
                    Err(Error::ExceedMaxUnitOwned)
                } else {
                    Ok(
                        Purchase {
                            kind,
                            unit_id: id,
                            buyer,
                            seller: unit.owner,
                            price: bid_price,
                        },
                    )
                },
            }
        }
    }
}

/// Completing a paid purchase: the unit moves to the buyer, reported as `Bought`.
pub open spec fn complete_purchase(m: PalletModel, p: Purchase) -> (PalletModel, Result<
    Event,
    Error,
>) {
    let (post, r) = transfer_to(m, p.kind, p.unit_id, p.buyer);
    match r {
        Ok(()) => (post, Ok(Event::Bought(p.buyer, p.seller, p.unit_id, p.price))),
        Err(e) => (m, Err(e)),
    }
}

/// Minting each `(account, dna, _)` entry in turn, whatever each mint answers.
pub open spec fn mint_each(
    m: PalletModel,
    kind: UnitKind,
    entries: Seq<(AccountId, Dna, u64)>,
) -> PalletModel
    decreases entries.len(),
{
    if entries.len() == 0 {
        m
    } else {
        let before = mint_each(m, kind, entries.drop_last());
        mint(before, kind, entries.last().0, entries.last().1).0
    }
}

} // verus!
