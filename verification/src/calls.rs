//! The pallet's calls, one set for each kind of unit. Each states its effect through the
//! model in `model`, which spells out when each error comes and what a success changes.
use vstd::prelude::*;
use crate::types::{AccountId, Balance, Dna, Error, Event, IdEntropy, Purchase, UnitId, UnitKind};
use crate::pallet::Pallet;
use crate::model::{
    buy, chosen_dna, complete_purchase, create, is_owner, mint, set_price, transfer, transfer_to,
};
use crate::codec::gen_id;

verus! {

impl Pallet {
    /// Mints a gold for `owner` from the dna `id`, or, when `id` is `None`, from a dna drawn
    /// from `entropy`. The unit has no price and the initial attribute of its kind; its key
    /// is the BLAKE2-256 digest of its encoding.
    pub fn mint_gold(&mut self, owner: AccountId, id: Option<Dna>, entropy: &IdEntropy) -> (r: Result<
        UnitId,
        Error,
    >)
        requires
            old(self).wf(),
        ensures
            final(self).wf(),
            final(self)@ == mint(
                old(self)@,
                UnitKind::Gold,
                owner,
                chosen_dna(id, *entropy),
            ).0,
            r == mint(old(self)@, UnitKind::Gold, owner, chosen_dna(id, *entropy)).1,
    {
        let dna = match id {
            Some(dna) => dna,
            None => gen_id(entropy),
        };
        self.mint_unit(UnitKind::Gold, owner, dna)
    }

    /// Creates a gold for `sender`, from a dna drawn from `entropy`.
    pub fn create_gold(&mut self, sender: AccountId, entropy: &IdEntropy) -> (r: Result<Event, Error>)
        requires
            old(self).wf(),
        ensures
            final(self).wf(),
            final(self)@ == create(old(self)@, UnitKind::Gold, sender, *entropy).0,
            r == create(old(self)@, UnitKind::Gold, sender, *entropy).1,
    {
        match self.mint_gold(sender, None, entropy) {
            Ok(id) => Ok(Event::Created(sender, id)),
            Err(e) => Err(e),
        }
    }

    /// Sets the asking price of the gold `gold_id`, which `sender` must own.
    pub fn set_price_gold(&mut self, sender: AccountId, gold_id: UnitId, new_price: Option<Balance>) -> (r:
        Result<Event, Error>)
        requires
            old(self).wf(),
        ensures
            final(self).wf(),
            final(self)@ == set_price(old(self)@, UnitKind::Gold, sender, gold_id, new_price).0,
            r == set_price(old(self)@, UnitKind::Gold, sender, gold_id, new_price).1,
    {
        self.set_unit_price(UnitKind::Gold, sender, &gold_id, new_price)
    }

    /// Sends the gold `gold_id` from its owner `from` to `to`, which resets its price.
    pub fn transfer_gold(&mut self, from: AccountId, to: AccountId, gold_id: UnitId) -> (r: Result<
        Event,
        Error,
    >)
        requires
            old(self).wf(),
        ensures
            final(self).wf(),
            final(self)@ == transfer(old(self)@, UnitKind::Gold, from, to, gold_id).0,
            r == transfer(old(self)@, UnitKind::Gold, from, to, gold_id).1,
    {
        self.transfer_unit(UnitKind::Gold, from, to, &gold_id)
    }

    /// Checks a bid of `bid_price` by `buyer`, whose free balance is `free_balance`, for the
    /// gold `gold_id`. What passes is the payment the buyer is to make to the seller before
    /// `complete_purchase` hands over the unit.
    pub fn buy_gold(&self, buyer: AccountId, gold_id: UnitId, bid_price: Balance, free_balance: Balance) -> (r:
        Result<Purchase, Error>)
        requires
            self.wf(),
        ensures
            r == buy(self@, UnitKind::Gold, buyer, gold_id, bid_price, free_balance),
    {
        self.check_purchase(UnitKind::Gold, buyer, &gold_id, bid_price, free_balance)
    }

    /// Whether `acct` owns the gold `gold_id`.
    pub fn is_gold_owner(&self, gold_id: &UnitId, acct: AccountId) -> (r: Result<bool, Error>)
        requires
            self.wf(),
        ensures
            r == is_owner(self@, UnitKind::Gold, *gold_id, acct),
    {
        self.check_owner(UnitKind::Gold, gold_id, acct)
    }

    /// Moves the gold `gold_id` to `to`, resetting its price, without the checks of a transfer.
    pub fn transfer_gold_to(&mut self, gold_id: &UnitId, to: AccountId) -> (r: Result<(), Error>)
        requires
            old(self).wf(),
        ensures
            final(self).wf(),
            final(self)@ == transfer_to(old(self)@, UnitKind::Gold, *gold_id, to).0,
            r == transfer_to(old(self)@, UnitKind::Gold, *gold_id, to).1,
    {
        self.transfer_unit_to(UnitKind::Gold, gold_id, to)
    }

    /// Mints a silver for `owner` from the dna `id`, or, when `id` is `None`, from a dna drawn
    /// from `entropy`. The unit has no price and the initial attribute of its kind; its key
    /// is the BLAKE2-256 digest of its encoding.
    pub fn mint_silver(&mut self, owner: AccountId, id: Option<Dna>, entropy: &IdEntropy) -> (r: Result<
        UnitId,
        Error,
    >)
        requires
            old(self).wf(),
        ensures
            final(self).wf(),
            final(self)@ == mint(
                old(self)@,
                UnitKind::Silver,
                owner,
                chosen_dna(id, *entropy),
            ).0,
            r == mint(old(self)@, UnitKind::Silver, owner, chosen_dna(id, *entropy)).1,
    {
        let dna = match id {
            Some(dna) => dna,
            None => gen_id(entropy),
        };
        self.mint_unit(UnitKind::Silver, owner, dna)
    }

    /// Creates a silver for `sender`, from a dna drawn from `entropy`.
    pub fn create_silver(&mut self, sender: AccountId, entropy: &IdEntropy) -> (r: Result<Event, Error>)
        requires
            old(self).wf(),
        ensures
            final(self).wf(),
            final(self)@ == create(old(self)@, UnitKind::Silver, sender, *entropy).0,
            r == create(old(self)@, UnitKind::Silver, sender, *entropy).1,
    {
        match self.mint_silver(sender, None, entropy) {
            Ok(id) => Ok(Event::Created(sender, id)),
            Err(e) => Err(e),
        }
    }

    /// Sets the asking price of the silver `silver_id`, which `sender` must own.
    pub fn set_price_silver(&mut self, sender: AccountId, silver_id: UnitId, new_price: Option<Balance>) -> (r:
        Result<Event, Error>)
        requires
            old(self).wf(),
        ensures
            final(self).wf(),
            final(self)@ == set_price(old(self)@, UnitKind::Silver, sender, silver_id, new_price).0,
            r == set_price(old(self)@, UnitKind::Silver, sender, silver_id, new_price).1,
    {
        self.set_unit_price(UnitKind::Silver, sender, &silver_id, new_price)
    }

    /// Sends the silver `silver_id` from its owner `from` to `to`, which resets its price.
    pub fn transfer_silver(&mut self, from: AccountId, to: AccountId, silver_id: UnitId) -> (r: Result<
        Event,
        Error,
    >)
        requires
            old(self).wf(),
        ensures
            final(self).wf(),
            final(self)@ == transfer(old(self)@, UnitKind::Silver, from, to, silver_id).0,
            r == transfer(old(self)@, UnitKind::Silver, from, to, silver_id).1,
    {
        self.transfer_unit(UnitKind::Silver, from, to, &silver_id)
    }

    /// Checks a bid of `bid_price` by `buyer`, whose free balance is `free_balance`, for the
    /// silver `silver_id`. What passes is the payment the buyer is to make to the seller before
    /// `complete_purchase` hands over the unit.
    pub fn buy_silver(&self, buyer: AccountId, silver_id: UnitId, bid_price: Balance, free_balance: Balance) -> (r:
        Result<Purchase, Error>)
        requires
            self.wf(),
        ensures
            r == buy(self@, UnitKind::Silver, buyer, silver_id, bid_price, free_balance),
    {
        self.check_purchase(UnitKind::Silver, buyer, &silver_id, bid_price, free_balance)
    }

    /// Whether `acct` owns the silver `silver_id`.
    pub fn is_silver_owner(&self, silver_id: &UnitId, acct: AccountId) -> (r: Result<bool, Error>)
        requires
            self.wf(),
        ensures
            r == is_owner(self@, UnitKind::Silver, *silver_id, acct),
    {
        self.check_owner(UnitKind::Silver, silver_id, acct)
    }

    /// Moves the silver `silver_id` to `to`, resetting its price, without the checks of a transfer.
    pub fn transfer_silver_to(&mut self, silver_id: &UnitId, to: AccountId) -> (r: Result<(), Error>)
        requires
            old(self).wf(),
        ensures
            final(self).wf(),
            final(self)@ == transfer_to(old(self)@, UnitKind::Silver, *silver_id, to).0,
            r == transfer_to(old(self)@, UnitKind::Silver, *silver_id, to).1,
    {
        self.transfer_unit_to(UnitKind::Silver, silver_id, to)
    }

    /// Mints a land for `owner` from the dna `id`, or, when `id` is `None`, from a dna drawn
    /// from `entropy`. The unit has no price and the initial attribute of its kind; its key
    /// is the BLAKE2-256 digest of its encoding.
    pub fn mint_land(&mut self, owner: AccountId, id: Option<Dna>, entropy: &IdEntropy) -> (r: Result<
        UnitId,
        Error,
    >)
        requires
            old(self).wf(),
        ensures
            final(self).wf(),
            final(self)@ == mint(
                old(self)@,
                UnitKind::Land,
                owner,
                chosen_dna(id, *entropy),
            ).0,
            r == mint(old(self)@, UnitKind::Land, owner, chosen_dna(id, *entropy)).1,
    {
        let dna = match id {
            Some(dna) => dna,
            None => gen_id(entropy),
        };
        self.mint_unit(UnitKind::Land, owner, dna)
    }

    /// Creates a land for `sender`, from a dna drawn from `entropy`.
    pub fn create_land(&mut self, sender: AccountId, entropy: &IdEntropy) -> (r: Result<Event, Error>)
        requires
            old(self).wf(),
        ensures
            final(self).wf(),
            final(self)@ == create(old(self)@, UnitKind::Land, sender, *entropy).0,
            r == create(old(self)@, UnitKind::Land, sender, *entropy).1,
    {
        match self.mint_land(sender, None, entropy) {
            Ok(id) => Ok(Event::Created(sender, id)),
            Err(e) => Err(e),
        }
    }

    /// Sets the asking price of the land `land_id`, which `sender` must own.
    pub fn set_price_land(&mut self, sender: AccountId, land_id: UnitId, new_price: Option<Balance>) -> (r:
        Result<Event, Error>)
        requires
            old(self).wf(),
        ensures
            final(self).wf(),
            final(self)@ == set_price(old(self)@, UnitKind::Land, sender, land_id, new_price).0,
            r == set_price(old(self)@, UnitKind::Land, sender, land_id, new_price).1,
    {
        self.set_unit_price(UnitKind::Land, sender, &land_id, new_price)
    }

    /// Sends the land `land_id` from its owner `from` to `to`, which resets its price.
    pub fn transfer_land(&mut self, from: AccountId, to: AccountId, land_id: UnitId) -> (r: Result<
        Event,
        Error,
    >)
        requires
            old(self).wf(),
        ensures
            final(self).wf(),
            final(self)@ == transfer(old(self)@, UnitKind::Land, from, to, land_id).0,
            r == transfer(old(self)@, UnitKind::Land, from, to, land_id).1,
    {
        self.transfer_unit(UnitKind::Land, from, to, &land_id)
    }

    /// Checks a bid of `bid_price` by `buyer`, whose free balance is `free_balance`, for the
    /// land `land_id`. What passes is the payment the buyer is to make to the seller before
    /// `complete_purchase` hands over the unit.
    pub fn buy_land(&self, buyer: AccountId, land_id: UnitId, bid_price: Balance, free_balance: Balance) -> (r:
        Result<Purchase, Error>)
        requires
            self.wf(),
        ensures
            r == buy(self@, UnitKind::Land, buyer, land_id, bid_price, free_balance),
    {
        self.check_purchase(UnitKind::Land, buyer, &land_id, bid_price, free_balance)
    }

    /// Whether `acct` owns the land `land_id`.
    pub fn is_land_owner(&self, land_id: &UnitId, acct: AccountId) -> (r: Result<bool, Error>)
        requires
            self.wf(),
        ensures
            r == is_owner(self@, UnitKind::Land, *land_id, acct),
    {
        self.check_owner(UnitKind::Land, land_id, acct)
    }

    /// Moves the land `land_id` to `to`, resetting its price, without the checks of a transfer.
    pub fn transfer_land_to(&mut self, land_id: &UnitId, to: AccountId) -> (r: Result<(), Error>)
        requires
            old(self).wf(),
        ensures
            final(self).wf(),
            final(self)@ == transfer_to(old(self)@, UnitKind::Land, *land_id, to).0,
            r == transfer_to(old(self)@, UnitKind::Land, *land_id, to).1,
    {
        self.transfer_unit_to(UnitKind::Land, land_id, to)
    }

    /// Mints a stock for `owner` from the dna `id`, or, when `id` is `None`, from a dna drawn
    /// from `entropy`. The unit has no price and the initial attribute of its kind; its key
    /// is the BLAKE2-256 digest of its encoding.
    pub fn mint_stock(&mut self, owner: AccountId, id: Option<Dna>, entropy: &IdEntropy) -> (r: Result<
        UnitId,
        Error,
    >)
        requires
            old(self).wf(),
        ensures
            final(self).wf(),
            final(self)@ == mint(
                old(self)@,
                UnitKind::Stock,
                owner,
                chosen_dna(id, *entropy),
            ).0,
            r == mint(old(self)@, UnitKind::Stock, owner, chosen_dna(id, *entropy)).1,
    {
        let dna = match id {
            Some(dna) => dna,
            None => gen_id(entropy),
        };
        self.mint_unit(UnitKind::Stock, owner, dna)
    }

    /// Creates a stock for `sender`, from a dna drawn from `entropy`.
    pub fn create_stock(&mut self, sender: AccountId, entropy: &IdEntropy) -> (r: Result<Event, Error>)
        requires
            old(self).wf(),
        ensures
            final(self).wf(),
            final(self)@ == create(old(self)@, UnitKind::Stock, sender, *entropy).0,
            r == create(old(self)@, UnitKind::Stock, sender, *entropy).1,
    {
        match self.mint_stock(sender, None, entropy) {
            Ok(id) => Ok(Event::Created(sender, id)),
            Err(e) => Err(e),
        }
    }

    /// Sets the asking price of the stock `stock_id`, which `sender` must own.
    pub fn set_price_stock(&mut self, sender: AccountId, stock_id: UnitId, new_price: Option<Balance>) -> (r:
        Result<Event, Error>)
        requires
            old(self).wf(),
        ensures
            final(self).wf(),
            final(self)@ == set_price(old(self)@, UnitKind::Stock, sender, stock_id, new_price).0,
            r == set_price(old(self)@, UnitKind::Stock, sender, stock_id, new_price).1,
    {
        self.set_unit_price(UnitKind::Stock, sender, &stock_id, new_price)
    }

    /// Sends the stock `stock_id` from its owner `from` to `to`, which resets its price.
    pub fn transfer_stock(&mut self, from: AccountId, to: AccountId, stock_id: UnitId) -> (r: Result<
        Event,
        Error,
    >)
        requires
            old(self).wf(),
        ensures
            final(self).wf(),
            final(self)@ == transfer(old(self)@, UnitKind::Stock, from, to, stock_id).0,
            r == transfer(old(self)@, UnitKind::Stock, from, to, stock_id).1,
    {
        self.transfer_unit(UnitKind::Stock, from, to, &stock_id)
    }

    /// Checks a bid of `bid_price` by `buyer`, whose free balance is `free_balance`, for the
    /// stock `stock_id`. What passes is the payment the buyer is to make to the seller before
    /// `complete_purchase` hands over the unit.
    pub fn buy_stock(&self, buyer: AccountId, stock_id: UnitId, bid_price: Balance, free_balance: Balance) -> (r:
        Result<Purchase, Error>)
        requires
            self.wf(),
        ensures
            r == buy(self@, UnitKind::Stock, buyer, stock_id, bid_price, free_balance),
    {
        self.check_purchase(UnitKind::Stock, buyer, &stock_id, bid_price, free_balance)
    }

    /// Whether `acct` owns the stock `stock_id`.
    pub fn is_stock_owner(&self, stock_id: &UnitId, acct: AccountId) -> (r: Result<bool, Error>)
        requires
            self.wf(),
        ensures
            r == is_owner(self@, UnitKind::Stock, *stock_id, acct),
    {
        self.check_owner(UnitKind::Stock, stock_id, acct)
    }

    /// Moves the stock `stock_id` to `to`, resetting its price, without the checks of a transfer.
    pub fn transfer_stock_to(&mut self, stock_id: &UnitId, to: AccountId) -> (r: Result<(), Error>)
        requires
            old(self).wf(),
        ensures
            final(self).wf(),
            final(self)@ == transfer_to(old(self)@, UnitKind::Stock, *stock_id, to).0,
            r == transfer_to(old(self)@, UnitKind::Stock, *stock_id, to).1,
    {
        self.transfer_unit_to(UnitKind::Stock, stock_id, to)
    }

    /// Mints a sukuk for `owner` from the dna `id`, or, when `id` is `None`, from a dna drawn
    /// from `entropy`. The unit has no price and the initial attribute of its kind; its key
    /// is the BLAKE2-256 digest of its encoding.
    pub fn mint_sukuk(&mut self, owner: AccountId, id: Option<Dna>, entropy: &IdEntropy) -> (r: Result<
        UnitId,
        Error,
    >)
        requires
            old(self).wf(),
        ensures
            final(self).wf(),
            final(self)@ == mint(
                old(self)@,
                UnitKind::Sukuk,
                owner,
                chosen_dna(id, *entropy),
            ).0,
            r == mint(old(self)@, UnitKind::Sukuk, owner, chosen_dna(id, *entropy)).1,
    {
        let dna = match id {
            Some(dna) => dna,
            None => gen_id(entropy),
        };
        self.mint_unit(UnitKind::Sukuk, owner, dna)
    }

    /// Creates a sukuk for `sender`, from a dna drawn from `entropy`.
    pub fn create_sukuk(&mut self, sender: AccountId, entropy: &IdEntropy) -> (r: Result<Event, Error>)
        requires
            old(self).wf(),
        ensures
            final(self).wf(),
            final(self)@ == create(old(self)@, UnitKind::Sukuk, sender, *entropy).0,
            r == create(old(self)@, UnitKind::Sukuk, sender, *entropy).1,
    {
        match self.mint_sukuk(sender, None, entropy) {
            Ok(id) => Ok(Event::Created(sender, id)),
            Err(e) => Err(e),
        }
    }

    /// Sets the asking price of the sukuk `sukuk_id`, which `sender` must own.
    pub fn set_price_sukuk(&mut self, sender: AccountId, sukuk_id: UnitId, new_price: Option<Balance>) -> (r:
        Result<Event, Error>)
        requires
            old(self).wf(),
        ensures
            final(self).wf(),
            final(self)@ == set_price(old(self)@, UnitKind::Sukuk, sender, sukuk_id, new_price).0,
            r == set_price(old(self)@, UnitKind::Sukuk, sender, sukuk_id, new_price).1,
    {
        self.set_unit_price(UnitKind::Sukuk, sender, &sukuk_id, new_price)
    }

    /// Sends the sukuk `sukuk_id` from its owner `from` to `to`, which resets its price.
    pub fn transfer_sukuk(&mut self, from: AccountId, to: AccountId, sukuk_id: UnitId) -> (r: Result<
        Event,
        Error,
    >)
        requires
            old(self).wf(),
        ensures
            final(self).wf(),
            final(self)@ == transfer(old(self)@, UnitKind::Sukuk, from, to, sukuk_id).0,
            r == transfer(old(self)@, UnitKind::Sukuk, from, to, sukuk_id).1,
    {
        self.transfer_unit(UnitKind::Sukuk, from, to, &sukuk_id)
    }

    /// Checks a bid of `bid_price` by `buyer`, whose free balance is `free_balance`, for the
    /// sukuk `sukuk_id`. What passes is the payment the buyer is to make to the seller before
    /// `complete_purchase` hands over the unit.
    pub fn buy_sukuk(&self, buyer: AccountId, sukuk_id: UnitId, bid_price: Balance, free_balance: Balance) -> (r:
        Result<Purchase, Error>)
        requires
            self.wf(),
        ensures
            r == buy(self@, UnitKind::Sukuk, buyer, sukuk_id, bid_price, free_balance),
    {
        self.check_purchase(UnitKind::Sukuk, buyer, &sukuk_id, bid_price, free_balance)
    }

    /// Whether `acct` owns the sukuk `sukuk_id`.
    pub fn is_sukuk_owner(&self, sukuk_id: &UnitId, acct: AccountId) -> (r: Result<bool, Error>)
        requires
            self.wf(),
        ensures
            r == is_owner(self@, UnitKind::Sukuk, *sukuk_id, acct),
    {
        self.check_owner(UnitKind::Sukuk, sukuk_id, acct)
    }

    /// Moves the sukuk `sukuk_id` to `to`, resetting its price, without the checks of a transfer.
    pub fn transfer_sukuk_to(&mut self, sukuk_id: &UnitId, to: AccountId) -> (r: Result<(), Error>)
        requires
            old(self).wf(),
        ensures
            final(self).wf(),
            final(self)@ == transfer_to(old(self)@, UnitKind::Sukuk, *sukuk_id, to).0,
            r == transfer_to(old(self)@, UnitKind::Sukuk, *sukuk_id, to).1,
    {
        self.transfer_unit_to(UnitKind::Sukuk, sukuk_id, to)
    }

    /// Hands over the unit of a purchase once the buyer has paid the seller.
    pub fn complete_purchase(&mut self, purchase: &Purchase) -> (r: Result<Event, Error>)
        requires
            old(self).wf(),
        ensures
            final(self).wf(),
            final(self)@ == complete_purchase(old(self)@, *purchase).0,
            r == complete_purchase(old(self)@, *purchase).1,
    {
        match self.transfer_unit_to(purchase.kind, &purchase.unit_id, purchase.buyer) {
            Ok(()) => Ok(Event::Bought(purchase.buyer, purchase.seller, purchase.unit_id, purchase.price)),
            Err(e) => Err(e),
        }
    }
}

} // verus!
