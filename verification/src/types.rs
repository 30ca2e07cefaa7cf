//! The values the pallet stores, the errors it answers with and the events it emits.
use vstd::prelude::*;

verus! {

/// An account of the chain. The library fixes the runtime's account type to `u64` (encoded in
/// 8 bytes); a runtime with another account type encodes, and so keys, its units differently.
pub type AccountId = u64;

/// An amount of the chain's currency. The library fixes the runtime's balance type to `u128`
/// (encoded in 16 bytes).
pub type Balance = u128;

/// The key under which a unit is stored: the BLAKE2-256 digest of the unit's encoding (the
/// runtime's hashing is fixed to BLAKE2-256 and its hash type to 32 bytes).
pub type UnitId = [u8; 32];

/// The 16 bytes that make a unit unique before it is hashed.
pub type Dna = [u8; 16];

/// The five kinds of unit the pallet keeps.
#[derive(Debug, Clone, Copy, PartialEq, Eq, Structural)]
pub enum UnitKind {
    Gold,
    Silver,
    Land,
    Stock,
    Sukuk,
}

/// A unit as the pallet stores it: the kind of the unit decides what `attribute` means
/// (the weight of gold and silver, the area of land, the number of shares of a stock,
/// the rate of a sukuk) and in which order the fields are encoded.
#[derive(Debug, Clone, Copy)]
pub struct UnitRecord {
    pub id: Dna,
    pub price: Option<Balance>,
    pub attribute: u64,
    pub owner: AccountId,
}

/// Gold, as the pallet hands it out.
#[derive(Debug, Clone, Copy)]
pub struct Gold {
    pub id: Dna,
    pub price: Option<Balance>,
    pub weight: u64,
    pub owner: AccountId,
}

/// Silver, as the pallet hands it out.
#[derive(Debug, Clone, Copy)]
pub struct Silver {
    pub id: Dna,
    pub price: Option<Balance>,
    pub weight: u64,
    pub owner: AccountId,
}

/// Land, as the pallet hands it out.
#[derive(Debug, Clone, Copy)]
pub struct Land {
    pub id: Dna,
    pub price: Option<Balance>,
    pub area: u64,
    pub owner: AccountId,
}

/// A stock, as the pallet hands it out.
#[derive(Debug, Clone, Copy)]
pub struct Stock {
    pub id: Dna,
    pub price: Option<Balance>,
    pub nos: u64,
    pub owner: AccountId,
}

/// A sukuk, as the pallet hands it out.
#[derive(Debug, Clone, Copy)]
pub struct Sukuk {
    pub id: Dna,
    pub price: Option<Balance>,
    pub owner: AccountId,
    pub rate: u64,
}

/// Why a call was refused.
#[derive(Debug, Clone, Copy, PartialEq, Eq, Structural)]
pub enum Error {
    /// The counter of a kind of unit would overflow.
    CountForUnitOverflow,
    /// The account already owns as many units of the kind as it may.
    ExceedMaxUnitOwned,
    /// The buyer already owns the unit.
    BuyerIsUnitOwner,
    /// The unit would be sent to its owner.
    TransferToSelf,
    /// A unit with that key already exists.
    UnitExists,
    /// No unit has that key (or the owner's list does not hold it).
    UnitNotExist,
    /// The caller does not own the unit.
    NotUnitOwner,
    /// The unit has no asking price.
    UnitNotForSale,
    /// The bid is below the asking price.
    UnitBidPriceTooLow,
    /// The buyer's free balance is below the bid.
    NotEnoughBalance,
}

/// What a successful call reports.
#[derive(Debug, Clone, Copy, PartialEq, Eq)]
pub enum Event {
    /// A unit was created: `[sender, unit_id]`.
    Created(AccountId, UnitId),
    /// A unit's price was set: `[sender, unit_id, new_price]`.
    PriceSet(AccountId, UnitId, Option<Balance>),
    /// A unit was transferred: `[from, to, unit_id]`.
    Transferred(AccountId, AccountId, UnitId),
    /// A unit was bought: `[buyer, seller, unit_id, bid_price]`.
    Bought(AccountId, AccountId, UnitId, Balance),
}

/// A block number, in the width of the runtime's block number type; it is encoded in as many
/// bytes as that type has.
#[derive(Debug, Clone, Copy, PartialEq, Eq, Structural)]
pub enum BlockNumber {
    U32(u32),
    U64(u64),
    U128(u128),
}

/// The chain's state that a fresh unit's dna is drawn from: the random seed for the
/// subject `b"dna"` (a 32-byte hash), the index of the current extrinsic (if any) and the
/// block number.
#[derive(Debug, Clone, Copy)]
pub struct IdEntropy {
    pub random_seed: [u8; 32],
    pub extrinsic_index: Option<u32>,
    pub block_number: BlockNumber,
}

/// The limits the runtime configures: how many units of each kind one account may own.
#[derive(Debug, Clone, Copy)]
pub struct Config {
    pub max_gold_owned: u32,
    pub max_silver_owned: u32,
    pub max_land_owned: u32,
    pub max_stock_owned: u32,
    pub max_sukuk_owned: u32,
}

/// A purchase that passed every check of the pallet: the buyer is to pay `price` to the
/// seller, after which `complete_purchase` moves the unit (of the store that `kind` names)
/// to the buyer.
#[derive(Debug, Clone, Copy, PartialEq, Eq)]
pub struct Purchase {
    pub kind: UnitKind,
    pub unit_id: UnitId,
    pub buyer: AccountId,
    pub seller: AccountId,
    pub price: Balance,
}

} // verus!
