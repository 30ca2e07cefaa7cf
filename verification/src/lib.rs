//! Verified core of an asset registry pallet: gold, silver, land, stock and
//! sukuk units that accounts mint, price, transfer and buy.

pub mod hashing;
pub mod types;
pub mod codec;
pub mod unit_map;
pub mod owned_index;
pub mod model;
pub mod store;
pub mod pallet;
pub mod calls;
pub mod laws;
pub mod genesis;
pub mod getters;
