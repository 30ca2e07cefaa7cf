use frame_support::pallet_prelude::Encode;
use frame_support::sp_runtime::traits::BlakeTwo256;
use frame_support::sp_runtime::traits::Hash as Hasher;
use pallet_kitties::genesis::GenesisConfig;
use pallet_kitties::pallet::Pallet;
use pallet_kitties::types::{BlockNumber, Config, Error, Event, IdEntropy, Purchase, UnitId, UnitKind};

fn config(max: u32) -> Config {
    Config {
        max_gold_owned: max,
        max_silver_owned: max,
        max_land_owned: max,
        max_stock_owned: max,
        max_sukuk_owned: max,
    }
}

fn entropy() -> IdEntropy {
    IdEntropy { random_seed: [7u8; 32], extrinsic_index: Some(2), block_number: BlockNumber::U32(11) }
}

fn dna(b: u8) -> [u8; 16] {
    [b; 16]
}

fn gold_id(d: [u8; 16], owner: u64) -> UnitId {
    <BlakeTwo256 as Hasher>::hash_of(&(d, None::<u128>, 10u64, owner)).0
}

fn sukuk_id(d: [u8; 16], owner: u64) -> UnitId {
    <BlakeTwo256 as Hasher>::hash_of(&(d, None::<u128>, owner, 3u64)).0
}

#[test]
fn mint_gold_keys_unit_by_blake2_256_of_its_scale_encoding() {
    let mut p = Pallet::new(config(5));
    let id = p.mint_gold(4, Some(dna(1)), &entropy()).unwrap();
    assert_eq!(id, gold_id(dna(1), 4));
    assert_eq!(id, sp_io::hashing::blake2_256(&(dna(1), None::<u128>, 10u64, 4u64).encode()));
    let g = p.golds(&id).unwrap();
    assert_eq!(g.id, dna(1));
    assert_eq!(g.price, None);
    assert_eq!(g.weight, 10);
    assert_eq!(g.owner, 4);
    assert_eq!(p.count_for_gold(), 1);
    assert_eq!(p.gold_owned(4), vec![id]);
}

#[test]
fn mint_without_dna_draws_it_from_the_chain_state() {
    let mut p = Pallet::new(config(5));
    let e = entropy();
    let id = p.mint_stock(3, None, &e).unwrap();
    let drawn = sp_io::hashing::blake2_128(&(e.random_seed, 2u32, 11u32).encode());
    assert_ne!(&drawn[..], &e.random_seed[..16]);
    let s = p.stocks(&id).unwrap();
    assert_eq!(s.id, drawn);
    assert_eq!(s.nos, 10);
    assert_eq!(id, <BlakeTwo256 as Hasher>::hash_of(&(drawn, None::<u128>, 10u64, 3u64)).0);
}

#[test]
fn missing_extrinsic_index_counts_as_zero() {
    let mut p = Pallet::new(config(5));
    let e = IdEntropy { random_seed: [9u8; 32], extrinsic_index: None, block_number: BlockNumber::U32(1) };
    let id = p.mint_silver(3, None, &e).unwrap();
    let drawn = sp_io::hashing::blake2_128(&([9u8; 32], 0u32, 1u32).encode());
    assert_eq!(p.silvers(&id).unwrap().id, drawn);
}

#[test]
fn the_block_number_is_encoded_in_its_own_width() {
    let mut p = Pallet::new(config(5));
    let e64 = IdEntropy { random_seed: [5u8; 32], extrinsic_index: Some(3), block_number: BlockNumber::U64(1 << 40) };
    let id = p.mint_gold(3, None, &e64).unwrap();
    let drawn = sp_io::hashing::blake2_128(&([5u8; 32], 3u32, 1u64 << 40).encode());
    assert_eq!(p.golds(&id).unwrap().id, drawn);
    let e128 = IdEntropy { random_seed: [5u8; 32], extrinsic_index: None, block_number: BlockNumber::U128(7) };
    let id = p.mint_gold(3, None, &e128).unwrap();
    let drawn = sp_io::hashing::blake2_128(&([5u8; 32], 0u32, 7u128).encode());
    assert_eq!(p.golds(&id).unwrap().id, drawn);
    let e32 = IdEntropy { random_seed: [5u8; 32], extrinsic_index: None, block_number: BlockNumber::U32(7) };
    let id = p.mint_gold(3, None, &e32).unwrap();
    assert_ne!(p.golds(&id).unwrap().id, drawn);
}

#[test]
fn sukuk_encodes_owner_before_rate() {
    let mut p = Pallet::new(config(5));
    let id = p.mint_sukuk(4, Some(dna(1)), &entropy()).unwrap();
    assert_eq!(id, sukuk_id(dna(1), 4));
    let s = p.sukuks(&id).unwrap();
    assert_eq!(s.rate, 3);
    assert_eq!(s.owner, 4);
}

#[test]
fn land_area_and_silver_weight_start_at_ten() {
    let mut p = Pallet::new(config(5));
    let l = p.mint_land(4, Some(dna(2)), &entropy()).unwrap();
    let s = p.mint_silver(4, Some(dna(2)), &entropy()).unwrap();
    assert_eq!(p.lands(&l).unwrap().area, 10);
    assert_eq!(p.silvers(&s).unwrap().weight, 10);
}

#[test]
fn minting_the_same_dna_twice_is_refused() {
    let mut p = Pallet::new(config(5));
    p.mint_gold(4, Some(dna(1)), &entropy()).unwrap();
    assert_eq!(p.mint_gold(4, Some(dna(1)), &entropy()), Err(Error::UnitExists));
    assert_eq!(p.count_for_gold(), 1);
    // another owner gives another key
    assert!(p.mint_gold(5, Some(dna(1)), &entropy()).is_ok());
    assert_eq!(p.count_for_gold(), 2);
}

#[test]
fn minting_beyond_the_bound_is_refused() {
    let mut p = Pallet::new(config(1));
    p.mint_stock(4, Some(dna(1)), &entropy()).unwrap();
    assert_eq!(p.mint_stock(4, Some(dna(2)), &entropy()), Err(Error::ExceedMaxUnitOwned));
    assert_eq!(p.count_for_stock(), 1);
    assert_eq!(p.stock_owned(4).len(), 1);
    assert!(p.mint_stock(5, Some(dna(2)), &entropy()).is_ok());
}

#[test]
fn a_zero_bound_refuses_every_mint() {
    let mut p = Pallet::new(config(0));
    assert_eq!(p.mint_gold(4, Some(dna(1)), &entropy()), Err(Error::ExceedMaxUnitOwned));
    assert_eq!(p.count_for_gold(), 0);
}

#[test]
fn create_gold_reports_the_new_unit() {
    let mut p = Pallet::new(config(5));
    let ev = p.create_gold(4, &entropy()).unwrap();
    match ev {
        Event::Created(who, id) => {
            assert_eq!(who, 4);
            assert_eq!(p.golds(&id).unwrap().owner, 4);
            assert_eq!(p.gold_owned(4), vec![id]);
        },
        _ => panic!("not a creation"),
    }
    assert_eq!(p.create_gold(4, &entropy()), Err(Error::UnitExists));
}

#[test]
fn create_silver_mints_a_silver_into_the_silver_lists() {
    let mut p = Pallet::new(config(5));
    let e = entropy();
    let ev = p.create_silver(4, &e).unwrap();
    let id = match ev {
        Event::Created(who, id) => {
            assert_eq!(who, 4);
            id
        },
        _ => panic!("not a creation"),
    };
    let drawn = sp_io::hashing::blake2_128(&(e.random_seed, 2u32, 11u32).encode());
    assert_eq!(id, <BlakeTwo256 as Hasher>::hash_of(&(drawn, None::<u128>, 10u64, 4u64)).0);
    assert_eq!(p.count_for_silver(), 1);
    assert_eq!(p.count_for_land(), 0);
    let s = p.silvers(&id).unwrap();
    assert_eq!((s.id, s.price, s.weight, s.owner), (drawn, None, 10, 4));
    assert!(p.lands(&id).is_none());
    assert_eq!(p.silver_owned(4), vec![id]);
    assert!(p.gold_owned(4).is_empty());
}

#[test]
fn create_land_stock_and_sukuk() {
    let mut p = Pallet::new(config(5));
    assert!(matches!(p.create_land(4, &entropy()), Ok(Event::Created(4, _))));
    assert!(matches!(p.create_stock(4, &entropy()), Ok(Event::Created(4, _))));
    assert!(matches!(p.create_sukuk(4, &entropy()), Ok(Event::Created(4, _))));
    assert_eq!(p.count_for_land(), 1);
    assert_eq!(p.count_for_stock(), 1);
    assert_eq!(p.count_for_sukuk(), 1);
    assert_eq!(p.land_owned(4).len(), 1);
    assert!(p.gold_owned(4).is_empty());
    assert_eq!(p.stock_owned(4).len(), 1);
    assert_eq!(p.sukuk_owned(4).len(), 1);
}

#[test]
fn set_price_is_read_back() {
    let mut p = Pallet::new(config(5));
    let id = p.mint_gold(4, Some(dna(1)), &entropy()).unwrap();
    assert_eq!(p.set_price_gold(4, id, Some(50)), Ok(Event::PriceSet(4, id, Some(50))));
    assert_eq!(p.golds(&id).unwrap().price, Some(50));
    assert_eq!(p.golds(&id).unwrap().owner, 4);
    assert_eq!(p.set_price_gold(4, id, None), Ok(Event::PriceSet(4, id, None)));
    assert_eq!(p.golds(&id).unwrap().price, None);
}

#[test]
fn set_price_by_another_account_is_refused() {
    let mut p = Pallet::new(config(5));
    let id = p.mint_silver(4, Some(dna(1)), &entropy()).unwrap();
    assert_eq!(p.set_price_silver(5, id, Some(1)), Err(Error::NotUnitOwner));
    assert_eq!(p.silvers(&id).unwrap().price, None);
}

#[test]
fn set_price_of_a_missing_unit_is_refused() {
    let mut p = Pallet::new(config(5));
    let id = p.mint_gold(4, Some(dna(1)), &entropy()).unwrap();
    assert_eq!(p.set_price_stock(4, id, Some(1)), Err(Error::UnitNotExist));
    assert_eq!(p.set_price_land(4, [0u8; 32], Some(1)), Err(Error::UnitNotExist));
    assert_eq!(p.set_price_sukuk(4, [0u8; 32], Some(1)), Err(Error::UnitNotExist));
}

#[test]
fn transfer_moves_the_unit_and_resets_its_price() {
    let mut p = Pallet::new(config(5));
    let id = p.mint_gold(4, Some(dna(1)), &entropy()).unwrap();
    p.set_price_gold(4, id, Some(9)).unwrap();
    assert_eq!(p.transfer_gold(4, 6, id), Ok(Event::Transferred(4, 6, id)));
    let g = p.golds(&id).unwrap();
    assert_eq!(g.owner, 6);
    assert_eq!(g.price, None);
    assert!(p.gold_owned(4).is_empty());
    assert_eq!(p.gold_owned(6), vec![id]);
    assert_eq!(p.count_for_gold(), 1);
}

#[test]
fn transfer_of_silver_and_stock() {
    let mut p = Pallet::new(config(5));
    let s = p.mint_silver(4, Some(dna(1)), &entropy()).unwrap();
    let t = p.mint_stock(4, Some(dna(1)), &entropy()).unwrap();
    assert_eq!(p.transfer_silver(4, 6, s), Ok(Event::Transferred(4, 6, s)));
    assert_eq!(p.transfer_stock(4, 6, t), Ok(Event::Transferred(4, 6, t)));
    assert_eq!(p.silver_owned(6), vec![s]);
    assert_eq!(p.stock_owned(6), vec![t]);
    assert_eq!(p.is_silver_owner(&s, 6), Ok(true));
    assert_eq!(p.is_stock_owner(&t, 4), Ok(false));
}

#[test]
fn transfer_refusals() {
    let mut p = Pallet::new(config(1));
    let id = p.mint_gold(4, Some(dna(1)), &entropy()).unwrap();
    let other = p.mint_gold(6, Some(dna(2)), &entropy()).unwrap();
    assert_eq!(p.transfer_gold(5, 6, id), Err(Error::NotUnitOwner));
    assert_eq!(p.transfer_gold(4, 4, id), Err(Error::TransferToSelf));
    assert_eq!(p.transfer_gold(4, 6, id), Err(Error::ExceedMaxUnitOwned));
    assert_eq!(p.transfer_gold(4, 6, [3u8; 32]), Err(Error::UnitNotExist));
    assert_eq!(p.golds(&id).unwrap().owner, 4);
    assert_eq!(p.gold_owned(6), vec![other]);
}

#[test]
fn transfer_sukuk_moves_the_sukuk() {
    let mut p = Pallet::new(config(5));
    let id = p.mint_sukuk(4, Some(dna(1)), &entropy()).unwrap();
    p.set_price_sukuk(4, id, Some(2)).unwrap();
    assert_eq!(p.transfer_sukuk(4, 6, id), Ok(Event::Transferred(4, 6, id)));
    let s = p.sukuks(&id).unwrap();
    assert_eq!(s.owner, 6);
    assert_eq!(s.price, None);
    assert!(p.sukuk_owned(4).is_empty());
    assert_eq!(p.sukuk_owned(6), vec![id]);
    assert_eq!(p.count_for_gold(), 0);
    assert!(p.gold_owned(6).is_empty());
}

#[test]
fn lands_are_listed_and_transferred() {
    let mut p = Pallet::new(config(5));
    let id = p.mint_land(1, Some([0u8; 16]), &entropy()).unwrap();
    assert_eq!(id, <BlakeTwo256 as Hasher>::hash_of(&([0u8; 16], None::<u128>, 10u64, 1u64)).0);
    assert_eq!(p.land_owned(1), vec![id]);
    assert!(p.gold_owned(1).is_empty());
    assert_eq!(p.count_for_land(), 1);
    assert_eq!(p.transfer_land_to(&id, 2), Ok(()));
    assert_eq!(p.lands(&id).unwrap().owner, 2);
    assert!(p.land_owned(1).is_empty());
    assert_eq!(p.land_owned(2), vec![id]);
    assert_eq!(p.transfer_land(2, 3, id), Ok(Event::Transferred(2, 3, id)));
    assert_eq!(p.land_owned(3), vec![id]);
    assert_eq!(p.lands(&id).unwrap().price, None);
}

#[test]
fn mint_land_checks_room_in_the_land_list() {
    let c = Config {
        max_gold_owned: 5,
        max_silver_owned: 5,
        max_land_owned: 1,
        max_stock_owned: 5,
        max_sukuk_owned: 5,
    };
    let mut p = Pallet::new(c);
    p.mint_land(4, Some(dna(1)), &entropy()).unwrap();
    assert_eq!(p.mint_land(4, Some(dna(2)), &entropy()), Err(Error::ExceedMaxUnitOwned));
    assert!(p.mint_gold(4, Some(dna(2)), &entropy()).is_ok());
    let c = Config { max_gold_owned: 0, ..c };
    let mut q = Pallet::new(c);
    assert!(q.mint_land(4, Some(dna(1)), &entropy()).is_ok());
}

#[test]
fn transfer_to_moves_without_checks() {
    let mut p = Pallet::new(config(5));
    let id = p.mint_sukuk(4, Some(dna(1)), &entropy()).unwrap();
    assert_eq!(p.transfer_sukuk_to(&id, 4), Ok(()));
    assert_eq!(p.sukuk_owned(4), vec![id]);
    assert_eq!(p.transfer_sukuk_to(&id, 5), Ok(()));
    assert_eq!(p.sukuks(&id).unwrap().owner, 5);
    assert_eq!(p.transfer_silver_to(&id, 5), Err(Error::UnitNotExist));
    assert_eq!(p.transfer_stock_to(&id, 5), Err(Error::UnitNotExist));
    assert_eq!(p.transfer_gold_to(&id, 5), Err(Error::UnitNotExist));
}

#[test]
fn transfer_to_a_full_list_is_refused_and_rolled_back() {
    let mut p = Pallet::new(config(1));
    let a = p.mint_gold(4, Some(dna(1)), &entropy()).unwrap();
    p.mint_gold(5, Some(dna(2)), &entropy()).unwrap();
    p.set_price_gold(4, a, Some(3)).unwrap();
    assert_eq!(p.transfer_gold_to(&a, 5), Err(Error::ExceedMaxUnitOwned));
    assert_eq!(p.gold_owned(4), vec![a]);
    assert_eq!(p.golds(&a).unwrap().price, Some(3));
}

#[test]
fn removal_swaps_the_last_key_into_place() {
    let mut p = Pallet::new(config(5));
    let a = p.mint_gold(4, Some(dna(1)), &entropy()).unwrap();
    let b = p.mint_gold(4, Some(dna(2)), &entropy()).unwrap();
    let c = p.mint_gold(4, Some(dna(3)), &entropy()).unwrap();
    assert_eq!(p.gold_owned(4), vec![a, b, c]);
    p.transfer_gold(4, 6, a).unwrap();
    assert_eq!(p.gold_owned(4), vec![c, b]);
    assert_eq!(p.gold_owned(6), vec![a]);
}

#[test]
fn buy_refusals() {
    let mut p = Pallet::new(config(5));
    let id = p.mint_gold(4, Some(dna(1)), &entropy()).unwrap();
    assert_eq!(p.buy_gold(6, [0u8; 32], 10, 100), Err(Error::UnitNotExist));
    assert_eq!(p.buy_gold(4, id, 10, 100), Err(Error::BuyerIsUnitOwner));
    assert_eq!(p.buy_gold(6, id, 10, 100), Err(Error::UnitNotForSale));
    p.set_price_gold(4, id, Some(20)).unwrap();
    assert_eq!(p.buy_gold(6, id, 10, 100), Err(Error::UnitBidPriceTooLow));
    assert_eq!(p.buy_gold(6, id, 30, 29), Err(Error::NotEnoughBalance));
    assert!(p.buy_gold(6, id, 20, 20).is_ok());
}

#[test]
fn buy_without_room_is_refused() {
    let mut p = Pallet::new(config(1));
    let id = p.mint_stock(4, Some(dna(1)), &entropy()).unwrap();
    p.mint_stock(6, Some(dna(2)), &entropy()).unwrap();
    p.set_price_stock(4, id, Some(1)).unwrap();
    assert_eq!(p.buy_stock(6, id, 1, 1), Err(Error::ExceedMaxUnitOwned));
    assert!(p.buy_stock(7, id, 1, 1).is_ok());
}

#[test]
fn a_paid_purchase_hands_over_the_unit() {
    let mut p = Pallet::new(config(5));
    let id = p.mint_gold(4, Some(dna(1)), &entropy()).unwrap();
    p.set_price_gold(4, id, Some(20)).unwrap();
    let purchase = p.buy_gold(6, id, 25, 100).unwrap();
    assert_eq!(purchase.kind, UnitKind::Gold);
    assert_eq!(purchase.unit_id, id);
    assert_eq!(purchase.buyer, 6);
    assert_eq!(purchase.seller, 4);
    assert_eq!(purchase.price, 25);
    assert_eq!(p.complete_purchase(&purchase), Ok(Event::Bought(6, 4, id, 25)));
    let g = p.golds(&id).unwrap();
    assert_eq!(g.owner, 6);
    assert_eq!(g.price, None);
    assert_eq!(p.gold_owned(6), vec![id]);
    assert!(p.gold_owned(4).is_empty());
    assert_eq!(p.buy_gold(6, id, 25, 100).map(|x: Purchase| x.price), Err(Error::BuyerIsUnitOwner));
}

#[test]
fn purchases_of_silver_stock_and_sukuk() {
    let mut p = Pallet::new(config(5));
    let s = p.mint_silver(4, Some(dna(1)), &entropy()).unwrap();
    let t = p.mint_stock(4, Some(dna(1)), &entropy()).unwrap();
    let k = p.mint_sukuk(4, Some(dna(1)), &entropy()).unwrap();
    p.set_price_silver(4, s, Some(1)).unwrap();
    p.set_price_stock(4, t, Some(1)).unwrap();
    p.set_price_sukuk(4, k, Some(1)).unwrap();
    let ps = p.buy_silver(6, s, 1, 5).unwrap();
    assert_eq!(p.complete_purchase(&ps), Ok(Event::Bought(6, 4, s, 1)));
    let pt = p.buy_stock(6, t, 1, 5).unwrap();
    assert_eq!(p.complete_purchase(&pt), Ok(Event::Bought(6, 4, t, 1)));
    let pk = p.buy_sukuk(6, k, 1, 5).unwrap();
    assert_eq!(p.complete_purchase(&pk), Ok(Event::Bought(6, 4, k, 1)));
    assert_eq!(p.silver_owned(6), vec![s]);
    assert_eq!(p.stock_owned(6), vec![t]);
    assert_eq!(p.sukuk_owned(6), vec![k]);
}

#[test]
fn a_land_purchase_checks_the_land_list_and_completes() {
    let c = Config {
        max_gold_owned: 0,
        max_silver_owned: 1,
        max_land_owned: 1,
        max_stock_owned: 1,
        max_sukuk_owned: 1,
    };
    let mut p = Pallet::new(c);
    let l = p.mint_land(4, Some(dna(1)), &entropy()).unwrap();
    p.set_price_land(4, l, Some(1)).unwrap();
    p.mint_land(6, Some(dna(2)), &entropy()).unwrap();
    assert_eq!(p.buy_land(6, l, 1, 5), Err(Error::ExceedMaxUnitOwned));
    let purchase = p.buy_land(7, l, 1, 5).unwrap();
    assert_eq!(purchase.kind, UnitKind::Land);
    assert_eq!(p.complete_purchase(&purchase), Ok(Event::Bought(7, 4, l, 1)));
    assert_eq!(p.lands(&l).unwrap().owner, 7);
    assert_eq!(p.lands(&l).unwrap().price, None);
    assert_eq!(p.land_owned(7), vec![l]);
    assert!(p.land_owned(4).is_empty());
}

#[test]
fn is_owner_answers() {
    let mut p = Pallet::new(config(5));
    let id = p.mint_land(4, Some(dna(1)), &entropy()).unwrap();
    assert_eq!(p.is_land_owner(&id, 4), Ok(true));
    assert_eq!(p.is_land_owner(&id, 5), Ok(false));
    assert_eq!(p.is_gold_owner(&[0u8; 32], 4), Err(Error::UnitNotExist));
    assert_eq!(p.is_sukuk_owner(&id, 4), Err(Error::UnitNotExist));
}

#[test]
fn gold_and_land_of_the_same_dna_share_a_key_but_not_a_list() {
    let mut p = Pallet::new(config(5));
    let g = p.mint_gold(4, Some(dna(1)), &entropy()).unwrap();
    let l = p.mint_land(4, Some(dna(1)), &entropy()).unwrap();
    assert_eq!(g, l);
    assert_eq!(p.gold_owned(4), vec![g]);
    assert_eq!(p.land_owned(4), vec![l]);
    assert_eq!(p.count_for_gold(), 1);
    assert_eq!(p.count_for_land(), 1);
}

#[test]
fn counters_count_units() {
    let mut p = Pallet::new(config(3));
    let mut ids = Vec::new();
    for b in 0..3u8 {
        ids.push(p.mint_gold(4, Some(dna(b)), &entropy()).unwrap());
    }
    let _ = p.mint_gold(4, Some(dna(9)), &entropy());
    let _ = p.mint_gold(4, Some(dna(0)), &entropy());
    p.transfer_gold(4, 5, ids[0]).unwrap();
    p.set_price_gold(5, ids[0], Some(4)).unwrap();
    assert_eq!(p.count_for_gold(), 3);
    let held = p.gold_owned(4).len() + p.gold_owned(5).len();
    assert_eq!(held, 3);
}

#[test]
fn default_genesis_mints_nothing() {
    let mut p = Pallet::new(config(5));
    GenesisConfig::default().build(&mut p);
    assert_eq!(p.count_for_gold(), 0);
    assert_eq!(p.count_for_silver(), 0);
    assert_eq!(p.count_for_land(), 0);
    assert_eq!(p.count_for_stock(), 0);
    assert_eq!(p.count_for_sukuk(), 0);
}

#[test]
fn genesis_mints_each_entry_and_skips_refused_ones() {
    let mut p = Pallet::new(config(1));
    let g = GenesisConfig {
        golds: vec![(4, dna(1), 99), (4, dna(2), 99), (5, dna(1), 0)],
        silvers: vec![(4, dna(1), 1)],
        lands: vec![(6, dna(3), 1)],
        stocks: vec![(4, dna(1), 1), (4, dna(1), 1)],
        sukuks: vec![(4, dna(1), 7)],
    };
    g.build(&mut p);
    assert_eq!(p.count_for_gold(), 2);
    assert_eq!(p.gold_owned(4), vec![gold_id(dna(1), 4)]);
    assert_eq!(p.gold_owned(5), vec![gold_id(dna(1), 5)]);
    assert_eq!(p.count_for_silver(), 1);
    assert_eq!(p.count_for_land(), 1);
    assert_eq!(p.land_owned(6).len(), 1);
    assert!(p.gold_owned(6).is_empty());
    assert_eq!(p.count_for_stock(), 1);
    assert_eq!(p.count_for_sukuk(), 1);
    assert_eq!(p.sukuks(&sukuk_id(dna(1), 4)).unwrap().rate, 3);
    assert_eq!(p.golds(&gold_id(dna(1), 4)).unwrap().weight, 10);
}
