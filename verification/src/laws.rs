//! What holds of the pallet across its calls: the consistency of its stores, indexes and
//! counters, which every call keeps, and what a call that passes its checks achieves.
use vstd::prelude::*;
use crate::types::{AccountId, Balance, Config, Dna, Error, Event, IdEntropy, Purchase, UnitId, UnitKind, UnitRecord};
use crate::model::{
    IndexModel, PalletModel, StoreModel, buy, complete_purchase, create, fresh_unit, is_owner,
    mint, mint_each, mint_parts, set_price, transfer, transfer_parts, transfer_to,
};
use crate::owned_index::{first_index, lemma_first_index, remove_first};
use crate::codec::unit_id_of;
use crate::pallet::empty_model;
use crate::genesis::{GenesisConfig, built};

verus! {

broadcast use {vstd::seq_lib::group_to_multiset_ensures, vstd::multiset::group_multiset_axioms};

/// How many times `a` holds the unit `id` of a store: once if it owns it, else never.
pub open spec fn held(s: StoreModel, a: AccountId, id: UnitId) -> nat {
    if s.units.contains_key(id) && s.units[id].owner == a {
        1
    } else {
        0
    }
}

/// The counter of a store is the number of its units, of which there are finitely many.
pub open spec fn counts_units(s: StoreModel) -> bool {
    &&& s.units.dom().finite()
    &&& s.count == s.units.dom().len()
}

/// No list of an index is longer than its bound.
pub open spec fn within_bound(i: IndexModel) -> bool {
    forall|a: AccountId| #[trigger] i.lists[a].len() <= i.bound
}

/// Each list of an index holds exactly the units of a store that the account owns, once each.
pub open spec fn tracks(i: IndexModel, s: StoreModel) -> bool {
    forall|a: AccountId, id: UnitId| #[trigger] i.lists[a].to_multiset().count(id) == held(s, a, id)
}

/// For one kind: its counter counts its units, no list of its index outgrows the bound, and
/// each list holds exactly the units of that kind that the account owns.
pub open spec fn kind_consistent(m: PalletModel, kind: UnitKind) -> bool {
    &&& counts_units(m.store(kind))
    &&& within_bound(m.index(kind))
    &&& tracks(m.index(kind), m.store(kind))
}

/// The consistency that every call keeps: every kind is consistent.
pub open spec fn consistent(m: PalletModel) -> bool {
    forall|kind: UnitKind| #[trigger] kind_consistent(m, kind)
}

proof fn lemma_push_count(s: Seq<UnitId>, x: UnitId, y: UnitId)
    ensures
        s.push(x).to_multiset().count(y) == s.to_multiset().count(y) + (if x == y {
            1nat
        } else {
            0nat
        }),
{
    assert(s.push(x).to_multiset() =~= s.to_multiset().insert(x));
}

proof fn lemma_remove_first_count(s: Seq<UnitId>, x: UnitId, y: UnitId)
    requires
        s.contains(x),
    ensures
        remove_first(s, x).to_multiset().count(y) + (if x == y {
            1nat
        } else {
            0nat
        }) == s.to_multiset().count(y),
{
    lemma_first_index(s, x);
    let i = first_index(s, x);
    let last = s.last();
    let t = s.update(i, last);
    let r = t.drop_last();
    assert(t.to_multiset() == s.to_multiset().insert(last).remove(s[i]));
    assert(t =~= r.push(last));
    assert(t.to_multiset() =~= r.to_multiset().insert(last));
    assert(s[i] == x);
    assert(remove_first(s, x) == r);
    assert(s.to_multiset().count(x) > 0);
    let ms = s.to_multiset();
    assert(ms.insert(last).count(y) == ms.count(y) + (if last == y { 1nat } else { 0nat }));
    assert(ms.insert(last).count(x) > 0);
    assert(t.to_multiset().count(y) == ms.insert(last).count(y) - (if x == y { 1int } else { 0int }));
    assert(t.to_multiset().count(y) == r.to_multiset().count(y) + (if last == y { 1nat } else { 0nat }));
}

/// A mint into a store and an index keeps the counter of the store counting its units, the
/// lists of the index within their bound, and the index tracking the store.
proof fn lemma_mint_parts_keeps(
    store: StoreModel,
    index: IndexModel,
    kind: UnitKind,
    owner: AccountId,
    dna: Dna,
)
    requires
        counts_units(store),
        within_bound(index),
        tracks(index, store),
    ensures
        counts_units(mint_parts(store, index, kind, owner, dna).0),
        within_bound(mint_parts(store, index, kind, owner, dna).1),
        tracks(mint_parts(store, index, kind, owner, dna).1, mint_parts(store, index, kind, owner, dna).0),
{
    let (s2, i2, r) = mint_parts(store, index, kind, owner, dna);
    if r is Ok {
        let unit = fresh_unit(kind, dna, owner);
        let id = unit_id_of(kind, unit);
        assert(!store.units.contains_key(id));
        assert(s2.units.dom() =~= store.units.dom().insert(id));
        assert forall|a: AccountId| #[trigger] i2.lists[a].len() <= i2.bound by {
            assert(index.lists[a].len() <= index.bound);
        }
        assert forall|a: AccountId, y: UnitId| #[trigger] i2.lists[a].to_multiset().count(y) == held(
            s2,
            a,
            y,
        ) by {
            assert(index.lists[a].to_multiset().count(y) == held(store, a, y));
            if a == owner {
                lemma_push_count(index.lists[a], id, y);
            }
        }
    }
}

/// A move within a store and an index keeps the same properties as a mint.
proof fn lemma_transfer_parts_keeps(store: StoreModel, index: IndexModel, id: UnitId, to: AccountId)
    requires
        counts_units(store),
        within_bound(index),
        tracks(index, store),
    ensures
        counts_units(transfer_parts(store, index, id, to).0),
        within_bound(transfer_parts(store, index, id, to).1),
        tracks(transfer_parts(store, index, id, to).1, transfer_parts(store, index, id, to).0),
{
    let (s2, i2, r) = transfer_parts(store, index, id, to);
    if r is Ok {
        let unit = store.units[id];
        let prev = unit.owner;
        let list = index.lists[prev];
        let lists1 = index.lists.insert(prev, remove_first(list, id));
        crate::owned_index::lemma_remove_first_len(list, id);
        assert(s2.units.dom() =~= store.units.dom());
        assert forall|a: AccountId| #[trigger] i2.lists[a].len() <= i2.bound by {
            assert(index.lists[a].len() <= index.bound);
        }
        assert forall|a: AccountId, y: UnitId| #[trigger] i2.lists[a].to_multiset().count(y) == held(
            s2,
            a,
            y,
        ) by {
            assert(index.lists[a].to_multiset().count(y) == held(store, a, y));
            lemma_remove_first_count(list, id, y);
            lemma_push_count(lists1[to], id, y);
            if a == prev {
                assert(lists1[a] == remove_first(list, id));
            }
        }
    }
}

/// A pallet that holds nothing yet is consistent.
pub proof fn law_empty_is_consistent(config: Config)
    ensures
        consistent(empty_model(config)),
{
    let m = empty_model(config);
    assert forall|kind: UnitKind| #[trigger] kind_consistent(m, kind) by {
        assert(m.store(kind).units.dom() =~= Set::<UnitId>::empty());
        assert forall|a: AccountId, y: UnitId| #[trigger] m.index(kind).lists[a].to_multiset().count(y)
            == held(m.store(kind), a, y) by {
            assert(m.index(kind).lists[a] =~= Seq::<UnitId>::empty());
            assert(Seq::<UnitId>::empty().to_multiset().len() == 0);
        }
    }
}

/// Replacing the store and index of one kind by consistent ones keeps the pallet consistent.
proof fn lemma_replace_kind(m: PalletModel, kind: UnitKind, store: StoreModel, index: IndexModel)
    requires
        consistent(m),
        counts_units(store),
        within_bound(index),
        tracks(index, store),
    ensures
        consistent(m.with_store(kind, store).with_index(kind, index)),
{
    let post = m.with_store(kind, store).with_index(kind, index);
    assert forall|k: UnitKind| #[trigger] kind_consistent(post, k) by {
        if k == kind {
            assert(post.store(k) == store);
            assert(post.index(k) == index);
        } else {
            assert(kind_consistent(m, k));
            assert(post.store(k) == m.store(k));
            assert(post.index(k) == m.index(k));
        }
    }
}

/// Every mint keeps the pallet consistent.
pub proof fn law_mint_keeps_consistency(m: PalletModel, kind: UnitKind, owner: AccountId, dna: Dna)
    requires
        consistent(m),
    ensures
        consistent(mint(m, kind, owner, dna).0),
{
    assert(kind_consistent(m, kind));
    lemma_mint_parts_keeps(m.store(kind), m.index(kind), kind, owner, dna);
    let (s2, i2, r) = mint_parts(m.store(kind), m.index(kind), kind, owner, dna);
    if r is Ok {
        lemma_replace_kind(m, kind, s2, i2);
    }
}

/// Every creation keeps the pallet consistent.
pub proof fn law_create_keeps_consistency(m: PalletModel, kind: UnitKind, sender: AccountId, entropy: IdEntropy)
    requires
        consistent(m),
    ensures
        consistent(create(m, kind, sender, entropy).0),
{
    law_mint_keeps_consistency(m, kind, sender, crate::codec::dna_of(entropy));
}

/// Every change of price keeps the pallet consistent.
pub proof fn law_set_price_keeps_consistency(
    m: PalletModel,
    kind: UnitKind,
    sender: AccountId,
    id: UnitId,
    new_price: Option<Balance>,
)
    requires
        consistent(m),
    ensures
        consistent(set_price(m, kind, sender, id, new_price).0),
{
    let (post, r) = set_price(m, kind, sender, id, new_price);
    if r is Ok {
        assert(kind_consistent(m, kind));
        let s = m.store(kind);
        let t = post.store(kind);
        assert(t.units.dom() =~= s.units.dom());
        assert forall|a: AccountId, y: UnitId| #[trigger] m.index(kind).lists[a].to_multiset().count(y)
            == held(t, a, y) by {
            assert(m.index(kind).lists[a].to_multiset().count(y) == held(s, a, y));
        }
        lemma_replace_kind(m, kind, t, m.index(kind));
        assert(post == m.with_store(kind, t).with_index(kind, m.index(kind)));
    }
}

/// Every move of a unit keeps the pallet consistent.
pub proof fn law_transfer_to_keeps_consistency(m: PalletModel, kind: UnitKind, id: UnitId, to: AccountId)
    requires
        consistent(m),
    ensures
        consistent(transfer_to(m, kind, id, to).0),
{
    assert(kind_consistent(m, kind));
    lemma_transfer_parts_keeps(m.store(kind), m.index(kind), id, to);
    let (s2, i2, r) = transfer_parts(m.store(kind), m.index(kind), id, to);
    if r is Ok {
        lemma_replace_kind(m, kind, s2, i2);
    }
}

/// Every transfer keeps the pallet consistent.
pub proof fn law_transfer_keeps_consistency(
    m: PalletModel,
    kind: UnitKind,
    from: AccountId,
    to: AccountId,
    id: UnitId,
)
    requires
        consistent(m),
    ensures
        consistent(transfer(m, kind, from, to, id).0),
{
    law_transfer_to_keeps_consistency(m, kind, id, to);
}

/// Every completed purchase keeps the pallet consistent.
pub proof fn law_complete_purchase_keeps_consistency(m: PalletModel, purchase: Purchase)
    requires
        consistent(m),
    ensures
        consistent(complete_purchase(m, purchase).0),
{
    law_transfer_to_keeps_consistency(m, purchase.kind, purchase.unit_id, purchase.buyer);
}

/// Minting a list of entries, whatever each mint answers, keeps the pallet consistent.
pub proof fn law_mint_each_keeps_consistency(
    m: PalletModel,
    kind: UnitKind,
    entries: Seq<(AccountId, Dna, u64)>,
)
    requires
        consistent(m),
    ensures
        consistent(mint_each(m, kind, entries)),
    decreases entries.len(),
{
    if entries.len() > 0 {
        law_mint_each_keeps_consistency(m, kind, entries.drop_last());
        let before = mint_each(m, kind, entries.drop_last());
        law_mint_keeps_consistency(before, kind, entries.last().0, entries.last().1);
    }
}

/// In a consistent pallet, the owner of a unit holds its key in its list of that kind.
proof fn lemma_owner_lists_unit(m: PalletModel, kind: UnitKind, id: UnitId)
    requires
        consistent(m),
        m.store(kind).units.contains_key(id),
    ensures
        m.index(kind).lists[m.store(kind).units[id].owner].contains(id),
{
    assert(kind_consistent(m, kind));
    let a = m.store(kind).units[id].owner;
    let l = m.index(kind).lists[a];
    assert(l.to_multiset().count(id) == held(m.store(kind), a, id));
}

/// In a consistent pallet, moving an existing unit to an account other than its owner that
/// has room succeeds: the unit gets the new owner and loses its price.
proof fn lemma_move_succeeds(m: PalletModel, kind: UnitKind, id: UnitId, to: AccountId)
    requires
        consistent(m),
        m.store(kind).units.contains_key(id),
        m.store(kind).units[id].owner != to,
        m.index(kind).lists[to].len() < m.index(kind).bound,
    ensures
        transfer_to(m, kind, id, to).1 == Ok::<(), Error>(()),
        transfer_to(m, kind, id, to).0.store(kind).units == m.store(kind).units.insert(
            id,
            UnitRecord { owner: to, price: None, ..m.store(kind).units[id] },
        ),
{
    lemma_owner_lists_unit(m, kind, id);
    let prev = m.store(kind).units[id].owner;
    let lists = m.index(kind).lists.insert(prev, remove_first(m.index(kind).lists[prev], id));
    assert(lists[to] == m.index(kind).lists[to]);
}

/// A holder of a unit of any kind can send it to any other account that has room for it:
/// the transfer succeeds, the unit gets its new owner and is no longer for sale, and no
/// unit appears or disappears.
pub proof fn law_transfer_succeeds(m: PalletModel, kind: UnitKind, from: AccountId, to: AccountId, id: UnitId)
    requires
        consistent(m),
        m.store(kind).units.contains_key(id),
        m.store(kind).units[id].owner == from,
        from != to,
        m.index(kind).lists[to].len() < m.index(kind).bound,
    ensures
        transfer(m, kind, from, to, id).1 == Ok::<Event, Error>(Event::Transferred(from, to, id)),
        transfer(m, kind, from, to, id).0.store(kind).units == m.store(kind).units.insert(
            id,
            UnitRecord { owner: to, price: None, ..m.store(kind).units[id] },
        ),
{
    lemma_move_succeeds(m, kind, id, to);
}

/// A purchase of a unit of any kind that passed its checks, once paid, completes: the buyer
/// owns the unit, which is no longer for sale, and the bid met the asking price, was covered
/// by the buyer's free balance and went to the former owner.
pub proof fn law_purchase_succeeds(
    m: PalletModel,
    kind: UnitKind,
    buyer: AccountId,
    id: UnitId,
    bid_price: Balance,
    free_balance: Balance,
)
    requires
        consistent(m),
        buy(m, kind, buyer, id, bid_price, free_balance) is Ok,
    ensures
        ({
            let p = buy(m, kind, buyer, id, bid_price, free_balance)->Ok_0;
            let unit = m.store(kind).units[id];
            &&& m.store(kind).units.contains_key(id)
            &&& unit.price matches Some(ask) && ask <= bid_price
            &&& bid_price <= free_balance
            &&& p == Purchase { kind, unit_id: id, buyer, seller: unit.owner, price: bid_price }
            &&& complete_purchase(m, p).1 == Ok::<Event, Error>(
                Event::Bought(buyer, unit.owner, id, bid_price),
            )
            &&& complete_purchase(m, p).0.store(kind).units == m.store(kind).units.insert(
                id,
                UnitRecord { owner: buyer, price: None, ..unit },
            )
        }),
{
    lemma_move_succeeds(m, kind, id, buyer);
}

/// A successful mint stores a fresh unit under the digest of its encoding, owned by the
/// minter and not for sale, lists it under the minter, and raises the counter by one;
/// minting the same dna for the same owner again is refused.
pub proof fn law_mint_stores_fresh_unit(m: PalletModel, kind: UnitKind, owner: AccountId, dna: Dna)
    requires
        mint(m, kind, owner, dna).1 is Ok,
    ensures
        ({
            let (post, r) = mint(m, kind, owner, dna);
            let id = r->Ok_0;
            &&& id == unit_id_of(kind, fresh_unit(kind, dna, owner))
            &&& !m.store(kind).units.contains_key(id)
            &&& post.store(kind).units == m.store(kind).units.insert(id, fresh_unit(kind, dna, owner))
            &&& post.store(kind).count == m.store(kind).count + 1
            &&& post.index(kind).lists[owner] == m.index(kind).lists[owner].push(id)
            &&& is_owner(post, kind, id, owner) == Ok::<bool, Error>(true)
            &&& mint(post, kind, owner, dna).1 is Err
            &&& post.store(kind).count < u64::MAX ==> mint(post, kind, owner, dna).1
                == Err::<UnitId, Error>(Error::UnitExists)
        }),
{
}

/// A successful change of price is read back: the unit has the new price and the same owner.
pub proof fn law_set_price_is_read_back(
    m: PalletModel,
    kind: UnitKind,
    sender: AccountId,
    id: UnitId,
    new_price: Option<Balance>,
)
    requires
        set_price(m, kind, sender, id, new_price).1 is Ok,
    ensures
        ({
            let post = set_price(m, kind, sender, id, new_price).0;
            &&& post.store(kind).units.contains_key(id)
            &&& post.store(kind).units[id].price == new_price
            &&& is_owner(post, kind, id, sender) == Ok::<bool, Error>(true)
            &&& post.store(kind).units[id] == UnitRecord { price: new_price, ..m.store(kind).units[id] }
        }),
{
}

/// A refused call changes nothing.
pub proof fn law_refusals_change_nothing(
    m: PalletModel,
    kind: UnitKind,
    a: AccountId,
    b: AccountId,
    id: UnitId,
    dna: Dna,
    entropy: IdEntropy,
    price: Option<Balance>,
    purchase: Purchase,
)
    ensures
        mint(m, kind, a, dna).1 is Err ==> mint(m, kind, a, dna).0 == m,
        create(m, kind, a, entropy).1 is Err ==> create(m, kind, a, entropy).0 == m,
        set_price(m, kind, a, id, price).1 is Err ==> set_price(m, kind, a, id, price).0 == m,
        transfer_to(m, kind, id, b).1 is Err ==> transfer_to(m, kind, id, b).0 == m,
        transfer(m, kind, a, b, id).1 is Err ==> transfer(m, kind, a, b, id).0 == m,
        complete_purchase(m, purchase).1 is Err ==> complete_purchase(m, purchase).0 == m,
{
}

/// Building a genesis keeps the pallet consistent; in particular a genesis built on a pallet
/// that holds nothing yet is consistent.
pub proof fn law_genesis_keeps_consistency(m: PalletModel, config: GenesisConfig)
    requires
        consistent(m),
    ensures
        consistent(built(m, config)),
{
    let m1 = mint_each(m, UnitKind::Gold, config.golds@);
    law_mint_each_keeps_consistency(m, UnitKind::Gold, config.golds@);
    let m2 = mint_each(m1, UnitKind::Silver, config.silvers@);
    law_mint_each_keeps_consistency(m1, UnitKind::Silver, config.silvers@);
    let m3 = mint_each(m2, UnitKind::Land, config.lands@);
    law_mint_each_keeps_consistency(m2, UnitKind::Land, config.lands@);
    let m4 = mint_each(m3, UnitKind::Stock, config.stocks@);
    law_mint_each_keeps_consistency(m3, UnitKind::Stock, config.stocks@);
    law_mint_each_keeps_consistency(m4, UnitKind::Sukuk, config.sukuks@);
}

/// A purchase passes exactly when its checks do: whenever the unit exists, the buyer does not
/// own it, it is for sale at an asking price no higher than the bid, the buyer's free balance
/// covers the bid and the buyer's list of that kind has room, the purchase is accepted, with
/// the bid to be paid to the owner. Nothing else the buyer holds matters.
pub proof fn law_buy_complete(
    m: PalletModel,
    kind: UnitKind,
    buyer: AccountId,
    id: UnitId,
    bid_price: Balance,
    free_balance: Balance,
)
    requires
        m.store(kind).units.contains_key(id),
        m.store(kind).units[id].owner != buyer,
        m.store(kind).units[id].price matches Some(ask) && ask <= bid_price,
        bid_price <= free_balance,
        m.index(kind).lists[buyer].len() < m.index(kind).bound,
    ensures
        buy(m, kind, buyer, id, bid_price, free_balance) == Ok::<Purchase, Error>(
            Purchase {
                kind,
                unit_id: id,
                buyer,
                seller: m.store(kind).units[id].owner,
                price: bid_price,
            },
        ),
{
}

/// Only the owner may transfer a unit: a transfer of an existing unit by any other account is
/// refused with `NotUnitOwner` and changes nothing, whatever the unit's price; one of a unit
/// that does not exist is refused with `UnitNotExist`.
pub proof fn law_transfer_by_non_owner_refused(
    m: PalletModel,
    kind: UnitKind,
    from: AccountId,
    to: AccountId,
    id: UnitId,
)
    ensures
        m.store(kind).units.contains_key(id) && m.store(kind).units[id].owner != from ==> transfer(
            m,
            kind,
            from,
            to,
            id,
        ) == (m, Err::<Event, Error>(Error::NotUnitOwner)),
        !m.store(kind).units.contains_key(id) ==> transfer(m, kind, from, to, id) == (
            m,
            Err::<Event, Error>(Error::UnitNotExist),
        ),
{
}

/// A creation reports the key of the unit it stored: the key is new, the unit stored under it
/// is the fresh unit of the kind, owned by the sender, from the dna drawn from the chain
/// state, and it is the key a mint of that dna returns.
pub proof fn law_create_reports_stored_key(
    m: PalletModel,
    kind: UnitKind,
    sender: AccountId,
    entropy: IdEntropy,
    id: UnitId,
)
    requires
        create(m, kind, sender, entropy).1 == Ok::<Event, Error>(Event::Created(sender, id)),
    ensures
        !m.store(kind).units.contains_key(id),
        create(m, kind, sender, entropy).0.store(kind).units.contains_key(id),
        create(m, kind, sender, entropy).0.store(kind).units[id] == fresh_unit(
            kind,
            crate::codec::dna_of(entropy),
            sender,
        ),
        create(m, kind, sender, entropy).0.index(kind).lists[sender] == m.index(kind).lists[sender].push(id),
        id == unit_id_of(kind, fresh_unit(kind, crate::codec::dna_of(entropy), sender)),
        mint(m, kind, sender, crate::codec::dna_of(entropy)).1 == Ok::<UnitId, Error>(id),
{
}

/// Ownership is the owner field of the unit and nothing else: for an existing unit the answer
/// is whether the account is its owner; for a missing one it is `UnitNotExist`.
pub proof fn law_is_owner_exact(m: PalletModel, kind: UnitKind, id: UnitId, acct: AccountId)
    ensures
        m.store(kind).units.contains_key(id) ==> is_owner(m, kind, id, acct) == Ok::<bool, Error>(
            m.store(kind).units[id].owner == acct,
        ),
        !m.store(kind).units.contains_key(id) ==> is_owner(m, kind, id, acct) == Err::<bool, Error>(
            Error::UnitNotExist,
        ),
{
}

/// Only the owner may set a unit's price: any other account is refused with `NotUnitOwner`
/// and nothing changes.
pub proof fn law_set_price_by_non_owner_refused(
    m: PalletModel,
    kind: UnitKind,
    sender: AccountId,
    id: UnitId,
    new_price: Option<Balance>,
)
    requires
        m.store(kind).units.contains_key(id),
        m.store(kind).units[id].owner != sender,
    ensures
        set_price(m, kind, sender, id, new_price) == (m, Err::<Event, Error>(Error::NotUnitOwner)),
{
}

/// The owner can always set the price of its unit, to any value and whatever the current
/// price: the call succeeds, the unit gets the new price and keeps everything else, and the
/// lists and counters are untouched.
pub proof fn law_set_price_complete(
    m: PalletModel,
    kind: UnitKind,
    sender: AccountId,
    id: UnitId,
    new_price: Option<Balance>,
)
    requires
        m.store(kind).units.contains_key(id),
        m.store(kind).units[id].owner == sender,
    ensures
        set_price(m, kind, sender, id, new_price).1 == Ok::<Event, Error>(
            Event::PriceSet(sender, id, new_price),
        ),
        set_price(m, kind, sender, id, new_price).0.store(kind).units == m.store(kind).units.insert(
            id,
            UnitRecord { price: new_price, ..m.store(kind).units[id] },
        ),
        set_price(m, kind, sender, id, new_price).0.store(kind).count == m.store(kind).count,
        set_price(m, kind, sender, id, new_price).0.index(kind) == m.index(kind),
{
}

/// A purchase is accepted only when all its checks pass, and the payment it asks for is the
/// bid, from the buyer to the unit's owner.
pub proof fn law_buy_sound(
    m: PalletModel,
    kind: UnitKind,
    buyer: AccountId,
    id: UnitId,
    bid_price: Balance,
    free_balance: Balance,
)
    requires
        buy(m, kind, buyer, id, bid_price, free_balance) is Ok,
    ensures
        m.store(kind).units.contains_key(id),
        m.store(kind).units[id].owner != buyer,
        m.store(kind).units[id].price matches Some(ask) && ask <= bid_price,
        bid_price <= free_balance,
        m.index(kind).lists[buyer].len() < m.index(kind).bound,
        buy(m, kind, buyer, id, bid_price, free_balance)->Ok_0 == (Purchase {
            kind,
            unit_id: id,
            buyer,
            seller: m.store(kind).units[id].owner,
            price: bid_price,
        }),
{
}

/// A transfer is accepted only when the sender owns the unit, sends it to another account and
/// that account has room; the unit then belongs to the receiver and is not for sale.
pub proof fn law_transfer_sound(m: PalletModel, kind: UnitKind, from: AccountId, to: AccountId, id: UnitId)
    requires
        transfer(m, kind, from, to, id).1 is Ok,
    ensures
        m.store(kind).units.contains_key(id),
        m.store(kind).units[id].owner == from,
        from != to,
        m.index(kind).lists[to].len() < m.index(kind).bound,
        transfer(m, kind, from, to, id).1 == Ok::<Event, Error>(Event::Transferred(from, to, id)),
        transfer(m, kind, from, to, id).0.store(kind).units == m.store(kind).units.insert(
            id,
            UnitRecord { owner: to, price: None, ..m.store(kind).units[id] },
        ),
        transfer(m, kind, from, to, id).0.store(kind).count == m.store(kind).count,
{
}

/// A mint passes exactly when its checks do: whenever the counter can grow, the key of the
/// fresh unit is new and the owner's list has room, the mint succeeds with that key.
pub proof fn law_mint_complete(m: PalletModel, kind: UnitKind, owner: AccountId, dna: Dna)
    requires
        m.store(kind).count < u64::MAX,
        !m.store(kind).units.contains_key(unit_id_of(kind, fresh_unit(kind, dna, owner))),
        m.index(kind).lists[owner].len() < m.index(kind).bound,
    ensures
        mint(m, kind, owner, dna).1 == Ok::<UnitId, Error>(
            unit_id_of(kind, fresh_unit(kind, dna, owner)),
        ),
{
}

/// A mint succeeds only when the counter can grow, the key is new and the owner's list has
/// room; every other kind's store and list is left as it was.
pub proof fn law_mint_sound(m: PalletModel, kind: UnitKind, other: UnitKind, owner: AccountId, dna: Dna)
    requires
        mint(m, kind, owner, dna).1 is Ok,
        other != kind,
    ensures
        m.store(kind).count < u64::MAX,
        !m.store(kind).units.contains_key(unit_id_of(kind, fresh_unit(kind, dna, owner))),
        m.index(kind).lists[owner].len() < m.index(kind).bound,
        mint(m, kind, owner, dna).0.store(other) == m.store(other),
        mint(m, kind, owner, dna).0.index(other) == m.index(other),
{
}

/// In a consistent pallet, moving an existing unit to an account that has room, or to its own
/// owner, succeeds: the unit gets the new owner and no price.
pub proof fn law_transfer_to_moves(m: PalletModel, kind: UnitKind, id: UnitId, to: AccountId)
    requires
        consistent(m),
        m.store(kind).units.contains_key(id),
        m.store(kind).units[id].owner == to || m.index(kind).lists[to].len() < m.index(kind).bound,
    ensures
        transfer_to(m, kind, id, to).1 == Ok::<(), Error>(()),
        transfer_to(m, kind, id, to).0.store(kind).units == m.store(kind).units.insert(
            id,
            UnitRecord { owner: to, price: None, ..m.store(kind).units[id] },
        ),
{
    lemma_owner_lists_unit(m, kind, id);
    assert(kind_consistent(m, kind));
    let prev = m.store(kind).units[id].owner;
    let list = m.index(kind).lists[prev];
    crate::owned_index::lemma_remove_first_len(list, id);
    assert(list.len() <= m.index(kind).bound);
    let lists = m.index(kind).lists.insert(prev, remove_first(list, id));
    if to != prev {
        assert(lists[to] == m.index(kind).lists[to]);
    }
}

} // verus!
