//! The byte encodings that the pallet hashes: a unit's fields in the order of its kind,
//! and the chain state a fresh dna is drawn from. Integers are little-endian of fixed
//! width, an optional price is a tag byte followed by the price when there is one.
use vstd::prelude::*;
use crate::types::{Balance, BlockNumber, Dna, IdEntropy, UnitId, UnitKind, UnitRecord};
use crate::hashing::{blake2_128, blake2_128_digest, blake2_256, blake2_256_digest};

verus! {

/// The `n` low bytes of `x`, least significant first.
pub open spec fn le_bytes(x: nat, n: nat) -> Seq<u8>
    decreases n,
{
    if n == 0 {
        Seq::empty()
    } else {
        seq![(x % 256) as u8] + le_bytes(x / 256, (n - 1) as nat)
    }
}

/// An optional price: `0` when there is none, else `1` and the price in 16 bytes.
pub open spec fn price_encoding(price: Option<Balance>) -> Seq<u8> {
    match price {
        None => seq![0u8],
        Some(p) => seq![1u8] + le_bytes(p as nat, 16),
    }
}

/// A unit's encoding: its dna, its price, then its attribute and its owner (a sukuk
/// puts its owner before its rate).
pub open spec fn unit_encoding(kind: UnitKind, unit: UnitRecord) -> Seq<u8> {
    if kind == UnitKind::Sukuk {
        unit.id@ + price_encoding(unit.price) + le_bytes(unit.owner as nat, 8) + le_bytes(
            unit.attribute as nat,
            8,
        )
    } else {
        unit.id@ + price_encoding(unit.price) + le_bytes(unit.attribute as nat, 8) + le_bytes(
            unit.owner as nat,
            8,
        )
    }
}

/// The key of a unit: the BLAKE2-256 digest of its encoding.
pub open spec fn unit_id_of(kind: UnitKind, unit: UnitRecord) -> UnitId {
    blake2_256_digest(unit_encoding(kind, unit))
}

/// A block number in as many little-endian bytes as its type has.
pub open spec fn block_number_encoding(n: BlockNumber) -> Seq<u8> {
    match n {
        BlockNumber::U32(b) => le_bytes(b as nat, 4),
        BlockNumber::U64(b) => le_bytes(b as nat, 8),
        BlockNumber::U128(b) => le_bytes(b as nat, 16),
    }
}

/// The encoding of the chain state a dna is drawn from: the random seed, the extrinsic
/// index (zero when there is none) and the block number.
pub open spec fn entropy_encoding(entropy: IdEntropy) -> Seq<u8> {
    let index: u32 = match entropy.extrinsic_index {
        Some(i) => i,
        None => 0u32,
    };
    entropy.random_seed@ + le_bytes(index as nat, 4) + block_number_encoding(entropy.block_number)
}

/// The dna drawn from the chain state: the BLAKE2-128 digest of its encoding.
pub open spec fn dna_of(entropy: IdEntropy) -> Dna {
    blake2_128_digest(entropy_encoding(entropy))
}

/// Appends the `n` low bytes of `x`, least significant first.
fn push_le(out: &mut Vec<u8>, x: u128, n: usize)
    ensures
        final(out)@ == old(out)@ + le_bytes(x as nat, n as nat),
{
    let ghost start = out@;
    let mut cur: u128 = x;
    let mut i: usize = 0;
    while i < n
        invariant
            i <= n,
            out@ + le_bytes(cur as nat, (n - i) as nat) == start + le_bytes(x as nat, n as nat),
        decreases n - i,
    {
        let ghost before = out@;
        let ghost rest = le_bytes((cur / 256) as nat, (n - i - 1) as nat);
        assert(le_bytes(cur as nat, (n - i) as nat) == seq![(cur as nat % 256) as u8] + rest);
        out.push((cur % 256) as u8);
        assert(out@ + rest =~= before + le_bytes(cur as nat, (n - i) as nat));
        cur = cur / 256;
        i = i + 1;
    }
    assert(out@ =~= out@ + le_bytes(cur as nat, 0));
}

/// Appends the bytes of an array, in order.
fn push_array<const N: usize>(out: &mut Vec<u8>, bytes: &[u8; N])
    ensures
        final(out)@ == old(out)@ + bytes@,
{
    let ghost start = out@;
    let mut i: usize = 0;
    while i < N
        invariant
            i <= N,
            bytes@.len() == N,
            out@ == start + bytes@.take(i as int),
        decreases N - i,
    {
        out.push(bytes[i]);
        assert(bytes@.take(i + 1) =~= bytes@.take(i as int).push(bytes@[i as int]));
        i = i + 1;
    }
    assert(bytes@.take(N as int) =~= bytes@);
}

/// Appends the encoding of an optional price.
fn push_price(out: &mut Vec<u8>, price: Option<Balance>)
    ensures
        final(out)@ == old(out)@ + price_encoding(price),
{
    let ghost start = out@;
    match price {
        None => {
            out.push(0u8);
            assert(out@ =~= start + price_encoding(price));
        },
        Some(p) => {
            out.push(1u8);
            push_le(out, p, 16);
            assert(out@ =~= start + price_encoding(price));
        },
    }
}

/// The encoding of a unit of the given kind.
pub fn encode_unit(kind: UnitKind, unit: &UnitRecord) -> (bytes: Vec<u8>)
    ensures
        bytes@ == unit_encoding(kind, *unit),
{
    let mut out: Vec<u8> = Vec::new();
    push_array(&mut out, &unit.id);
    push_price(&mut out, unit.price);
    let ghost head = out@;
    if kind == UnitKind::Sukuk {
        push_le(&mut out, unit.owner as u128, 8);
        push_le(&mut out, unit.attribute as u128, 8);
    } else {
        push_le(&mut out, unit.attribute as u128, 8);
        push_le(&mut out, unit.owner as u128, 8);
    }
    assert(out@ =~= unit_encoding(kind, *unit));
    out
}

/// The key of a unit of the given kind.
pub fn unit_id(kind: UnitKind, unit: &UnitRecord) -> (id: UnitId)
    ensures
        id == unit_id_of(kind, *unit),
{
    let bytes = encode_unit(kind, unit);
    blake2_256(bytes.as_slice())
}

/// The encoding of the chain state a dna is drawn from.
pub fn encode_entropy(entropy: &IdEntropy) -> (bytes: Vec<u8>)
    ensures
        bytes@ == entropy_encoding(*entropy),
{
    let mut out: Vec<u8> = Vec::new();
    push_array(&mut out, &entropy.random_seed);
    let index: u32 = match entropy.extrinsic_index {
        Some(i) => i,
        None => 0u32,
    };
    push_le(&mut out, index as u128, 4);
    match entropy.block_number {
        BlockNumber::U32(b) => push_le(&mut out, b as u128, 4),
        BlockNumber::U64(b) => push_le(&mut out, b as u128, 8),
        BlockNumber::U128(b) => push_le(&mut out, b, 16),
    }
    assert(out@ =~= entropy_encoding(*entropy));
    out
}

/// A fresh dna drawn from the chain state.
pub fn gen_id(entropy: &IdEntropy) -> (dna: Dna)
    ensures
        dna == dna_of(*entropy),
{
    let bytes = encode_entropy(entropy);
    blake2_128(bytes.as_slice())
}

} // verus!
