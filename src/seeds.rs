use vstd::prelude::*;
use crate::address::Address;

verus! {

/// Seed that tags the escrow token account of a listed asset: `nft_account`.
pub open spec fn token_seed() -> Seq<u8> {
    seq![110u8, 102u8, 116u8, 95u8, 97u8, 99u8, 99u8, 111u8, 117u8, 110u8, 116u8]
}

/// Seed that tags the listing record of an asset: `nft_record_account`.
pub open spec fn record_seed() -> Seq<u8> {
    seq![
        110u8, 102u8, 116u8, 95u8, 114u8, 101u8, 99u8, 111u8, 114u8, 100u8,
        95u8, 97u8, 99u8, 99u8, 111u8, 117u8, 110u8, 116u8,
    ]
}

/// Seed that tags the receipt of one sale: `sold_record`.
pub open spec fn sold_seed() -> Seq<u8> {
    seq![115u8, 111u8, 108u8, 100u8, 95u8, 114u8, 101u8, 99u8, 111u8, 114u8, 100u8]
}

/// The four little-endian bytes of `x`.
pub open spec fn le_bytes(x: u32) -> Seq<u8> {
    seq![
        (x % 256) as u8,
        ((x / 256) % 256) as u8,
        ((x / 65536) % 256) as u8,
        (x / 16777216) as u8,
    ]
}

/// The seeds of the escrow token account of `mint`.
pub open spec fn escrow_seeds(mint: Seq<u8>) -> Seq<Seq<u8>> {
    seq![mint, token_seed()]
}

/// The seeds of the listing record of `mint`.
pub open spec fn record_seeds(mint: Seq<u8>) -> Seq<Seq<u8>> {
    seq![mint, record_seed()]
}

/// The seeds of the receipt of sale number `index` of `mint`.
pub open spec fn sold_seeds(mint: Seq<u8>, index: u32) -> Seq<Seq<u8>> {
    seq![mint, sold_seed(), le_bytes(index)]
}

/// Builds the escrow seed tag.
pub fn token_seed_bytes() -> (r: Vec<u8>)
    ensures
        r@ == token_seed(),
{
    let r: Vec<u8> = vec![110u8, 102u8, 116u8, 95u8, 97u8, 99u8, 99u8, 111u8, 117u8, 110u8, 116u8];
    assert(r@ =~= token_seed());
    r
}

/// Builds the record seed tag.
pub fn record_seed_bytes() -> (r: Vec<u8>)
    ensures
        r@ == record_seed(),
{
    let r: Vec<u8> = vec![
        110u8, 102u8, 116u8, 95u8, 114u8, 101u8, 99u8, 111u8, 114u8, 100u8,
        95u8, 97u8, 99u8, 99u8, 111u8, 117u8, 110u8, 116u8,
    ];
    assert(r@ =~= record_seed());
    r
}

/// Builds the sale receipt seed tag.
pub fn sold_seed_bytes() -> (r: Vec<u8>)
    ensures
        r@ == sold_seed(),
{
    let r: Vec<u8> = vec![115u8, 111u8, 108u8, 100u8, 95u8, 114u8, 101u8, 99u8, 111u8, 114u8, 100u8];
    assert(r@ =~= sold_seed());
    r
}

/// The little-endian bytes of `x`.
pub fn le_bytes_of(x: u32) -> (r: Vec<u8>)
    ensures
        r@ == le_bytes(x),
{
    let r: Vec<u8> = vec![
        (x % 256) as u8,
        ((x / 256) % 256) as u8,
        ((x / 65536) % 256) as u8,
        (x / 16777216) as u8,
    ];
    assert(r@ =~= le_bytes(x));
    r
}

/// Builds the seeds of the escrow token account of `mint`.
pub fn escrow_seeds_of(mint: &Address) -> (r: Vec<Vec<u8>>)
    ensures
        crate::address::seeds_view(r@) == escrow_seeds(mint@),
{
    let r: Vec<Vec<u8>> = vec![mint.to_seed(), token_seed_bytes()];
    assert(crate::address::seeds_view(r@) =~= escrow_seeds(mint@));
    r
}

/// Builds the seeds of the listing record of `mint`.
pub fn record_seeds_of(mint: &Address) -> (r: Vec<Vec<u8>>)
    ensures
        crate::address::seeds_view(r@) == record_seeds(mint@),
{
    let r: Vec<Vec<u8>> = vec![mint.to_seed(), record_seed_bytes()];
    assert(crate::address::seeds_view(r@) =~= record_seeds(mint@));
    r
}

/// Builds the seeds of the receipt of sale number `index` of `mint`.
pub fn sold_seeds_of(mint: &Address, index: u32) -> (r: Vec<Vec<u8>>)
    ensures
        crate::address::seeds_view(r@) == sold_seeds(mint@, index),
{
    let r: Vec<Vec<u8>> = vec![mint.to_seed(), sold_seed_bytes(), le_bytes_of(index)];
    assert(crate::address::seeds_view(r@) =~= sold_seeds(mint@, index));
    r
}

} // verus!
