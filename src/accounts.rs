use vstd::prelude::*;
use crate::address::{check_canonical, check_derived, is_canonical, is_derived, seeds_view, Address};
use crate::seeds::{escrow_seeds, escrow_seeds_of, record_seeds, record_seeds_of, sold_seeds, sold_seeds_of};
use crate::state::{RecordAccount, StoreAccount};
use crate::trim::{trimmed, TrimAsciiWhitespace};

verus! {

/// The seeds of a store: its name without surrounding whitespace.
pub open spec fn store_seeds(name: Seq<u8>) -> Seq<Seq<u8>> {
    seq![trimmed(name)]
}

/// `key` is the address of `store` under `program`.
pub open spec fn store_at(store: StoreAccount, key: Address, program: Seq<u8>) -> bool {
    is_derived(store_seeds(store.store_name@), store.bumps, program, key@)
}

/// `key` is the escrow token account of the listing `record` under `program`.
pub open spec fn escrow_at(record: RecordAccount, key: Address, program: Seq<u8>) -> bool {
    is_derived(escrow_seeds(record.mint@), record.bumps.record_token_account, program, key@)
}

/// `key` is the address of the listing `record` under `program`.
pub open spec fn record_at(record: RecordAccount, key: Address, program: Seq<u8>) -> bool {
    is_derived(record_seeds(record.mint@), record.bumps.record_account, program, key@)
}

/// `key` is the address of the receipt of sale number `index` of `mint`.
pub open spec fn sold_at(mint: Address, index: u32, key: Address, program: Seq<u8>) -> bool {
    is_canonical(sold_seeds(mint@, index), program, key@)
}

/// The store's own seed: its name without surrounding whitespace.
pub fn store_seed(store: &StoreAccount) -> (r: Vec<u8>)
    ensures
        r@ == trimmed(store.store_name@),
{
    store.store_name.trim_ascii_whitespace()
}

/// Checks that `key` is the address of `store`.
pub fn check_store(store: &StoreAccount, key: &Address, program_id: &Address) -> (r: bool)
    ensures
        r == store_at(*store, *key, program_id@),
{
    let seeds: Vec<Vec<u8>> = vec![store_seed(store)];
    assert(seeds_view(seeds@) =~= store_seeds(store.store_name@));
    check_derived(seeds, store.bumps, program_id, key)
}

/// Checks that `key` is the escrow token account of `record`.
pub fn check_escrow(record: &RecordAccount, key: &Address, program_id: &Address) -> (r: bool)
    ensures
        r == escrow_at(*record, *key, program_id@),
{
    check_derived(escrow_seeds_of(&record.mint), record.bumps.record_token_account, program_id, key)
}

/// Checks that `key` is the address of `record`.
pub fn check_record(record: &RecordAccount, key: &Address, program_id: &Address) -> (r: bool)
    ensures
        r == record_at(*record, *key, program_id@),
{
    check_derived(record_seeds_of(&record.mint), record.bumps.record_account, program_id, key)
}

/// Checks that `key` is the address of the receipt of sale number `index`
/// of `mint`.
pub fn check_sold(mint: &Address, index: u32, key: &Address, program_id: &Address) -> (r: bool)
    ensures
        r == sold_at(*mint, index, *key, program_id@),
{
    check_canonical(sold_seeds_of(mint, index), program_id, key)
}

} // verus!
