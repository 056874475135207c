use vstd::prelude::*;
use crate::address::Address;
use crate::fee::{clamped_rate, fee_of, lemma_fee_fits, FEE_FLOOR};
use crate::market::{history_kept, listed, sale_step};
use crate::state::{RecordAccount, SoldRecord};

verus! {

/// The sum of the prices of `sales`.
pub open spec fn total_price(sales: Seq<SoldRecord>) -> int
    decreases sales.len(),
{
    if sales.len() == 0 {
        0
    } else {
        total_price(sales.drop_last()) + sales.last().price
    }
}

/// The fee of a listing is one amount whether it is charged when the asset
/// is listed, refunded when the listing is redeemed, or paid out when the
/// asset is sold: the fee of the price at the rate the listing stores, which
/// a `u64` holds exactly.
pub proof fn lemma_fee_same_across_transitions(record: RecordAccount, seller: Address, price: u64, rate: u16)
    requires
        1 <= rate,
    ensures
        ({
            let l = listed(record, seller, price, rate);
            &&& l.wf()
            &&& fee_of(l.price as int, l.rate as int) == fee_of(price as int, clamped_rate(rate as int))
            &&& FEE_FLOOR <= fee_of(l.price as int, l.rate as int) <= u64::MAX
        }),
{
    let l = listed(record, seller, price, rate);
    lemma_fee_fits(l.price, l.rate);
}

/// Over a record's life from creation, with sale `i` taking the record from
/// `befores[i]` to `afters[i]` and listings and redemptions in between, the
/// sale count equals the number of sales, sale `i` carries index `i`, and the
/// sold volume is the sum of the sale prices.
pub proof fn lemma_sales_history(befores: Seq<RecordAccount>, afters: Seq<RecordAccount>, sales: Seq<SoldRecord>)
    requires
        sales.len() > 0,
        befores.len() == sales.len(),
        afters.len() == sales.len(),
        befores[0].current_index == 0,
        befores[0].volume == 0,
        forall|i: int| 0 <= i < sales.len() ==> sale_step(#[trigger] befores[i], afters[i], sales[i]),
        forall|i: int| 0 <= i < sales.len() - 1 ==> history_kept(#[trigger] afters[i], befores[i + 1]),
    ensures
        afters.last().current_index == sales.len(),
        afters.last().volume == total_price(sales),
        forall|i: int| 0 <= i < sales.len() ==> #[trigger] sales[i].index == i,
{
    lemma_sales_prefix(befores, afters, sales, sales.len() - 1);
    assert(sales.subrange(0, sales.len() as int) =~= sales);
}

proof fn lemma_sales_prefix(befores: Seq<RecordAccount>, afters: Seq<RecordAccount>, sales: Seq<SoldRecord>, k: int)
    requires
        0 <= k < sales.len(),
        befores.len() == sales.len(),
        afters.len() == sales.len(),
        befores[0].current_index == 0,
        befores[0].volume == 0,
        forall|i: int| 0 <= i < sales.len() ==> sale_step(#[trigger] befores[i], afters[i], sales[i]),
        forall|i: int| 0 <= i < sales.len() - 1 ==> history_kept(#[trigger] afters[i], befores[i + 1]),
    ensures
        afters[k].current_index == k + 1,
        afters[k].volume == total_price(sales.subrange(0, k + 1)),
        forall|i: int| 0 <= i <= k ==> #[trigger] sales[i].index == i,
    decreases k,
{
    assert(sale_step(befores[k], afters[k], sales[k]));
    let prefix = sales.subrange(0, k + 1);
    assert(prefix.last() == sales[k]);
    if k == 0 {
        assert(prefix.drop_last() =~= Seq::<SoldRecord>::empty());
        assert(total_price(prefix) == total_price(prefix.drop_last()) + sales[k].price);
    } else {
        lemma_sales_prefix(befores, afters, sales, k - 1);
        assert(history_kept(afters[k - 1], befores[k]));
        assert(prefix.drop_last() =~= sales.subrange(0, k));
        assert(total_price(prefix) == total_price(prefix.drop_last()) + sales[k].price);
    }
}

/// A volume summed from the prices of fewer sales than the sale counter can
/// number leaves room for one more price: the volume of a record never
/// overflows before its sale counter does.
pub proof fn lemma_volume_has_room(record: RecordAccount, sales: Seq<SoldRecord>)
    requires
        record.volume == total_price(sales),
        sales.len() == record.current_index,
        record.current_index < u32::MAX,
    ensures
        record.volume + record.price <= u128::MAX,
{
    lemma_total_price_bound(sales);
    let n = sales.len() as int;
    assert((n + 1) * 0xffff_ffff_ffff_ffff <= 0xffff_ffff * 0xffff_ffff_ffff_ffff) by (nonlinear_arith)
        requires
            0 <= n < 0xffff_ffff,
    ;
}

/// The sum of `sales.len()` prices is at most that many times `u64::MAX`.
pub proof fn lemma_total_price_bound(sales: Seq<SoldRecord>)
    ensures
        0 <= total_price(sales) <= sales.len() * 0xffff_ffff_ffff_ffff,
    decreases sales.len(),
{
    if sales.len() > 0 {
        lemma_total_price_bound(sales.drop_last());
        let n = sales.len() as int;
        assert((n - 1) * 0xffff_ffff_ffff_ffff + 0xffff_ffff_ffff_ffff == n * 0xffff_ffff_ffff_ffff) by (nonlinear_arith);
    }
}

} // verus!
