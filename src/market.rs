use vstd::prelude::*;
use crate::accounts::{check_escrow, check_record, check_sold, check_store, escrow_at, record_at, sold_at, store_at, store_seed};
use crate::address::Address;
use crate::fee::{clamp_rate, clamped_rate, fee_of, listing_fee};
use crate::state::{
    ErrorCode, LaunchEvent, RecordAccount, RedeemEvent, SoldEvent, SoldRecord, StoreAccount,
    StoreSigner, TokenAccountInfo, TokenTransfer, ValueTransfer,
};
use crate::trim::trimmed;

verus! {

/// Accounts of `sell_nft`: the seller, the seller's token account of the
/// asset, the escrow token account, the listing record and the store.
#[derive(Clone, Copy, Debug)]
pub struct SellNft {
    pub authority: Address,
    pub authority_token_account: TokenAccountInfo,
    pub record_token_account: Address,
    pub record_key: Address,
    pub record_account: RecordAccount,
    pub store_key: Address,
    pub store_account: StoreAccount,
}

impl SellNft {
    /// The move of the seller's unit into escrow, signed by the seller.
    pub fn into_token_transfer_ctx(&self) -> (r: TokenTransfer)
        ensures
            r.from == self.authority_token_account.key,
            r.to == self.record_token_account,
            r.authority == self.authority,
            r.signer is None,
            r.amount == 1,
    {
        TokenTransfer {
            from: self.authority_token_account.key,
            to: self.record_token_account,
            authority: self.authority,
            signer: None,
            amount: 1,
        }
    }
}

/// Accounts of `redeem_nft`, as for `sell_nft`.
#[derive(Clone, Copy, Debug)]
pub struct RedeemNft {
    pub authority: Address,
    pub authority_token_account: TokenAccountInfo,
    pub record_token_account: Address,
    pub record_key: Address,
    pub record_account: RecordAccount,
    pub store_key: Address,
    pub store_account: StoreAccount,
}

/// Accounts of `buy_nft`: the buyer, who the price goes to (`receiver`) and
/// who the fee goes to (`holder`), the address of the new sale receipt, and
/// the accounts of `sell_nft` with the buyer's token account.
#[derive(Clone, Copy, Debug)]
pub struct BuyNft {
    pub authority: Address,
    pub receiver: Address,
    pub holder: Address,
    pub sold_record: Address,
    pub authority_token_account: TokenAccountInfo,
    pub record_token_account: Address,
    pub record_key: Address,
    pub record_account: RecordAccount,
    pub store_key: Address,
    pub store_account: StoreAccount,
}

/// What a listing asks of the host: the asset into escrow, the fee from the
/// seller to the record, and the event.
#[derive(Clone, Debug)]
pub struct SellOutcome {
    pub token: TokenTransfer,
    pub fee: ValueTransfer,
    pub event: LaunchEvent,
}

/// What a redemption asks of the host: the asset back out of escrow, the
/// fee from the record to the caller, and the event.
#[derive(Clone, Debug)]
pub struct RedeemOutcome {
    pub token: TokenTransfer,
    pub fee: ValueTransfer,
    pub event: RedeemEvent,
}

/// What a sale asks of the host: the receipt to store, the asset out of
/// escrow to the buyer, the price to the seller unless it is zero, the fee
/// from the record to the store owner, and the event.
#[derive(Clone, Debug)]
pub struct BuyOutcome {
    pub sold_record: SoldRecord,
    pub token: TokenTransfer,
    pub payment: Option<ValueTransfer>,
    pub fee: ValueTransfer,
    pub event: SoldEvent,
}

/// `record` listed by `seller` at `price` and the requested `rate`.
pub open spec fn listed(record: RecordAccount, seller: Address, price: u64, rate: u16) -> RecordAccount {
    RecordAccount {
        seller,
        price,
        rate: clamped_rate(rate as int) as u16,
        on_sale: true,
        ..record
    }
}

/// `record` after one sale.
pub open spec fn bought(record: RecordAccount) -> RecordAccount {
    RecordAccount {
        current_index: (record.current_index + 1) as u32,
        on_sale: false,
        volume: (record.volume + record.price) as u128,
        ..record
    }
}

/// The sale count and the sold volume are the same in `before` and `after`.
pub open spec fn history_kept(before: RecordAccount, after: RecordAccount) -> bool {
    after.current_index == before.current_index && after.volume == before.volume
}

/// `after` is `before` with one more sale, whose receipt is `sale`.
pub open spec fn sale_step(before: RecordAccount, after: RecordAccount, sale: SoldRecord) -> bool {
    &&& after.current_index == before.current_index + 1
    &&& after.volume == before.volume + sale.price
    &&& sale.index == before.current_index
    &&& sale.price == before.price
}

/// A move of one asset unit out of escrow, signed by the store.
pub open spec fn escrow_release(t: TokenTransfer, escrow: Address, to: Address, store_key: Address, store: StoreAccount) -> bool {
    &&& t.from == escrow
    &&& t.to == to
    &&& t.authority == store_key
    &&& t.amount == 1
    &&& t.signer matches Some(s) && s.seed@ == trimmed(store.store_name@) && s.bump == store.bumps
}

/// The error `sell_nft` reports, if any, in the order it checks.
pub open spec fn sell_error(ctx: SellNft, program: Seq<u8>, rate: u16) -> Option<ErrorCode> {
    if ctx.authority_token_account.owner@ != ctx.authority@
        || ctx.authority_token_account.mint@ != ctx.record_account.mint@ {
        Some(ErrorCode::Unauthorized)
    } else if !escrow_at(ctx.record_account, ctx.record_token_account, program)
        || !record_at(ctx.record_account, ctx.record_key, program) {
        Some(ErrorCode::SeedsMismatch)
    } else if ctx.record_account.on_sale {
        Some(ErrorCode::AlreadyOnSale)
    } else if !store_at(ctx.store_account, ctx.store_key, program) {
        Some(ErrorCode::SeedsMismatch)
    } else if ctx.store_account.frozen {
        Some(ErrorCode::StoreFrozen)
    } else if rate < 1 {
        Some(ErrorCode::InvalidRate)
    } else {
        None
    }
}

/// The error `redeem_nft` reports, if any, in the order it checks.
pub open spec fn redeem_error(ctx: RedeemNft, program: Seq<u8>) -> Option<ErrorCode> {
    if ctx.authority_token_account.owner@ != ctx.authority@
        || ctx.authority_token_account.mint@ != ctx.record_account.mint@ {
        Some(ErrorCode::Unauthorized)
    } else if !escrow_at(ctx.record_account, ctx.record_token_account, program)
        || !record_at(ctx.record_account, ctx.record_key, program) {
        Some(ErrorCode::SeedsMismatch)
    } else if !ctx.record_account.on_sale {
        Some(ErrorCode::NotOnSale)
    } else if !store_at(ctx.store_account, ctx.store_key, program) {
        Some(ErrorCode::SeedsMismatch)
    } else {
        None
    }
}

/// The error `buy_nft` reports, if any, in the order it checks.
pub open spec fn buy_error(ctx: BuyNft, program: Seq<u8>) -> Option<ErrorCode> {
    let record = ctx.record_account;
    if ctx.receiver@ != record.seller@ || ctx.holder@ != ctx.store_account.owner@ {
        Some(ErrorCode::Unauthorized)
    } else if !sold_at(record.mint, record.current_index, ctx.sold_record, program) {
        Some(ErrorCode::SeedsMismatch)
    } else if ctx.authority_token_account.owner@ != ctx.authority@
        || ctx.authority_token_account.mint@ != record.mint@ {
        Some(ErrorCode::Unauthorized)
    } else if !escrow_at(record, ctx.record_token_account, program)
        || !record_at(record, ctx.record_key, program) {
        Some(ErrorCode::SeedsMismatch)
    } else if !record.on_sale {
        Some(ErrorCode::NotOnSale)
    } else if !store_at(ctx.store_account, ctx.store_key, program) {
        Some(ErrorCode::SeedsMismatch)
    } else if record.current_index == u32::MAX || record.volume + record.price > u128::MAX {
        Some(ErrorCode::Overflow)
    } else {
        None
    }
}

/// The store's signing capability.
fn store_signer(store: &StoreAccount) -> (r: StoreSigner)
    ensures
        r.seed@ == trimmed(store.store_name@),
        r.bump == store.bumps,
{
    StoreSigner { seed: store_seed(store), bump: store.bumps }
}

/// Lists the asset for sale at `price`, with `rate` clamped into
/// `[1, MAX_RATE]`: the seller's unit goes into escrow and the seller pays
/// the fee to the record.
pub fn sell_nft(ctx: &mut SellNft, program_id: &Address, price: u64, rate: u16)
    -> (r: Result<SellOutcome, ErrorCode>)
    requires
        old(ctx).record_account.wf(),
    ensures
        final(ctx).record_account.wf(),
        match sell_error(*old(ctx), program_id@, rate) {
            Some(e) => r == Err::<SellOutcome, ErrorCode>(e) && *final(ctx) == *old(ctx),
            None => match r {
                Ok(out) => {
                    let record = final(ctx).record_account;
                    &&& *final(ctx) == (SellNft {
                        record_account: listed(old(ctx).record_account, old(ctx).authority, price, rate),
                        ..*old(ctx)
                    })
                    &&& history_kept(old(ctx).record_account, record)
                    &&& out.token.from == old(ctx).authority_token_account.key
                    &&& out.token.to == old(ctx).record_token_account
                    &&& out.token.authority == old(ctx).authority
                    &&& out.token.signer is None
                    &&& out.token.amount == 1
                    &&& out.fee == ValueTransfer::System {
                        from: old(ctx).authority,
                        to: old(ctx).record_key,
                        amount: fee_of(record.price as int, record.rate as int) as u64,
                    }
                    &&& out.event.seller == old(ctx).authority
                    &&& out.event.mint == record.mint
                    &&& out.event.price == price
                    &&& out.event.rate == rate
                    &&& out.event.label@ == "sell_nft"@
                },
                Err(_) => false,
            },
        },
{
    if !ctx.authority_token_account.owner.same_as(&ctx.authority)
        || !ctx.authority_token_account.mint.same_as(&ctx.record_account.mint) {
        return Err(ErrorCode::Unauthorized);
    }
    if !check_escrow(&ctx.record_account, &ctx.record_token_account, program_id)
        || !check_record(&ctx.record_account, &ctx.record_key, program_id) {
        return Err(ErrorCode::SeedsMismatch);
    }
    if ctx.record_account.on_sale {
        return Err(ErrorCode::AlreadyOnSale);
    }
    if !check_store(&ctx.store_account, &ctx.store_key, program_id) {
        return Err(ErrorCode::SeedsMismatch);
    }
    if ctx.store_account.frozen {
        return Err(ErrorCode::StoreFrozen);
    }
    if rate < 1 {
        return Err(ErrorCode::InvalidRate);
    }
    let stored_rate = clamp_rate(rate);
    ctx.record_account.seller = ctx.authority;
    ctx.record_account.price = price;
    ctx.record_account.rate = stored_rate;
    ctx.record_account.on_sale = true;
    let token = ctx.into_token_transfer_ctx();
    let fee = ValueTransfer::System {
        from: ctx.authority,
        to: ctx.record_key,
        amount: listing_fee(price, stored_rate),
    };
    let event = LaunchEvent {
        seller: ctx.authority,
        mint: ctx.record_account.mint,
        price,
        rate,
        label: "sell_nft".to_owned(),
    };
    Ok(SellOutcome { token, fee, event })
}

/// Withdraws a listing: the unit leaves escrow for the caller's token
/// account, signed by the store, and the record pays the fee back to the
/// caller.
pub fn redeem_nft(ctx: &mut RedeemNft, program_id: &Address) -> (r: Result<RedeemOutcome, ErrorCode>)
    requires
        old(ctx).record_account.wf(),
    ensures
        final(ctx).record_account.wf(),
        !old(ctx).record_account.on_sale ==> (r matches Err(e) && e.is_precondition_violation_spec()),
        match redeem_error(*old(ctx), program_id@) {
            Some(e) => r == Err::<RedeemOutcome, ErrorCode>(e) && *final(ctx) == *old(ctx),
            None => match r {
                Ok(out) => {
                    let record = old(ctx).record_account;
                    &&& *final(ctx) == (RedeemNft {
                        record_account: RecordAccount { on_sale: false, ..record },
                        ..*old(ctx)
                    })
                    &&& history_kept(record, final(ctx).record_account)
                    &&& escrow_release(
                        out.token,
                        old(ctx).record_token_account,
                        old(ctx).authority_token_account.key,
                        old(ctx).store_key,
                        old(ctx).store_account,
                    )
                    &&& out.fee == ValueTransfer::Debit {
                        from: old(ctx).record_key,
                        to: old(ctx).authority,
                        amount: fee_of(record.price as int, record.rate as int) as u64,
                    }
                    &&& out.event.redeem == old(ctx).authority
                    &&& out.event.mint == record.mint
                    &&& out.event.label@ == "redeem_nft"@
                },
                Err(_) => false,
            },
        },
{
    if !ctx.authority_token_account.owner.same_as(&ctx.authority)
        || !ctx.authority_token_account.mint.same_as(&ctx.record_account.mint) {
        return Err(ErrorCode::Unauthorized);
    }
    if !check_escrow(&ctx.record_account, &ctx.record_token_account, program_id)
        || !check_record(&ctx.record_account, &ctx.record_key, program_id) {
        return Err(ErrorCode::SeedsMismatch);
    }
    if !ctx.record_account.on_sale {
        return Err(ErrorCode::NotOnSale);
    }
    if !check_store(&ctx.store_account, &ctx.store_key, program_id) {
        return Err(ErrorCode::SeedsMismatch);
    }
    ctx.record_account.on_sale = false;
    let token = TokenTransfer {
        from: ctx.record_token_account,
        to: ctx.authority_token_account.key,
        authority: ctx.store_key,
        signer: Some(store_signer(&ctx.store_account)),
        amount: 1,
    };
    let fee = ValueTransfer::Debit {
        from: ctx.record_key,
        to: ctx.authority,
        amount: listing_fee(ctx.record_account.price, ctx.record_account.rate),
    };
    let event = RedeemEvent {
        redeem: ctx.authority,
        mint: ctx.record_account.mint,
        label: "redeem_nft".to_owned(),
    };
    Ok(RedeemOutcome { token, fee, event })
}

/// Completes a sale at the listed price: the receipt of sale number
/// `current_index` is made with the time `now`, the sale count and the sold
/// volume grow, the unit leaves escrow for the buyer, the price goes to the
/// seller unless it is zero, and the record pays the fee to the store owner.
pub fn buy_nft(ctx: &mut BuyNft, program_id: &Address, now: i64) -> (r: Result<BuyOutcome, ErrorCode>)
    requires
        old(ctx).record_account.wf(),
    ensures
        final(ctx).record_account.wf(),
        !old(ctx).record_account.on_sale ==> (r matches Err(e) && e.is_precondition_violation_spec()),
        match buy_error(*old(ctx), program_id@) {
            Some(e) => r == Err::<BuyOutcome, ErrorCode>(e) && *final(ctx) == *old(ctx),
            None => match r {
                Ok(out) => {
                    let record = old(ctx).record_account;
                    &&& *final(ctx) == (BuyNft { record_account: bought(record), ..*old(ctx) })
                    &&& sale_step(record, final(ctx).record_account, out.sold_record)
                    &&& out.sold_record == (SoldRecord {
                        index: record.current_index,
                        price: record.price,
                        seller: record.seller,
                        customer: old(ctx).authority,
                        rate: record.rate,
                        mint: record.mint,
                        created_at: now,
                    })
                    &&& escrow_release(
                        out.token,
                        old(ctx).record_token_account,
                        old(ctx).authority_token_account.key,
                        old(ctx).store_key,
                        old(ctx).store_account,
                    )
                    &&& out.payment == if record.price == 0 {
                        None
                    } else {
                        Some(ValueTransfer::System {
                            from: old(ctx).authority,
                            to: old(ctx).receiver,
                            amount: record.price,
                        })
                    }
                    &&& out.fee == ValueTransfer::Debit {
                        from: old(ctx).record_key,
                        to: old(ctx).holder,
                        amount: fee_of(record.price as int, record.rate as int) as u64,
                    }
                    &&& out.event.seller == record.seller
                    &&& out.event.mint == record.mint
                    &&& out.event.customer == old(ctx).authority
                    &&& out.event.index == record.current_index
                    &&& out.event.price == record.price
                    &&& out.event.rate == record.rate
                    &&& out.event.created_at == now
                    &&& out.event.label@ == "buy_nft"@
                },
                Err(_) => false,
            },
        },
{
    if !ctx.receiver.same_as(&ctx.record_account.seller)
        || !ctx.holder.same_as(&ctx.store_account.owner) {
        return Err(ErrorCode::Unauthorized);
    }
    if !check_sold(&ctx.record_account.mint, ctx.record_account.current_index, &ctx.sold_record, program_id) {
        return Err(ErrorCode::SeedsMismatch);
    }
    if !ctx.authority_token_account.owner.same_as(&ctx.authority)
        || !ctx.authority_token_account.mint.same_as(&ctx.record_account.mint) {
        return Err(ErrorCode::Unauthorized);
    }
    if !check_escrow(&ctx.record_account, &ctx.record_token_account, program_id)
        || !check_record(&ctx.record_account, &ctx.record_key, program_id) {
        return Err(ErrorCode::SeedsMismatch);
    }
    if !ctx.record_account.on_sale {
        return Err(ErrorCode::NotOnSale);
    }
    if !check_store(&ctx.store_account, &ctx.store_key, program_id) {
        return Err(ErrorCode::SeedsMismatch);
    }
    let price = ctx.record_account.price;
    let next_index = match ctx.record_account.current_index.checked_add(1) {
        Some(n) => n,
        None => return Err(ErrorCode::Overflow),
    };
    let volume = match ctx.record_account.volume.checked_add(price as u128) {
        Some(v) => v,
        None => return Err(ErrorCode::Overflow),
    };
    let sold_record = SoldRecord {
        index: ctx.record_account.current_index,
        price,
        seller: ctx.record_account.seller,
        customer: ctx.authority,
        rate: ctx.record_account.rate,
        mint: ctx.record_account.mint,
        created_at: now,
    };
    ctx.record_account.current_index = next_index;
    ctx.record_account.on_sale = false;
    ctx.record_account.volume = volume;
    let token = TokenTransfer {
        from: ctx.record_token_account,
        to: ctx.authority_token_account.key,
        authority: ctx.store_key,
        signer: Some(store_signer(&ctx.store_account)),
        amount: 1,
    };
    let payment = if price != 0 {
        Some(ValueTransfer::System { from: ctx.authority, to: ctx.receiver, amount: price })
    } else {
        None
    };
    let fee = ValueTransfer::Debit {
        from: ctx.record_key,
        to: ctx.holder,
        amount: listing_fee(price, ctx.record_account.rate),
    };
    let event = SoldEvent {
        seller: ctx.record_account.seller,
        mint: ctx.record_account.mint,
        customer: ctx.authority,
        index: sold_record.index,
        price: sold_record.price,
        rate: sold_record.rate,
        created_at: sold_record.created_at,
        label: "buy_nft".to_owned(),
    };
    Ok(BuyOutcome { sold_record, token, payment, fee, event })
}

} // verus!
