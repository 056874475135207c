use nftstore::accounts::check_store;
use nftstore::address::Address;
use nftstore::fee::{clamp_rate, compute_fee, listing_fee, FEE_FLOOR, MAX_RATE};
use nftstore::market::{buy_nft, redeem_nft, sell_nft, BuyNft, RedeemNft, SellNft};
use nftstore::state::{
    ErrorCode, MintInfo, RecordAccount, RecordBumps, StoreAccount, TokenAccountInfo, ValueTransfer,
};
use nftstore::store::{
    freeze_store, initialize_record, initialize_store, thaw_store, FreezeStore, InitializeRecord,
    InitializeStore, ThawStore,
};
use nftstore::trim::{trim_bytes, TrimAsciiWhitespace};
use solana_program::pubkey::Pubkey;

fn program() -> Pubkey {
    Pubkey::new_from_array([7u8; 32])
}

fn addr(p: Pubkey) -> Address {
    Address::new(p.to_bytes())
}

fn key(b: u8) -> Address {
    Address::new([b; 32])
}

fn creator() -> Address {
    key(1)
}

fn seller() -> Address {
    key(2)
}

fn buyer() -> Address {
    key(3)
}

fn mint() -> Address {
    key(4)
}

fn find(seeds: &[&[u8]]) -> (Address, u8) {
    let (k, b) = Pubkey::find_program_address(seeds, &program());
    (addr(k), b)
}

fn store_pda(name: &str) -> (Address, u8) {
    find(&[name.as_bytes()])
}

fn escrow_pda() -> (Address, u8) {
    find(&[&mint().bytes, b"nft_account"])
}

fn record_pda() -> (Address, u8) {
    find(&[&mint().bytes, b"nft_record_account"])
}

fn sold_pda(index: u32) -> Address {
    find(&[&mint().bytes, b"sold_record", &index.to_le_bytes()]).0
}

fn token_account(owner: Address, b: u8) -> TokenAccountInfo {
    TokenAccountInfo { key: key(b), mint: mint(), owner }
}

fn shop() -> (Address, StoreAccount) {
    let (store_key, bump) = store_pda("shop");
    let ctx = InitializeStore { creator: creator(), store_account: store_key };
    let store = initialize_store(&ctx, &addr(program()), "shop", bump).unwrap();
    (store_key, store)
}

fn bumps() -> RecordBumps {
    RecordBumps { record_token_account: escrow_pda().1, record_account: record_pda().1 }
}

fn init_record_ctx(store_key: Address, store: StoreAccount) -> InitializeRecord {
    InitializeRecord {
        authority: seller(),
        nft_mint: MintInfo { key: mint(), decimals: 0, supply: 1 },
        record_token_account: escrow_pda().0,
        record_account: record_pda().0,
        store_key,
        store_account: store,
    }
}

fn fresh_record() -> (Address, StoreAccount, RecordAccount) {
    let (store_key, store) = shop();
    let created = initialize_record(&init_record_ctx(store_key, store), &addr(program()), bumps()).unwrap();
    (store_key, store, created.record)
}

fn sell_ctx(store_key: Address, store: StoreAccount, record: RecordAccount) -> SellNft {
    SellNft {
        authority: seller(),
        authority_token_account: token_account(seller(), 20),
        record_token_account: escrow_pda().0,
        record_key: record_pda().0,
        record_account: record,
        store_key,
        store_account: store,
    }
}

fn redeem_ctx(store_key: Address, store: StoreAccount, record: RecordAccount, who: Address, ata: u8) -> RedeemNft {
    RedeemNft {
        authority: who,
        authority_token_account: token_account(who, ata),
        record_token_account: escrow_pda().0,
        record_key: record_pda().0,
        record_account: record,
        store_key,
        store_account: store,
    }
}

fn buy_ctx(store_key: Address, store: StoreAccount, record: RecordAccount) -> BuyNft {
    BuyNft {
        authority: buyer(),
        receiver: record.seller,
        holder: store.owner,
        sold_record: sold_pda(record.current_index),
        authority_token_account: token_account(buyer(), 30),
        record_token_account: escrow_pda().0,
        record_key: record_pda().0,
        record_account: record,
        store_key,
        store_account: store,
    }
}

fn listed_record(price: u64, rate: u16) -> (Address, StoreAccount, RecordAccount) {
    let (store_key, store, record) = fresh_record();
    let mut ctx = sell_ctx(store_key, store, record);
    sell_nft(&mut ctx, &addr(program()), price, rate).unwrap();
    (store_key, store, ctx.record_account)
}

#[test]
fn fee_of_large_price() {
    assert_eq!(compute_fee(1_000_000_000, 250), 25_000_000);
    assert_eq!(listing_fee(1_000_000_000, 250), 25_000_000);
}

#[test]
fn fee_floor_applies() {
    assert_eq!(compute_fee(1_000, 10), FEE_FLOOR as u128);
    assert_eq!(compute_fee(0, 5_000), 10_000_000);
    assert_eq!(compute_fee(200_000_000, 500), 10_000_000);
    assert_eq!(compute_fee(200_020_000, 500), 10_001_000);
}

#[test]
fn fee_multiplies_without_overflow() {
    let expected = (u64::MAX as u128) * 65_535 / 10_000;
    assert_eq!(compute_fee(u64::MAX, u16::MAX), expected);
    assert_eq!(listing_fee(u64::MAX, MAX_RATE), u64::MAX / 2);
}

#[test]
fn rate_is_clamped() {
    assert_eq!(clamp_rate(0), 1);
    assert_eq!(clamp_rate(1), 1);
    assert_eq!(clamp_rate(250), 250);
    assert_eq!(clamp_rate(5_000), 5_000);
    assert_eq!(clamp_rate(5_001), 5_000);
    assert_eq!(clamp_rate(u16::MAX), 5_000);
}

#[test]
fn trims_ascii_whitespace() {
    assert_eq!(trim_bytes(b"  ab c\t\n"), b"ab c".to_vec());
    assert_eq!(trim_bytes(b" \r\x0c "), Vec::<u8>::new());
    assert_eq!(trim_bytes(b""), Vec::<u8>::new());
    assert_eq!(trim_bytes(b"\x0bx"), b"\x0bx".to_vec());
    let padded: [u8; 10] = *b"shop      ";
    assert_eq!(padded.trim_ascii_whitespace(), b"shop".to_vec());
    assert_eq!(b" a ".to_vec().trim_ascii_whitespace(), b"a".to_vec());
}

#[test]
fn addresses_compare_by_bytes() {
    let mut b = [9u8; 32];
    assert!(key(9).same_as(&Address::new(b)));
    b[31] = 8;
    assert!(!key(9).same_as(&Address::new(b)));
    assert!(key(9) == key(9));
    assert!(key(9) != key(8));
}

#[test]
fn store_is_created_padded() {
    let (store_key, store) = shop();
    assert_eq!(&store.store_name, b"shop      ");
    assert_eq!(store.bumps, store_pda("shop").1);
    assert!(!store.frozen);
    assert_eq!(store.owner, creator());
    assert!(check_store(&store, &store_key, &addr(program())));
    assert!(!check_store(&store, &key(5), &addr(program())));
}

#[test]
fn store_name_too_long() {
    let ctx = InitializeStore { creator: creator(), store_account: key(5) };
    let r = initialize_store(&ctx, &addr(program()), "eleven_char", 255);
    assert_eq!(r.unwrap_err(), ErrorCode::NameTooLong);
}

#[test]
fn store_at_wrong_address() {
    let (store_key, bump) = store_pda("shop");
    let ctx = InitializeStore { creator: creator(), store_account: store_key };
    let r = initialize_store(&ctx, &addr(program()), "shops", bump);
    assert_eq!(r.unwrap_err(), ErrorCode::SeedsMismatch);
}

#[test]
fn freeze_then_thaw_gates_new_records() {
    let (store_key, store) = shop();
    let mut freeze = FreezeStore { creator: creator(), store_key, store_account: store };
    freeze_store(&mut freeze, &addr(program())).unwrap();
    assert!(freeze.store_account.frozen);
    let err = initialize_record(&init_record_ctx(store_key, freeze.store_account), &addr(program()), bumps())
        .unwrap_err();
    assert_eq!(err, ErrorCode::StoreFrozen);
    assert!(err.is_precondition_violation());
    let mut thaw = ThawStore { creator: creator(), store_key, store_account: freeze.store_account };
    thaw_store(&mut thaw, &addr(program())).unwrap();
    assert!(!thaw.store_account.frozen);
    let created = initialize_record(&init_record_ctx(store_key, thaw.store_account), &addr(program()), bumps())
        .unwrap();
    assert!(!created.record.on_sale);
    assert_eq!(created.record.current_index, 0);
    assert_eq!(created.record.initializer, seller());
    assert_eq!(created.escrow.owner, store_key);
    assert_eq!(created.escrow.key, escrow_pda().0);
}

#[test]
fn freeze_and_thaw_are_guarded() {
    let (store_key, store) = shop();
    let mut stranger = FreezeStore { creator: key(9), store_key, store_account: store };
    assert_eq!(freeze_store(&mut stranger, &addr(program())).unwrap_err(), ErrorCode::Unauthorized);
    assert!(!stranger.store_account.frozen);
    let mut thaw = ThawStore { creator: creator(), store_key, store_account: store };
    assert_eq!(thaw_store(&mut thaw, &addr(program())).unwrap_err(), ErrorCode::StoreNotFrozen);
    let mut freeze = FreezeStore { creator: creator(), store_key, store_account: store };
    freeze_store(&mut freeze, &addr(program())).unwrap();
    assert_eq!(freeze_store(&mut freeze, &addr(program())).unwrap_err(), ErrorCode::StoreFrozen);
    let mut wrong = FreezeStore { creator: creator(), store_key: key(5), store_account: store };
    assert_eq!(freeze_store(&mut wrong, &addr(program())).unwrap_err(), ErrorCode::SeedsMismatch);
}

#[test]
fn record_needs_unique_asset() {
    let (store_key, store) = shop();
    let mut ctx = init_record_ctx(store_key, store);
    ctx.nft_mint.supply = 2;
    assert_eq!(initialize_record(&ctx, &addr(program()), bumps()).unwrap_err(), ErrorCode::NotUniqueAsset);
    ctx.nft_mint.supply = 1;
    ctx.nft_mint.decimals = 6;
    assert_eq!(initialize_record(&ctx, &addr(program()), bumps()).unwrap_err(), ErrorCode::NotUniqueAsset);
}

#[test]
fn record_at_wrong_address() {
    let (store_key, store) = shop();
    let mut ctx = init_record_ctx(store_key, store);
    ctx.record_account = key(5);
    assert_eq!(initialize_record(&ctx, &addr(program()), bumps()).unwrap_err(), ErrorCode::SeedsMismatch);
}

#[test]
fn sell_with_zero_rate_is_refused() {
    let (store_key, store, record) = fresh_record();
    let mut ctx = sell_ctx(store_key, store, record);
    let r = sell_nft(&mut ctx, &addr(program()), 5_000, 0);
    assert_eq!(r.unwrap_err(), ErrorCode::InvalidRate);
    assert!(!ctx.record_account.on_sale);
    assert_eq!(ctx.record_account.price, 0);
    assert_eq!(ctx.record_account.rate, 0);
}

#[test]
fn sell_stores_clamped_rate() {
    for (asked, stored) in [(1u16, 1u16), (250, 250), (5_000, 5_000), (5_001, 5_000), (u16::MAX, 5_000)] {
        let (_, _, record) = listed_record(1_000, asked);
        assert_eq!(record.rate, stored);
    }
}

#[test]
fn sell_twice_is_refused() {
    let (store_key, store, record) = listed_record(1_000, 100);
    let mut ctx = sell_ctx(store_key, store, record);
    assert_eq!(sell_nft(&mut ctx, &addr(program()), 1_000, 100).unwrap_err(), ErrorCode::AlreadyOnSale);
}

#[test]
fn sell_in_frozen_store_is_refused() {
    let (store_key, mut store, record) = fresh_record();
    store.frozen = true;
    let mut ctx = sell_ctx(store_key, store, record);
    assert_eq!(sell_nft(&mut ctx, &addr(program()), 1_000, 100).unwrap_err(), ErrorCode::StoreFrozen);
}

#[test]
fn sell_by_stranger_is_refused() {
    let (store_key, store, record) = fresh_record();
    let mut ctx = sell_ctx(store_key, store, record);
    ctx.authority = key(9);
    assert_eq!(sell_nft(&mut ctx, &addr(program()), 1_000, 100).unwrap_err(), ErrorCode::Unauthorized);
}

#[test]
fn end_to_end_sale() {
    let (store_key, store, record) = fresh_record();
    let mut ctx = sell_ctx(store_key, store, record);
    let listing = sell_nft(&mut ctx, &addr(program()), 2_000_000_000, 500).unwrap();
    assert!(ctx.record_account.on_sale);
    assert_eq!(ctx.record_account.seller, seller());
    assert_eq!(listing.token.from, key(20));
    assert_eq!(listing.token.to, escrow_pda().0);
    assert_eq!(listing.token.amount, 1);
    assert!(listing.token.signer.is_none());
    match listing.fee {
        ValueTransfer::System { from, to, amount } => {
            assert_eq!(from, seller());
            assert_eq!(to, record_pda().0);
            assert_eq!(amount, 100_000_000);
        }
        ValueTransfer::Debit { .. } => panic!("listing fee is paid through the system program"),
    }
    assert_eq!(listing.event.label, "sell_nft");
    assert_eq!(listing.event.rate, 500);

    let mut buy = buy_ctx(store_key, store, ctx.record_account);
    let sale = buy_nft(&mut buy, &addr(program()), 1_700_000_000).unwrap();
    assert!(!buy.record_account.on_sale);
    assert_eq!(buy.record_account.current_index, 1);
    assert_eq!(buy.record_account.volume, 2_000_000_000);
    assert_eq!(sale.sold_record.index, 0);
    assert_eq!(sale.sold_record.price, 2_000_000_000);
    assert_eq!(sale.sold_record.seller, seller());
    assert_eq!(sale.sold_record.customer, buyer());
    assert_eq!(sale.sold_record.created_at, 1_700_000_000);
    assert_eq!(sale.token.from, escrow_pda().0);
    assert_eq!(sale.token.to, key(30));
    assert_eq!(sale.token.authority, store_key);
    let signer = sale.token.signer.unwrap();
    assert_eq!(signer.seed, b"shop".to_vec());
    assert_eq!(signer.bump, store.bumps);
    match sale.payment.unwrap() {
        ValueTransfer::System { from, to, amount } => {
            assert_eq!(from, buyer());
            assert_eq!(to, seller());
            assert_eq!(amount, 2_000_000_000);
        }
        ValueTransfer::Debit { .. } => panic!("price is paid through the system program"),
    }
    match sale.fee {
        ValueTransfer::Debit { from, to, amount } => {
            assert_eq!(from, record_pda().0);
            assert_eq!(to, creator());
            assert_eq!(amount, 100_000_000);
        }
        ValueTransfer::System { .. } => panic!("fee is debited from the record"),
    }
    assert_eq!(sale.event.index, 0);
    assert_eq!(sale.event.label, "buy_nft");
}

#[test]
fn redeem_returns_asset_to_seller() {
    let (store_key, store, record) = listed_record(2_000_000_000, 500);
    let mut ctx = redeem_ctx(store_key, store, record, seller(), 20);
    let out = redeem_nft(&mut ctx, &addr(program()), ).unwrap();
    assert!(!ctx.record_account.on_sale);
    assert_eq!(ctx.record_account.current_index, 0);
    assert_eq!(ctx.record_account.volume, 0);
    assert_eq!(out.token.from, escrow_pda().0);
    assert_eq!(out.token.to, key(20));
    assert_eq!(out.token.authority, store_key);
    assert_eq!(out.token.signer.unwrap().seed, b"shop".to_vec());
    match out.fee {
        ValueTransfer::Debit { from, to, amount } => {
            assert_eq!(from, record_pda().0);
            assert_eq!(to, seller());
            assert_eq!(amount, 100_000_000);
        }
        ValueTransfer::System { .. } => panic!("fee is debited from the record"),
    }
    assert_eq!(out.event.redeem, seller());
    assert_eq!(out.event.label, "redeem_nft");
}

#[test]
fn redeem_or_buy_when_not_on_sale_fails() {
    let (store_key, store, record) = fresh_record();
    for (who, ata) in [(seller(), 20u8), (buyer(), 30), (creator(), 40)] {
        let mut r = redeem_ctx(store_key, store, record, who, ata);
        let e = redeem_nft(&mut r, &addr(program())).unwrap_err();
        assert!(e.is_precondition_violation());
        let mut b = buy_ctx(store_key, store, record);
        b.authority = who;
        b.authority_token_account = token_account(who, ata);
        let e = buy_nft(&mut b, &addr(program()), 0).unwrap_err();
        assert!(e.is_precondition_violation());
        assert_eq!(e, ErrorCode::NotOnSale);
        assert_eq!(b.record_account.current_index, 0);
    }
    let (store_key, store, record) = listed_record(1_000, 10);
    let mut r = redeem_ctx(store_key, store, record, seller(), 20);
    redeem_nft(&mut r, &addr(program())).unwrap();
    let e = redeem_nft(&mut r, &addr(program())).unwrap_err();
    assert_eq!(e, ErrorCode::NotOnSale);
}

#[test]
fn buy_checks_receiver_and_holder() {
    let (store_key, store, record) = listed_record(1_000, 10);
    let mut b = buy_ctx(store_key, store, record);
    b.receiver = key(9);
    assert_eq!(buy_nft(&mut b, &addr(program()), 0).unwrap_err(), ErrorCode::Unauthorized);
    let mut b = buy_ctx(store_key, store, record);
    b.holder = key(9);
    assert_eq!(buy_nft(&mut b, &addr(program()), 0).unwrap_err(), ErrorCode::Unauthorized);
    let mut b = buy_ctx(store_key, store, record);
    b.sold_record = sold_pda(1);
    assert_eq!(buy_nft(&mut b, &addr(program()), 0).unwrap_err(), ErrorCode::SeedsMismatch);
    assert!(b.record_account.on_sale);
}

#[test]
fn free_sale_moves_no_price() {
    let (store_key, store, record) = listed_record(0, 10);
    let mut b = buy_ctx(store_key, store, record);
    let sale = buy_nft(&mut b, &addr(program()), 0).unwrap();
    assert!(sale.payment.is_none());
    match sale.fee {
        ValueTransfer::Debit { amount, .. } => assert_eq!(amount, FEE_FLOOR),
        ValueTransfer::System { .. } => panic!("fee is debited from the record"),
    }
}

#[test]
fn repeated_sales_count_and_sum() {
    let (store_key, store, mut record) = fresh_record();
    let prices = [u64::MAX, 5, u64::MAX, 0, u64::MAX];
    for (n, price) in prices.iter().enumerate() {
        let mut s = sell_ctx(store_key, store, record);
        sell_nft(&mut s, &addr(program()), *price, 100).unwrap();
        let mut b = buy_ctx(store_key, store, s.record_account);
        let sale = buy_nft(&mut b, &addr(program()), n as i64).unwrap();
        assert_eq!(sale.sold_record.index, n as u32);
        record = b.record_account;
        assert_eq!(record.current_index, n as u32 + 1);
    }
    let total: u128 = prices.iter().map(|p| *p as u128).sum();
    assert_eq!(record.volume, total);
}

#[test]
fn sale_counter_overflow_is_refused() {
    let (store_key, store, mut record) = listed_record(1_000, 10);
    record.current_index = u32::MAX;
    let mut b = buy_ctx(store_key, store, record);
    assert_eq!(buy_nft(&mut b, &addr(program()), 0).unwrap_err(), ErrorCode::Overflow);
    assert_eq!(b.record_account.current_index, u32::MAX);
    assert!(b.record_account.on_sale);
}

#[test]
fn volume_overflow_is_refused() {
    let (store_key, store, mut record) = listed_record(1_000, 10);
    record.volume = u128::MAX - 999;
    let mut b = buy_ctx(store_key, store, record);
    assert_eq!(buy_nft(&mut b, &addr(program()), 0).unwrap_err(), ErrorCode::Overflow);
    record.volume = u128::MAX - 1_000;
    let mut b = buy_ctx(store_key, store, record);
    buy_nft(&mut b, &addr(program()), 0).unwrap();
    assert_eq!(b.record_account.volume, u128::MAX);
}

#[test]
fn transfer_into_escrow() {
    let (store_key, store, record) = fresh_record();
    let ctx = sell_ctx(store_key, store, record);
    let t = ctx.into_token_transfer_ctx();
    assert_eq!(t.from, key(20));
    assert_eq!(t.to, escrow_pda().0);
    assert_eq!(t.authority, seller());
    assert_eq!(t.amount, 1);
}

#[test]
fn error_messages() {
    assert_eq!(ErrorCode::Unauthorized.message(), "Unauthorized operation");
    assert_eq!(ErrorCode::InvalidRate.message(), "Invalid rate");
    assert!(!ErrorCode::Overflow.is_precondition_violation());
    assert!(ErrorCode::InvalidRate.is_precondition_violation());
}
