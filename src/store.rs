use vstd::prelude::*;
use vstd::string::{StrSliceExecFns, StringSliceAdditionalSpecFns};
use crate::accounts::{check_escrow, check_record, check_store, escrow_at, record_at, store_at, store_seeds};
use crate::trim::lemma_trim_ignores_padding;
use crate::address::{is_derived, Address};
use crate::seeds::{escrow_seeds, record_seeds};
use crate::state::{
    ErrorCode, MintInfo, RecordAccount, RecordBumps, StoreAccount, TokenAccountInfo,
};

verus! {

/// Width of a stored store name.
pub const NAME_LEN: usize = 10;

/// `name` padded with spaces to `NAME_LEN` bytes.
pub open spec fn padded_name(name: Seq<u8>) -> Seq<u8> {
    name + Seq::new((NAME_LEN - name.len()) as nat, |i: int| 32u8)
}

/// An instruction's accounts when it needs none.
#[derive(Clone, Copy, Debug)]
pub struct Empty {}

/// Accounts of `initialize_store`: the creator, who becomes the owner, and
/// the address at which the store is to be created.
#[derive(Clone, Copy, Debug)]
pub struct InitializeStore {
    pub creator: Address,
    pub store_account: Address,
}

/// Accounts of `freeze_store`.
#[derive(Clone, Copy, Debug)]
pub struct FreezeStore {
    pub creator: Address,
    pub store_key: Address,
    pub store_account: StoreAccount,
}

/// Accounts of `thaw_store`.
#[derive(Clone, Copy, Debug)]
pub struct ThawStore {
    pub creator: Address,
    pub store_key: Address,
    pub store_account: StoreAccount,
}

/// Accounts of `initialize_record`: the caller, the asset's mint, the
/// addresses of the escrow token account and of the record to create, and
/// the store.
#[derive(Clone, Copy, Debug)]
pub struct InitializeRecord {
    pub authority: Address,
    pub nft_mint: MintInfo,
    pub record_token_account: Address,
    pub record_account: Address,
    pub store_key: Address,
    pub store_account: StoreAccount,
}

/// What `initialize_record` creates: the record, and the escrow token
/// account of the asset, held in the store's custody.
#[derive(Clone, Copy, Debug)]
pub struct RecordCreation {
    pub record: RecordAccount,
    pub escrow: TokenAccountInfo,
}

/// The store that `initialize_store` creates for `creator` with the name
/// bytes `name` and disambiguation byte `bumps`.
pub open spec fn new_store(name: Seq<u8>, bumps: u8, creator: Address, store: StoreAccount) -> bool {
    &&& store.store_name@ == padded_name(name)
    &&& store.bumps == bumps
    &&& !store.frozen
    &&& store.owner == creator
}

/// Creates a store named `store_name`, owned by the creator and not frozen,
/// with the name stored padded. Refuses a name longer than `NAME_LEN` bytes,
/// and a store address that is not derived from the trimmed name and `bumps`;
/// the padded name trims to the same seed, so later checks find the store.
pub fn initialize_store(ctx: &InitializeStore, program_id: &Address, store_name: &str, bumps: u8)
    -> (r: Result<StoreAccount, ErrorCode>)
    ensures
        store_name.spec_bytes().len() > NAME_LEN ==> r == Err::<StoreAccount, ErrorCode>(
            ErrorCode::NameTooLong,
        ),
        store_name.spec_bytes().len() <= NAME_LEN ==> match r {
            Ok(s) => {
                &&& new_store(store_name.spec_bytes(), bumps, ctx.creator, s)
                &&& is_derived(store_seeds(store_name.spec_bytes()), bumps, program_id@, ctx.store_account@)
                &&& store_at(s, ctx.store_account, program_id@)
            },
            Err(e) => e == ErrorCode::SeedsMismatch && !is_derived(
                store_seeds(store_name.spec_bytes()),
                bumps,
                program_id@,
                ctx.store_account@,
            ),
        },
{
    let bytes = store_name.as_bytes_vec();
    if bytes.len() > NAME_LEN {
        return Err(ErrorCode::NameTooLong);
    }
    let mut name_data: [u8; 10] = [32u8; 10];
    assert(name_data@ =~= Seq::new(10, |i: int| 32u8));
    let mut i: usize = 0;
    while i < bytes.len()
        invariant
            bytes@.len() <= NAME_LEN,
            i <= bytes@.len(),
            name_data@.len() == NAME_LEN,
            forall|j: int| 0 <= j < i ==> name_data@[j] == bytes@[j],
            forall|j: int| i <= j < NAME_LEN ==> name_data@[j] == 32u8,
        decreases bytes@.len() - i,
    {
        name_data[i] = bytes[i];
        i = i + 1;
    }
    assert(name_data@ =~= padded_name(bytes@));
    let store = StoreAccount { store_name: name_data, bumps, frozen: false, owner: ctx.creator };
    proof {
        let pad = Seq::new((NAME_LEN - bytes@.len()) as nat, |i: int| 32u8);
        lemma_trim_ignores_padding(bytes@, pad);
        assert(store_seeds(store.store_name@) =~= store_seeds(bytes@));
    }
    if !check_store(&store, &ctx.store_account, program_id) {
        return Err(ErrorCode::SeedsMismatch);
    }
    Ok(store)
}

/// The error `freeze_store` reports, if any, in the order it checks.
pub open spec fn freeze_error(ctx: FreezeStore, program: Seq<u8>) -> Option<ErrorCode> {
    if !store_at(ctx.store_account, ctx.store_key, program) {
        Some(ErrorCode::SeedsMismatch)
    } else if ctx.store_account.frozen {
        Some(ErrorCode::StoreFrozen)
    } else if ctx.store_account.owner@ != ctx.creator@ {
        Some(ErrorCode::Unauthorized)
    } else {
        None
    }
}

/// The error `thaw_store` reports, if any, in the order it checks.
pub open spec fn thaw_error(ctx: ThawStore, program: Seq<u8>) -> Option<ErrorCode> {
    if !store_at(ctx.store_account, ctx.store_key, program) {
        Some(ErrorCode::SeedsMismatch)
    } else if !ctx.store_account.frozen {
        Some(ErrorCode::StoreNotFrozen)
    } else if ctx.store_account.owner@ != ctx.creator@ {
        Some(ErrorCode::Unauthorized)
    } else {
        None
    }
}

/// Halts new listings in the store; only its owner may, and only while it
/// is not frozen.
pub fn freeze_store(ctx: &mut FreezeStore, program_id: &Address) -> (r: Result<(), ErrorCode>)
    ensures
        match freeze_error(*old(ctx), program_id@) {
            Some(e) => r == Err::<(), ErrorCode>(e) && *final(ctx) == *old(ctx),
            None => r is Ok && *final(ctx) == (FreezeStore {
                store_account: StoreAccount { frozen: true, ..old(ctx).store_account },
                ..*old(ctx)
            }),
        },
{
    if !check_store(&ctx.store_account, &ctx.store_key, program_id) {
        return Err(ErrorCode::SeedsMismatch);
    }
    if ctx.store_account.frozen {
        return Err(ErrorCode::StoreFrozen);
    }
    if !ctx.store_account.owner.same_as(&ctx.creator) {
        return Err(ErrorCode::Unauthorized);
    }
    ctx.store_account.frozen = true;
    Ok(())
}

/// Resumes new listings in a frozen store; only its owner may.
pub fn thaw_store(ctx: &mut ThawStore, program_id: &Address) -> (r: Result<(), ErrorCode>)
    ensures
        match thaw_error(*old(ctx), program_id@) {
            Some(e) => r == Err::<(), ErrorCode>(e) && *final(ctx) == *old(ctx),
            None => r is Ok && *final(ctx) == (ThawStore {
                store_account: StoreAccount { frozen: false, ..old(ctx).store_account },
                ..*old(ctx)
            }),
        },
{
    if !check_store(&ctx.store_account, &ctx.store_key, program_id) {
        return Err(ErrorCode::SeedsMismatch);
    }
    if !ctx.store_account.frozen {
        return Err(ErrorCode::StoreNotFrozen);
    }
    if !ctx.store_account.owner.same_as(&ctx.creator) {
        return Err(ErrorCode::Unauthorized);
    }
    ctx.store_account.frozen = false;
    Ok(())
}

/// The error `initialize_record` reports, if any, in the order it checks.
pub open spec fn init_record_error(ctx: InitializeRecord, bumps: RecordBumps, program: Seq<u8>) -> Option<ErrorCode> {
    if ctx.nft_mint.decimals != 0 || ctx.nft_mint.supply != 1 {
        Some(ErrorCode::NotUniqueAsset)
    } else if !is_derived(escrow_seeds(ctx.nft_mint.key@), bumps.record_token_account, program, ctx.record_token_account@) {
        Some(ErrorCode::SeedsMismatch)
    } else if !is_derived(record_seeds(ctx.nft_mint.key@), bumps.record_account, program, ctx.record_account@) {
        Some(ErrorCode::SeedsMismatch)
    } else if !store_at(ctx.store_account, ctx.store_key, program) {
        Some(ErrorCode::SeedsMismatch)
    } else if ctx.store_account.frozen {
        Some(ErrorCode::StoreFrozen)
    } else {
        None
    }
}

/// The record that `initialize_record` creates: not on sale, never sold,
/// with the caller as initializer.
pub open spec fn new_record(ctx: InitializeRecord, bumps: RecordBumps, record: RecordAccount) -> bool {
    &&& !record.on_sale
    &&& record.volume == 0
    &&& record.current_index == 0
    &&& record.rate == 0
    &&& record.price == 0
    &&& record.initializer == ctx.authority
    &&& record.seller == ctx.authority
    &&& record.mint == ctx.nft_mint.key
    &&& record.bumps == bumps
}

/// Creates the listing record of a unique asset, and its escrow token
/// account in the store's custody, while the store is not frozen.
pub fn initialize_record(ctx: &InitializeRecord, program_id: &Address, bumps: RecordBumps)
    -> (r: Result<RecordCreation, ErrorCode>)
    ensures
        match init_record_error(*ctx, bumps, program_id@) {
            Some(e) => r == Err::<RecordCreation, ErrorCode>(e),
            None => match r {
                Ok(c) => {
                    &&& new_record(*ctx, bumps, c.record)
                    &&& c.record.wf()
                    &&& record_at(c.record, ctx.record_account, program_id@)
                    &&& escrow_at(c.record, ctx.record_token_account, program_id@)
                    &&& c.escrow == (TokenAccountInfo {
                        key: ctx.record_token_account,
                        mint: ctx.nft_mint.key,
                        owner: ctx.store_key,
                    })
                },
                Err(_) => false,
            },
        },
{
    if ctx.nft_mint.decimals != 0 || ctx.nft_mint.supply != 1 {
        return Err(ErrorCode::NotUniqueAsset);
    }
    let record = RecordAccount {
        on_sale: false,
        volume: 0,
        initializer: ctx.authority,
        seller: ctx.authority,
        bumps,
        mint: ctx.nft_mint.key,
        current_index: 0,
        rate: 0,
        price: 0,
    };
    if !check_escrow(&record, &ctx.record_token_account, program_id) {
        return Err(ErrorCode::SeedsMismatch);
    }
    if !check_record(&record, &ctx.record_account, program_id) {
        return Err(ErrorCode::SeedsMismatch);
    }
    if !check_store(&ctx.store_account, &ctx.store_key, program_id) {
        return Err(ErrorCode::SeedsMismatch);
    }
    if ctx.store_account.frozen {
        return Err(ErrorCode::StoreFrozen);
    }
    let escrow = TokenAccountInfo {
        key: ctx.record_token_account,
        mint: ctx.nft_mint.key,
        owner: ctx.store_key,
    };
    Ok(RecordCreation { record, escrow })
}

} // verus!
