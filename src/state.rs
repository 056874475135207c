use vstd::prelude::*;
use crate::address::Address;
use crate::fee::MAX_RATE;

verus! {

/// A named store: its space-padded name, the disambiguation byte of its
/// address, whether new listings are halted, and its owner.
#[derive(Clone, Copy, Debug)]
pub struct StoreAccount {
    pub store_name: [u8; 10],
    pub bumps: u8,
    pub frozen: bool,
    pub owner: Address,
}

/// The disambiguation bytes of a listing's escrow account and record.
#[derive(Clone, Copy, Debug, PartialEq, Eq, Structural, Default)]
pub struct RecordBumps {
    pub record_token_account: u8,
    pub record_account: u8,
}

/// The listing ledger entry of one unique asset.
#[derive(Clone, Copy, Debug)]
pub struct RecordAccount {
    pub on_sale: bool,
    pub volume: u128,
    pub initializer: Address,
    pub seller: Address,
    pub bumps: RecordBumps,
    pub mint: Address,
    pub current_index: u32,
    pub rate: u16,
    pub price: u64,
}

impl RecordAccount {
    /// The rate never exceeds `MAX_RATE`, and a listing on sale carries a
    /// rate of at least one basis point.
    pub open spec fn wf(&self) -> bool {
        &&& self.rate <= MAX_RATE
        &&& self.on_sale ==> 1 <= self.rate
    }
}

/// The receipt of one completed sale.
#[derive(Clone, Copy, Debug)]
pub struct SoldRecord {
    pub index: u32,
    pub price: u64,
    pub seller: Address,
    pub customer: Address,
    pub rate: u16,
    pub mint: Address,
    pub created_at: i64,
}

/// Why a transition was refused.
#[derive(Clone, Copy, Debug, PartialEq, Eq, Structural)]
pub enum ErrorCode {
    /// The caller, or an account it presented, is not the one the state names.
    Unauthorized,
    /// A listing asked for a rate below one basis point.
    InvalidRate,
    /// An account is not at the address derived for it.
    SeedsMismatch,
    /// The store is frozen.
    StoreFrozen,
    /// The store is not frozen.
    StoreNotFrozen,
    /// The listing is already on sale.
    AlreadyOnSale,
    /// The listing is not on sale.
    NotOnSale,
    /// The asset is not unique: its supply is not one, or it is divisible.
    NotUniqueAsset,
    /// A store name longer than ten bytes.
    NameTooLong,
    /// A counter or a total would leave its integer type.
    Overflow,
}

impl ErrorCode {
    /// Errors of a caller or state that does not meet a transition's
    /// conditions, as opposed to arithmetic overflow.
    pub open spec fn is_precondition_violation_spec(self) -> bool {
        self != ErrorCode::Overflow
    }

    /// Tells whether the error is a violated precondition.
    pub fn is_precondition_violation(&self) -> (r: bool)
        ensures
            r == self.is_precondition_violation_spec(),
    {
        !matches!(self, ErrorCode::Overflow)
    }

    /// The message that goes with the error.
    pub fn message(&self) -> &'static str {
        match self {
            ErrorCode::Unauthorized => "Unauthorized operation",
            ErrorCode::InvalidRate => "Invalid rate",
            ErrorCode::SeedsMismatch => "Account is not at its derived address",
            ErrorCode::StoreFrozen => "Store is frozen",
            ErrorCode::StoreNotFrozen => "Store is not frozen",
            ErrorCode::AlreadyOnSale => "Asset is already on sale",
            ErrorCode::NotOnSale => "Asset is not on sale",
            ErrorCode::NotUniqueAsset => "Asset is not unique",
            ErrorCode::NameTooLong => "Store name is longer than ten bytes",
            ErrorCode::Overflow => "Arithmetic overflow",
        }
    }
}

/// Emitted when an asset is listed.
#[derive(Clone, Debug)]
pub struct LaunchEvent {
    pub seller: Address,
    pub mint: Address,
    pub price: u64,
    pub rate: u16,
    pub label: String,
}

/// Emitted when a listing is withdrawn.
#[derive(Clone, Debug)]
pub struct RedeemEvent {
    pub redeem: Address,
    pub mint: Address,
    pub label: String,
}

/// Emitted when an asset is sold.
#[derive(Clone, Debug)]
pub struct SoldEvent {
    pub seller: Address,
    pub mint: Address,
    pub customer: Address,
    pub index: u32,
    pub price: u64,
    pub rate: u16,
    pub created_at: i64,
    pub label: String,
}

/// The store's signing capability: the seed and disambiguation byte from
/// which its address derives, which authorize moves out of its custody.
#[derive(Clone, Debug)]
pub struct StoreSigner {
    pub seed: Vec<u8>,
    pub bump: u8,
}

/// A move of asset units between token accounts, for the token program.
#[derive(Clone, Debug)]
pub struct TokenTransfer {
    pub from: Address,
    pub to: Address,
    pub authority: Address,
    pub signer: Option<StoreSigner>,
    pub amount: u64,
}

/// A move of native value.
#[derive(Clone, Copy, Debug)]
pub enum ValueTransfer {
    /// Through the system program, signed by the payer.
    System { from: Address, to: Address, amount: u64 },
    /// Straight out of the balance of an account the program owns.
    Debit { from: Address, to: Address, amount: u64 },
}

/// A token account as the transitions read it.
#[derive(Clone, Copy, Debug)]
pub struct TokenAccountInfo {
    pub key: Address,
    pub mint: Address,
    pub owner: Address,
}

/// A mint as the transitions read it.
#[derive(Clone, Copy, Debug)]
pub struct MintInfo {
    pub key: Address,
    pub decimals: u8,
    pub supply: u64,
}

} // verus!
