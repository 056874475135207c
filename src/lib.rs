//! Settlement logic of a single-asset marketplace: named, freezable stores,
//! listings of unique assets held in store escrow, purchases and redemptions,
//! and the percentage fee charged on each of them.

pub mod accounts;
pub mod address;
pub mod fee;
pub mod laws;
pub mod market;
pub mod seeds;
pub mod state;
pub mod store;
pub mod trim;
