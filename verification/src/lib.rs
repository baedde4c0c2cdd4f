//! An in-memory account store for exercising an on-chain program off-chain.
//!
//! The store maps 32-byte addresses to account records, hands out per-call
//! descriptors for a list of requested addresses, and folds the balance and
//! data of those descriptors back into the stored records afterwards.

pub mod account;
pub mod builders;
pub mod laws;
pub mod model;
pub mod programs;
pub mod pubkey;
pub mod rent;
pub mod store;
pub mod token;

pub use account::{Account, AccountInfo, AccountMeta};
pub use pubkey::Pubkey;
pub use store::AccountsState;
