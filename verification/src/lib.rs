//! Turns the transactions of a set of books into voucher documents for
//! import into an accounting package.
//!
//! A run takes the vouchers of a period, the account directory and two
//! alias tables. Each voucher is exported on its own: its type and its
//! accounts are named as the importing side names them, one of its legs
//! is chosen as the party of the voucher, and its entries are put in the
//! order in which the voucher shows them. The exported vouchers are
//! wrapped into one document.

pub mod alias;
pub mod classify;
pub mod dates;
pub mod document;
pub mod entry;
pub mod error;
pub mod export;
pub mod ledger;
pub mod party;
pub mod query;
pub mod sorting;
pub mod text;
pub mod voucher;
