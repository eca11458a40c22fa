//! Verified models of two ink! token contracts: a stable currency with an
//! escrow for payments, and the storage layout of an ERC-1400 security token.
//!
//! The chain's execution context (who calls a message) is handed to every
//! message as an explicit `caller`, and events are handed back as values; the
//! contract storage keeps ink!'s storage hash maps, held in `tables`.

use vstd::prelude::*;

pub mod account;
pub mod tables;
pub mod sums;
pub mod stable_currency;
pub mod supply_laws;
pub mod erc1400;
pub mod ledger_laws;
pub mod history_laws;

verus! {

} // verus!
