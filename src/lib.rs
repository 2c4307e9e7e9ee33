//! A two-party asset-swap escrow over a model of a token ledger.
//!
//! A maker locks an amount of one asset in a vault owned by a derived
//! authority and names the amount of a second asset wanted in return. A
//! taker settles the trade, or the maker cancels it; either way the escrow
//! record and its vault are retired together.

pub mod address;
pub mod table;
pub mod authority;
pub mod record;
pub mod ledger;
pub mod escrow;
pub mod laws;
