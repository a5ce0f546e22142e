//! A custodial escrow and marketplace for fungible tokens and unique items.
//!
//! Depositing an item lists it for sale at a price; whoever holds the token
//! the listing names may pay the price and claim the item, or place a bid
//! below it. The escrow keeps four books in a `cosmwasm_std` store: coin
//! custody, item custody, listings and bids.
//!
//! - [`state`] and [`msg`] hold the records, the messages and the answers.
//! - [`model`] is the four books as a mathematical value.
//! - [`rules`] states what each transition makes of the books.
//! - [`storage`] is the store, behind the statements that are taken on trust.
//! - [`contract`] holds the transitions and the queries, verified against
//!   the rules.
//! - [`laws`] proves what holds of the rules in every state.

pub mod contract;
pub mod error;
pub mod laws;
pub mod model;
pub mod msg;
pub mod rules;
pub mod state;
pub mod storage;
