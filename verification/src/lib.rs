//! Pool accounting and pricing core of an automated market maker.
//!
//! The ledger tracks, for every unordered pair of token ids, the two reserves
//! that back trades between them, and for every token the total held in
//! custody. Moving value between accounts, caller identity, event delivery
//! and durable storage are left to the host: the functions here take plain
//! values and hand back what the host has to carry out.
//!
//! - `pricing`: the quote for a trade, from the reserves of a pair alone.
//! - `provisioning`: the rule on the proportion of a deposit.
//! - `registry`: the asset handle of each token id.
//! - `ledger`: reserves of pairs and totals of tokens.
//! - `book`: amounts on record for an account and a token.
//! - `exchange`: the operations that callers see, over the four above.
//! - `history`: what holds over any run of those operations.
//! - `erc20`: the companion token ledger.

pub mod account;
pub mod book;
pub mod erc20;
pub mod error;
pub mod exchange;
pub mod history;
pub mod ledger;
pub mod pricing;
pub mod provisioning;
pub mod registry;
