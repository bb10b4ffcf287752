//! A marketplace ledger for non-fungible tokens: fixed-price sales and timed
//! auctions, with the escrow rules that keep bids, payments and token custody
//! consistent with the listing records.

pub mod types;
pub mod market;
pub mod laws;
pub mod gateway;
