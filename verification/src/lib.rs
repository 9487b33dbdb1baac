//! Peer-to-peer escrow: the order lifecycle and its custody of funds.
//!
//! A seller's registry holds the fee policy, the arbitrator and a pooled
//! balance; an order holds the terms of one trade between a buyer and a
//! seller. Each operation is handed the records and what it reads of the
//! accounts around them, tests its terms, updates the records and hands back,
//! in order, the movements of funds that the host is to carry out. A refused
//! operation changes nothing.

pub mod accounts;
pub mod authority;
pub mod creation;
pub mod dispute;
pub mod error;
pub mod events;
pub mod fees;
pub mod identity;
pub mod laws;
pub mod ledger;
pub mod records;
pub mod registry;
pub mod settlement;
