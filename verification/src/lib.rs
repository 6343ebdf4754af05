//! A peer-to-peer escrow engine for binary-outcome trades.
//!
//! A maker opens a contract on whether an asset's price will be above or
//! below a benchmark when a time window ends; a taker matches it with an equal
//! stake, which fixes the benchmark; once the window has passed anyone may
//! claim, which reads the price, names the winner and pays the escrow out.

pub mod address;
pub mod error;
pub mod instruction;
pub mod laws;
pub mod ledger;
pub mod oracle;
pub mod processor;
pub mod settlement;
pub mod state;
pub mod tables;
