//! Provenance reports for confirmed transactions.
//!
//! Given a confirmed transaction, the library resolves where the spent funds
//! came from, tells the payment to the intended recipient from the change
//! returned to the sender, extracts the fee and the confirming block, and
//! renders the result as a fixed-order, line-delimited text.

pub mod address;
pub mod aggregator;
pub mod classifier;
pub mod error;
pub mod ledger;
pub mod numerals;
pub mod pipeline;
pub mod report;
pub mod resolver;
pub mod serializer;
pub mod slot;
pub mod text;
pub mod wallet;
