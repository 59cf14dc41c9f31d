//! Conversion of a brokerage transaction export into ledger transactions,
//! with a time-bound cache for ticker symbol lookups.
//!
//! * [`avanza`] reads the rows of the export and converts each into its
//!   transaction.
//! * [`pp`] holds the transactions, and sorts them into the two outputs
//!   while it collects the accounts they name.
//! * [`yahoo_symbol`] caches the ticker symbols found for an identifier,
//!   says when one has to be fetched, and spaces the fetches.
//! * [`types`] and [`decimal`] hold currency codes and exact decimal
//!   numbers.
//!
//! The library reads no file and sends no request: its owner does, and
//! hands it what came back.

pub mod avanza;
pub mod decimal;
pub mod pp;
pub mod text;
pub mod types;
pub mod yahoo_symbol;
