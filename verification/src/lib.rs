//! Bookkeeping for a personal securities portfolio: buy and sell transactions and
//! cash movements are folded into positions, average cost, realized and unrealized
//! profit and loss, and a cash balance. All quantities are fixed-point integers.

pub mod accounts;
pub mod book;
pub mod cash;
pub mod cotizaciones;
pub mod dedup;
pub mod emisoras;
pub mod error;
pub mod facade;
pub mod fechas;
pub mod financieros;
pub mod holdings;
pub mod intradia;
pub mod json;
pub mod laws;
pub mod ledger;
pub mod market;
pub mod orden;
pub mod recording;
pub mod text;
pub mod ticker_tape;
pub mod types;
pub mod units;
pub mod valuation;
