//! A personal finance ledger: income and expense transactions, their running
//! balance, a tabular export of the history, and the number of months a
//! balance can carry a fixed monthly cost.
//!
//! Money is held exactly, as a whole number of hundredths of the currency
//! unit. Every function states what it returns over mathematical models of
//! the data, and the statements are proved.

pub mod command;
pub mod confirm;
pub mod export;
pub mod kind;
pub mod laws;
pub mod ledger;
pub mod money;
pub mod report;
pub mod text;
pub mod time;
