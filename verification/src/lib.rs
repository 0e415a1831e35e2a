//! Gas expenditure of a blockchain account over a calendar date range.

pub mod account;
pub mod address;
pub mod calendar;
pub mod config;
pub mod error;
pub mod gas;
pub mod pipeline;
pub mod wide;
