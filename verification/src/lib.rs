//! Decision and request-building logic of a Coinbase trading bot.
pub mod api;
pub mod database;
pub mod signing;
pub mod text;
pub mod trade;
