//! A trading agent that buys and sells against exchange venues through a
//! quote, lock and confirm protocol, keeps its own ledger of balances,
//! searches for trade sizes a venue accepts, runs a replaceable strategy,
//! and samples venue prices after every operation.
//!
//! All amounts are integers counted in thousandths of a unit.

pub mod discovery;
pub mod goods;
pub mod selection;
pub mod strategy;
pub mod telemetry;
pub mod trader;
pub mod venue;
