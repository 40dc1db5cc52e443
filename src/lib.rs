//! An in-process store of market ticks, keyed by symbol, with the queries
//! that analytics build on: the latest tick, the prices that a simple moving
//! average covers, and the full volume history of a symbol.
//!
//! The numeric payload of a tick (price and volume) is a type parameter: the
//! store only keeps, orders and selects these values, and leaves arithmetic on
//! them to the caller.

pub mod laws;
pub mod model;
mod store;
mod tick;

pub use store::MarketPulse;
pub use tick::MarketData;
