//! Settlement engine for commit-reveal parimutuel prediction pools.
//!
//! The library holds the state of a pool and of each bet placed in it, the
//! fixed-point scoring that turns a revealed prediction into a weight, and the
//! transitions of a bet from placement to payout. Token movements, clocks and
//! account storage belong to the host: every transition takes the current time
//! as an argument and returns the amounts the host must move.
pub mod commitment;
pub mod config;
pub mod errors;
pub mod lifecycle;
pub mod math;
pub mod pool;
pub mod state;
pub mod weighing;
