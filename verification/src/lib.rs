//! Streaming technical-analysis engine: incremental indicators composed into a
//! declarative strategy-evaluation tree that turns a stream of market bars into
//! discrete trading actions.
//!
//! Prices and indicator outputs are IEEE-754 double-precision values, carried
//! everywhere as their 64-bit patterns (`u64`). Comparisons on such patterns
//! are ordinary integer logic, verified here along with a correctly rounded
//! square root (see `fsqrt`); the four arithmetic operations are delegated
//! to a software implementation of the same IEEE-754 operations (see `fp`).

pub mod error;
pub mod fp;
pub mod fsqrt;
pub mod helper_types;
pub mod indicators;
pub mod math;
pub mod preprocessing;
pub mod strategy;
pub mod types;
