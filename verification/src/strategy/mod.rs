//! The strategy layer: market data, comparison conditions over indicators,
//! the strategy-node tree and its warm-up state machine.

pub mod action;
pub mod condition;
pub mod market_data;
pub mod node;
pub mod strat;
pub mod wrapper;

pub use action::Action;
pub use condition::{Condition, Operator};
pub use market_data::MarketData;
pub use node::{SequenceMode, StrategyNode};
pub use strat::{State, Strategy};
pub use wrapper::IndicatorState;
pub use crate::error::StrategyError;
