//! Trading actions.

use vstd::prelude::*;

verus! {

/// The action a strategy yields after one bar.
#[derive(Debug, Clone, Copy, PartialEq, Eq, Structural, Hash)]
pub enum Action {
    /// A buy signal with strong conviction.
    StrongBuy,
    /// A buy signal with normal conviction.
    Buy,
    /// Do nothing or hold the position.
    Hold,
    /// A sell signal with normal conviction.
    Sell,
    /// A sell signal with strong conviction.
    StrongSell,
}

} // verus!
