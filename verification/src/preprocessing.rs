//! Preprocessing steps applied to market data before evaluation.

use vstd::prelude::*;

use crate::strategy::market_data::MarketData;

verus! {

/// A preprocessing step. Both steps are declared transforms whose bodies
/// are deliberately the identity for now: the tree's routing around them
/// is what matters here.
#[derive(Debug, Clone, Copy, PartialEq, Eq, Structural)]
pub enum PreprocessingStep {
    /// Wavelet denoising (currently the identity).
    WaveletDenoise,
    /// Normalization (currently the identity).
    Normalize,
}

impl PreprocessingStep {
    /// Applies the step: currently the identity for both variants.
    pub fn apply(&self, data: &MarketData) -> (r: MarketData)
        ensures
            r == *data,
    {
        *data
    }

    /// Steps carry no state; resetting is a no-op.
    pub fn reset(&mut self)
        ensures
            *final(self) == *old(self),
    {
    }
}

} // verus!
