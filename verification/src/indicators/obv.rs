//! On-balance volume.

use vstd::prelude::*;

use crate::error::TaResult;
use crate::fp;
use crate::strategy::market_data::MarketData;

verus! {

/// On-balance volume: a cumulative sum that adds the bar's volume when the
/// close rises, subtracts it when it falls and holds when it is unchanged;
/// the first bar seeds the sum with its volume.
#[derive(Debug, Clone, PartialEq)]
pub struct OnBalanceVolume {
    pub obv: u64,
    pub prev_close: Option<u64>,
}

/// One OBV step over the bar's close and volume.
pub open spec fn obv_step(s: OnBalanceVolume, close: u64, volume: u64) -> (OnBalanceVolume, u64) {
    let obv = match s.prev_close {
        None => volume,
        Some(prev) => if fp::gt_bits(close, prev) {
            fp::add_bits(s.obv, volume)
        } else if fp::lt_bits(close, prev) {
            fp::sub_bits(s.obv, volume)
        } else {
            s.obv
        },
    };
    (OnBalanceVolume { obv, prev_close: Some(close) }, obv)
}

impl OnBalanceVolume {
    /// A fresh OBV at zero with no previous close.
    pub fn new() -> (r: OnBalanceVolume)
        ensures
            r.obv == fp::ZERO_BITS && r.prev_close is None,
    {
        OnBalanceVolume { obv: fp::ZERO_BITS, prev_close: None }
    }

    /// OBV needs a single bar of history.
    pub fn period(&self) -> (r: usize)
        ensures
            r == 1,
    {
        1
    }

    /// Feeds one bar.
    pub fn next_candle(&mut self, data: &MarketData) -> (r: TaResult<u64>)
        ensures
            r matches Ok(v) && (*final(self), v) == (
                obv_step(*old(self), data.spec_close(), data.spec_volume()).0,
                obv_step(*old(self), data.spec_close(), data.spec_volume()).1,
            ),
    {
        let close = data.close();
        let volume = data.volume();
        match self.prev_close {
            None => {
                self.obv = volume;
            },
            Some(prev) => {
                if fp::fp_gt(close, prev) {
                    self.obv = fp::fp_add(self.obv, volume);
                } else if fp::fp_lt(close, prev) {
                    self.obv = fp::fp_sub(self.obv, volume);
                }
            },
        }
        self.prev_close = Some(close);
        Ok(self.obv)
    }

    /// Returns the OBV to its freshly constructed state.
    pub fn reset(&mut self)
        ensures
            final(self).obv == fp::ZERO_BITS && final(self).prev_close is None,
    {
        self.obv = fp::ZERO_BITS;
        self.prev_close = None;
    }
}

} // verus!
