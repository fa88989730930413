//! True range.

use vstd::prelude::*;

use crate::error::TaResult;
use crate::fp;
use crate::strategy::market_data::MarketData;

verus! {

/// True range: the largest of `high - low`, `|high - prev close|` and
/// `|low - prev close|`; the first bar, with no previous close, yields
/// `high - low`. A bare price stands for all three components.
#[derive(Debug, Clone, PartialEq)]
pub struct TrueRange {
    pub prev_close: Option<u64>,
}

/// One true-range step over the bar components `(high, low, close)`.
pub open spec fn tr_step(prev_close: Option<u64>, high: u64, low: u64, close: u64) -> (
    Option<u64>,
    u64,
) {
    let out = match prev_close {
        None => fp::sub_bits(high, low),
        Some(pc) => fp::max_bits(
            fp::max_bits(fp::sub_bits(high, low), fp::mag_bits(fp::sub_bits(high, pc))),
            fp::mag_bits(fp::sub_bits(low, pc)),
        ),
    };
    (Some(close), out)
}

impl TrueRange {
    /// A fresh true range with no previous close.
    pub fn new() -> (r: TrueRange)
        ensures
            r.prev_close is None,
    {
        TrueRange { prev_close: None }
    }

    /// True range needs one bar of history.
    pub fn period(&self) -> (r: usize)
        ensures
            r == 1,
    {
        1
    }

    /// Feeds one bare price, standing for all three bar components.
    pub fn next(&mut self, input: u64) -> (r: TaResult<u64>)
        ensures
            r matches Ok(v) && (final(self).prev_close, v) == tr_step(
                old(self).prev_close,
                input,
                input,
                input,
            ),
    {
        self.next_components(input, input, input)
    }

    /// Feeds one bar.
    pub fn next_candle(&mut self, data: &MarketData) -> (r: TaResult<u64>)
        ensures
            r matches Ok(v) && (final(self).prev_close, v) == tr_step(
                old(self).prev_close,
                data.spec_high(),
                data.spec_low(),
                data.spec_close(),
            ),
    {
        self.next_components(data.high(), data.low(), data.close())
    }

    /// Feeds the three bar components.
    pub fn next_components(&mut self, high: u64, low: u64, close: u64) -> (r: TaResult<u64>)
        ensures
            r matches Ok(v) && (final(self).prev_close, v) == tr_step(
                old(self).prev_close,
                high,
                low,
                close,
            ),
    {
        let out: u64 = match self.prev_close {
            None => fp::fp_sub(high, low),
            Some(pc) => {
                let hl = fp::fp_sub(high, low);
                let hc = fp::fp_abs(fp::fp_sub(high, pc));
                let lc = fp::fp_abs(fp::fp_sub(low, pc));
                fp::fp_max(fp::fp_max(hl, hc), lc)
            },
        };
        self.prev_close = Some(close);
        Ok(out)
    }

    /// Forgets the previous close.
    pub fn reset(&mut self)
        ensures
            final(self).prev_close is None,
    {
        self.prev_close = None;
    }
}

} // verus!
