//! Williams %R.

use vstd::prelude::*;

use crate::error::TaResult;
use crate::fp;
use crate::helper_types::{window_push, Queue};
use crate::indicators::{max_fold_bits, max_window, min_fold_bits, min_window};
use crate::strategy::market_data::MarketData;

verus! {

/// Williams %R: the close's position below the rolling high, scaled to
/// `[-100, 0]`. While the rolling windows are not yet full, or when the
/// range is degenerate, the output is `0.0` by policy, not an error.
#[derive(Debug, Clone, PartialEq)]
pub struct WilliamsR {
    pub highs: Queue<u64>,
    pub lows: Queue<u64>,
}

impl WilliamsR {
    /// Both windows are in bounds and share the period.
    pub open spec fn wf(&self) -> bool {
        self.highs.wf() && self.lows.wf() && self.highs.cap() == self.lows.cap()
    }

    /// A fresh %R. A zero period is rejected.
    pub fn new(period: usize) -> (r: TaResult<WilliamsR>)
        ensures
            r is Ok <==> period >= 1,
            r matches Err(e) ==> e is InvalidParameter,
            r matches Ok(w) ==> w.wf() && w.highs.cap() == period && w.highs.items().len() == 0
                && w.lows.items().len() == 0,
    {
        let highs = match Queue::new(period) {
            Ok(q) => q,
            Err(e) => {
                return Err(e);
            },
        };
        let lows = match Queue::new(period) {
            Ok(q) => q,
            Err(e) => {
                return Err(e);
            },
        };
        Ok(WilliamsR { highs, lows })
    }

    /// The period.
    pub fn period(&self) -> (r: usize)
        ensures
            r == self.highs.cap(),
    {
        self.highs.period()
    }

    /// What one step returns once both windows hold `high` and `low`:
    /// `0.0` until the windows are full or when the range is degenerate,
    /// else `(highest - close) / (highest - lowest) * -100`.
    pub open spec fn wr_out(highs: Seq<u64>, lows: Seq<u64>, cap: nat, close: u64) -> u64 {
        if highs.len() < cap || lows.len() < cap {
            fp::ZERO_BITS
        } else {
            let highest = max_fold_bits(highs, fp::LOWEST_BITS);
            let lowest = min_fold_bits(lows, fp::HIGHEST_BITS);
            if fp::eq_bits(highest, lowest) {
                fp::ZERO_BITS
            } else {
                fp::mul_bits(
                    fp::div_bits(fp::sub_bits(highest, close), fp::sub_bits(highest, lowest)),
                    fp::NEG_HUNDRED_BITS,
                )
            }
        }
    }

    /// Feeds one bare price, standing for high, low and close at once.
    pub fn next(&mut self, input: u64) -> (r: TaResult<u64>)
        requires
            old(self).wf(),
        ensures
            final(self).wf(),
            final(self).highs.cap() == old(self).highs.cap(),
            final(self).highs.items() == window_push(
                old(self).highs.items(),
                old(self).highs.cap() as nat,
                input,
            ).1,
            final(self).lows.items() == window_push(
                old(self).lows.items(),
                old(self).lows.cap() as nat,
                input,
            ).1,
            r matches Ok(v) && v == Self::wr_out(
                final(self).highs.items(),
                final(self).lows.items(),
                old(self).highs.cap() as nat,
                input,
            ),
    {
        self.step(input, input, input)
    }

    /// Feeds one bar.
    pub fn next_candle(&mut self, data: &MarketData) -> (r: TaResult<u64>)
        requires
            old(self).wf(),
        ensures
            final(self).wf(),
            final(self).highs.cap() == old(self).highs.cap(),
            final(self).highs.items() == window_push(
                old(self).highs.items(),
                old(self).highs.cap() as nat,
                data.spec_high(),
            ).1,
            final(self).lows.items() == window_push(
                old(self).lows.items(),
                old(self).lows.cap() as nat,
                data.spec_low(),
            ).1,
            r matches Ok(v) && v == Self::wr_out(
                final(self).highs.items(),
                final(self).lows.items(),
                old(self).highs.cap() as nat,
                data.spec_close(),
            ),
    {
        self.step(data.high(), data.low(), data.close())
    }

    /// Pushes the bar components and computes the output.
    fn step(&mut self, high: u64, low: u64, close: u64) -> (r: TaResult<u64>)
        requires
            old(self).wf(),
        ensures
            final(self).wf(),
            final(self).highs.cap() == old(self).highs.cap(),
            final(self).highs.items() == window_push(
                old(self).highs.items(),
                old(self).highs.cap() as nat,
                high,
            ).1,
            final(self).lows.items() == window_push(
                old(self).lows.items(),
                old(self).lows.cap() as nat,
                low,
            ).1,
            r matches Ok(v) && v == Self::wr_out(
                final(self).highs.items(),
                final(self).lows.items(),
                old(self).highs.cap() as nat,
                close,
            ),
    {
        let _ = self.highs.push(high);
        let _ = self.lows.push(low);
        let cap = self.highs.period();
        if self.highs.len() < cap || self.lows.len() < cap {
            return Ok(fp::ZERO_BITS);
        }
        let highest = max_window(&self.highs, fp::LOWEST_BITS);
        let lowest = min_window(&self.lows, fp::HIGHEST_BITS);
        if fp::fp_eq(highest, lowest) {
            return Ok(fp::ZERO_BITS);
        }
        let ratio = fp::fp_div(fp::fp_sub(highest, close), fp::fp_sub(highest, lowest));
        Ok(fp::fp_mul(ratio, fp::NEG_HUNDRED_BITS))
    }

    /// Empties both windows.
    pub fn reset(&mut self)
        requires
            old(self).wf(),
        ensures
            final(self).wf(),
            final(self).highs.cap() == old(self).highs.cap(),
            final(self).highs.items().len() == 0,
            final(self).lows.items().len() == 0,
    {
        self.highs.reset();
        self.lows.reset();
    }
}

} // verus!
