//! Relative strength index.

use vstd::prelude::*;

use crate::error::TaResult;
use crate::fp;
use crate::indicators::ema::{ema_fresh, ema_step, ExponentialMovingAverage};
use crate::strategy::market_data::MarketData;

verus! {

/// Relative strength index, Wilder style: upward and downward moves are
/// smoothed separately and the index is `100 * up / (up + down)`. The first
/// call only records the price and returns the neutral `50`; a zero smoothed
/// range also yields `50`.
#[derive(Debug, Clone, PartialEq)]
pub struct RelativeStrengthIndex {
    pub period: usize,
    pub up_ema: ExponentialMovingAverage,
    pub down_ema: ExponentialMovingAverage,
    pub prev_val: Option<u64>,
}

/// One RSI step.
pub open spec fn rsi_step(s: RelativeStrengthIndex, input: u64) -> (RelativeStrengthIndex, u64) {
    match s.prev_val {
        None => (RelativeStrengthIndex { prev_val: Some(input), ..s }, fp::FIFTY_BITS),
        Some(prev) => {
            let rising = fp::gt_bits(input, prev);
            let up = if rising {
                fp::sub_bits(input, prev)
            } else {
                fp::ZERO_BITS
            };
            let down = if rising {
                fp::ZERO_BITS
            } else {
                fp::sub_bits(prev, input)
            };
            let (up_ema, up_avg) = ema_step(s.up_ema, up);
            let (down_ema, down_avg) = ema_step(s.down_ema, down);
            let total = fp::add_bits(up_avg, down_avg);
            let out = if fp::eq_bits(total, fp::ZERO_BITS) {
                fp::FIFTY_BITS
            } else {
                fp::mul_bits(fp::HUNDRED_BITS, fp::div_bits(up_avg, total))
            };
            (RelativeStrengthIndex { up_ema, down_ema, prev_val: Some(input), ..s }, out)
        },
    }
}

impl RelativeStrengthIndex {
    /// Both smoothing EMAs are well formed and match the period.
    pub open spec fn wf(&self) -> bool {
        &&& self.period >= 1
        &&& self.up_ema.wf()
        &&& self.down_ema.wf()
        &&& self.up_ema.period == self.period
        &&& self.down_ema.period == self.period
    }

    /// A fresh RSI. A zero period is rejected.
    pub fn new(period: usize) -> (r: TaResult<RelativeStrengthIndex>)
        requires
            period < usize::MAX,
        ensures
            r is Ok <==> period >= 1,
            r matches Err(e) ==> e is InvalidParameter,
            r matches Ok(s) ==> s.wf() && s.period == period && s.up_ema == ema_fresh(period)
                && s.down_ema == ema_fresh(period) && s.prev_val is None,
    {
        let up_ema = match ExponentialMovingAverage::new(period) {
            Ok(e) => e,
            Err(e) => {
                return Err(e);
            },
        };
        let down_ema = match ExponentialMovingAverage::new(period) {
            Ok(e) => e,
            Err(e) => {
                return Err(e);
            },
        };
        Ok(RelativeStrengthIndex { period, up_ema, down_ema, prev_val: None })
    }

    /// The period.
    pub fn period(&self) -> (r: usize)
        ensures
            r == self.period,
    {
        self.period
    }

    /// Feeds one price and returns the index in `[0, 100]`.
    pub fn next(&mut self, input: u64) -> (r: TaResult<u64>)
        ensures
            r matches Ok(v) && (*final(self), v) == (
                rsi_step(*old(self), input).0,
                rsi_step(*old(self), input).1,
            ),
    {
        match self.prev_val {
            None => {
                self.prev_val = Some(input);
                Ok(fp::FIFTY_BITS)
            },
            Some(prev) => {
                let rising = fp::fp_gt(input, prev);
                let up: u64 = if rising {
                    fp::fp_sub(input, prev)
                } else {
                    fp::ZERO_BITS
                };
                let down: u64 = if rising {
                    fp::ZERO_BITS
                } else {
                    fp::fp_sub(prev, input)
                };
                let up_avg = match self.up_ema.next(up) {
                    Ok(v) => v,
                    Err(e) => {
                        return Err(e);
                    },
                };
                let down_avg = match self.down_ema.next(down) {
                    Ok(v) => v,
                    Err(e) => {
                        return Err(e);
                    },
                };
                let total = fp::fp_add(up_avg, down_avg);
                self.prev_val = Some(input);
                if fp::fp_eq(total, fp::ZERO_BITS) {
                    Ok(fp::FIFTY_BITS)
                } else {
                    Ok(fp::fp_mul(fp::HUNDRED_BITS, fp::fp_div(up_avg, total)))
                }
            },
        }
    }

    /// Feeds one bar through its closing price.
    pub fn next_candle(&mut self, data: &MarketData) -> (r: TaResult<u64>)
        ensures
            r matches Ok(v) && (*final(self), v) == (
                rsi_step(*old(self), data.spec_close()).0,
                rsi_step(*old(self), data.spec_close()).1,
            ),
    {
        self.next(data.close())
    }

    /// Returns the RSI to its freshly constructed state.
    pub fn reset(&mut self)
        ensures
            old(self).wf() ==> *final(self) == (RelativeStrengthIndex {
                up_ema: ema_fresh(old(self).period),
                down_ema: ema_fresh(old(self).period),
                prev_val: None,
                ..*old(self)
            }),
    {
        self.up_ema.reset();
        self.down_ema.reset();
        self.prev_val = None;
    }
}

} // verus!
