//! Average true range.

use vstd::prelude::*;

use crate::error::TaResult;
use crate::indicators::ema::{ema_fresh, ema_step, ExponentialMovingAverage};
use crate::indicators::tr::{tr_step, TrueRange};
use crate::strategy::market_data::MarketData;

verus! {

/// Average true range: an EMA over the stream of true ranges.
#[derive(Debug, Clone, PartialEq)]
pub struct AverageTrueRange {
    pub true_range: TrueRange,
    pub ema: ExponentialMovingAverage,
}

impl AverageTrueRange {
    /// The smoothing EMA is well formed.
    pub open spec fn wf(&self) -> bool {
        self.ema.wf()
    }

    /// A fresh ATR. A zero period is rejected.
    pub fn new(period: usize) -> (r: TaResult<AverageTrueRange>)
        requires
            period < usize::MAX,
        ensures
            r is Ok <==> period >= 1,
            r matches Err(e) ==> e is InvalidParameter,
            r matches Ok(a) ==> a.wf() && a.true_range.prev_close is None && a.ema == ema_fresh(
                period,
            ),
    {
        match ExponentialMovingAverage::new(period) {
            Ok(ema) => Ok(AverageTrueRange { true_range: TrueRange::new(), ema }),
            Err(e) => Err(e),
        }
    }

    /// The period of the smoothing EMA.
    pub fn period(&self) -> (r: usize)
        ensures
            r == self.ema.period,
    {
        self.ema.period()
    }

    /// Feeds one bare price: the true range of the price, smoothed.
    pub fn next(&mut self, input: u64) -> (r: TaResult<u64>)
        ensures
            ({
                let (pc, t) = tr_step(old(self).true_range.prev_close, input, input, input);
                let (e, v) = ema_step(old(self).ema, t);
                r matches Ok(out) && out == v && final(self).true_range.prev_close == pc && final(self).ema == e
            }),
    {
        let t = match self.true_range.next(input) {
            Ok(t) => t,
            Err(e) => {
                return Err(e);
            },
        };
        self.ema.next(t)
    }

    /// Feeds one bar: its true range, smoothed.
    pub fn next_candle(&mut self, data: &MarketData) -> (r: TaResult<u64>)
        ensures
            ({
                let (pc, t) = tr_step(
                    old(self).true_range.prev_close,
                    data.spec_high(),
                    data.spec_low(),
                    data.spec_close(),
                );
                let (e, v) = ema_step(old(self).ema, t);
                r matches Ok(out) && out == v && final(self).true_range.prev_close == pc && final(self).ema == e
            }),
    {
        let t = match self.true_range.next_candle(data) {
            Ok(t) => t,
            Err(e) => {
                return Err(e);
            },
        };
        self.ema.next(t)
    }

    /// Returns both parts to their freshly constructed state.
    pub fn reset(&mut self)
        ensures
            final(self).true_range.prev_close is None,
            final(self).ema == (ExponentialMovingAverage {
                current: crate::fp::ZERO_BITS,
                is_new: true,
                ..old(self).ema
            }),
    {
        self.true_range.reset();
        self.ema.reset();
    }
}

impl Default for AverageTrueRange {
    /// The conventional fourteen-bar ATR.
    fn default() -> (r: AverageTrueRange)
        ensures
            r.wf(),
            r.true_range.prev_close is None,
            r.ema == ema_fresh(14usize),
    {
        AverageTrueRange {
            true_range: TrueRange::new(),
            ema: ExponentialMovingAverage {
                period: 14,
                k: crate::fp::fp_div(crate::fp::TWO_BITS, crate::fp::fp_from_u64(15)),
                current: crate::fp::ZERO_BITS,
                is_new: true,
            },
        }
    }
}

} // verus!
