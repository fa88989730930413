//! Stochastic oscillator.

use vstd::prelude::*;

use crate::error::{TaError, TaResult};
use crate::fp;
use crate::helper_types::{window_push, Queue};
use crate::indicators::sma::SimpleMovingAverage;
use crate::indicators::{max_fold_bits, max_window, mean_bits, min_fold_bits, min_window};
use crate::strategy::market_data::MarketData;

verus! {

/// Stochastic oscillator: `%K` locates the close inside the rolling
/// high-low range, `%D` smooths the raw ratio with an SMA; both are scaled
/// to `[0, 100]`. A degenerate range yields zero.
#[derive(Debug, Clone, PartialEq)]
pub struct StochasticOscillator {
    pub period: usize,
    pub smoothing_period: usize,
    pub highs: Queue<u64>,
    pub lows: Queue<u64>,
    pub closes: Queue<u64>,
    pub d: SimpleMovingAverage,
}

impl StochasticOscillator {
    /// The three windows share the period and the smoother is in bounds.
    pub open spec fn wf(&self) -> bool {
        &&& self.period >= 1
        &&& self.highs.wf() && self.highs.cap() == self.period
        &&& self.lows.wf() && self.lows.cap() == self.period
        &&& self.closes.wf() && self.closes.cap() == self.period
        &&& self.d.wf()
        &&& self.d.window.cap() == self.smoothing_period
    }

    /// A fresh oscillator. A zero period on either part is rejected.
    pub fn new(period: usize, smoothing_period: usize) -> (r: TaResult<StochasticOscillator>)
        ensures
            r is Ok <==> (period >= 1 && smoothing_period >= 1),
            r matches Err(e) ==> e is InvalidParameter,
            r matches Ok(s) ==> s.wf() && s.period == period && s.smoothing_period
                == smoothing_period && s.highs.items().len() == 0 && s.lows.items().len() == 0
                && s.closes.items().len() == 0 && s.d.window.items().len() == 0,
    {
        if period == 0 {
            return Err(TaError::InvalidParameter("Period must be greater than 0".to_owned()));
        }
        let highs = match Queue::new(period) {
            Ok(q) => q,
            Err(e) => {
                return Err(e);
            },
        };
        let lows = match Queue::new(period) {
            Ok(q) => q,
            Err(e) => {
                return Err(e);
            },
        };
        let closes = match Queue::new(period) {
            Ok(q) => q,
            Err(e) => {
                return Err(e);
            },
        };
        let d = match SimpleMovingAverage::new(smoothing_period) {
            Ok(s) => s,
            Err(e) => {
                return Err(e);
            },
        };
        Ok(StochasticOscillator { period, smoothing_period, highs, lows, closes, d })
    }

    /// The period of the rolling range.
    pub fn period(&self) -> (r: usize)
        ensures
            r == self.period,
    {
        self.period
    }

    /// Feeds one bar and returns `(%K, %D)`, both scaled to `[0, 100]`.
    pub fn next_candle(&mut self, data: &MarketData) -> (r: TaResult<(u64, u64)>)
        requires
            old(self).wf(),
        ensures
            final(self).wf(),
            final(self).period == old(self).period,
            final(self).smoothing_period == old(self).smoothing_period,
            final(self).highs.items() == window_push(
                old(self).highs.items(),
                old(self).period as nat,
                data.spec_high(),
            ).1,
            final(self).lows.items() == window_push(
                old(self).lows.items(),
                old(self).period as nat,
                data.spec_low(),
            ).1,
            final(self).closes.items() == window_push(
                old(self).closes.items(),
                old(self).period as nat,
                data.spec_close(),
            ).1,
            r matches Ok(v) && ({
                let highest = max_fold_bits(final(self).highs.items(), fp::LOWEST_BITS);
                let lowest = min_fold_bits(final(self).lows.items(), fp::HIGHEST_BITS);
                let range = fp::sub_bits(highest, lowest);
                let k = if fp::eq_bits(range, fp::ZERO_BITS) {
                    fp::ZERO_BITS
                } else {
                    fp::div_bits(fp::sub_bits(data.spec_close(), lowest), range)
                };
                &&& final(self).d.window.items() == window_push(
                    old(self).d.window.items(),
                    old(self).d.window.cap() as nat,
                    k,
                ).1
                &&& v.0 == fp::mul_bits(k, fp::HUNDRED_BITS)
                &&& v.1 == fp::mul_bits(mean_bits(final(self).d.window.items()), fp::HUNDRED_BITS)
            }),
    {
        let high = data.high();
        let low = data.low();
        let close = data.close();
        let _ = self.highs.push(high);
        let _ = self.lows.push(low);
        let _ = self.closes.push(close);
        let highest = max_window(&self.highs, fp::LOWEST_BITS);
        let lowest = min_window(&self.lows, fp::HIGHEST_BITS);
        let range = fp::fp_sub(highest, lowest);
        let k: u64 = if fp::fp_eq(range, fp::ZERO_BITS) {
            fp::ZERO_BITS
        } else {
            fp::fp_div(fp::fp_sub(close, lowest), range)
        };
        let dv = match self.d.next(k) {
            Ok(v) => v,
            Err(e) => {
                return Err(e);
            },
        };
        Ok((fp::fp_mul(k, fp::HUNDRED_BITS), fp::fp_mul(dv, fp::HUNDRED_BITS)))
    }

    /// Empties the rolling windows and the smoother: a reset oscillator
    /// behaves exactly like a freshly constructed one.
    pub fn reset(&mut self)
        requires
            old(self).wf(),
        ensures
            final(self).wf(),
            final(self).period == old(self).period,
            final(self).smoothing_period == old(self).smoothing_period,
            final(self).highs.items().len() == 0,
            final(self).lows.items().len() == 0,
            final(self).closes.items().len() == 0,
            final(self).d.window.items().len() == 0,
            final(self).d.window.cap() == old(self).d.window.cap(),
    {
        self.highs.reset();
        self.lows.reset();
        self.closes.reset();
        self.d.reset();
    }
}

impl Default for StochasticOscillator {
    /// The conventional 14-3 oscillator.
    fn default() -> (r: StochasticOscillator)
        ensures
            r.wf(),
            r.period == 14 && r.smoothing_period == 3 && r.highs.items().len() == 0
                && r.lows.items().len() == 0 && r.closes.items().len() == 0
                && r.d.window.items().len() == 0,
    {
        let highs = match Queue::new(14) {
            Ok(q) => q,
            Err(_) => vstd::pervasive::unreached(),
        };
        let lows = match Queue::new(14) {
            Ok(q) => q,
            Err(_) => vstd::pervasive::unreached(),
        };
        let closes = match Queue::new(14) {
            Ok(q) => q,
            Err(_) => vstd::pervasive::unreached(),
        };
        let d = match SimpleMovingAverage::new(3) {
            Ok(s) => s,
            Err(_) => vstd::pervasive::unreached(),
        };
        StochasticOscillator { period: 14, smoothing_period: 3, highs, lows, closes, d }
    }
}

} // verus!
