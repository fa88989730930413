//! Moving average convergence divergence.

use vstd::prelude::*;

use crate::error::TaResult;
use crate::fp;
use crate::indicators::ema::{ema_fresh, ema_step, ExponentialMovingAverage};
use crate::strategy::market_data::MarketData;

verus! {

/// MACD: the fast EMA minus the slow EMA, a third EMA smoothing that
/// difference into the signal line, and the histogram between them.
#[derive(Debug, Clone, PartialEq)]
pub struct MovingAverageConvergenceDivergence {
    pub fast_ema: ExponentialMovingAverage,
    pub slow_ema: ExponentialMovingAverage,
    pub signal_ema: ExponentialMovingAverage,
}

/// One MACD output: the line, the signal and the histogram.
#[derive(Debug, Clone, Copy, PartialEq)]
pub struct MovingAverageConvergenceDivergenceOutput {
    pub macd: u64,
    pub signal: u64,
    pub histogram: u64,
}

impl MovingAverageConvergenceDivergenceOutput {
    /// The three components in order.
    pub fn to_vec(&self) -> (r: Vec<u64>)
        ensures
            r@ == seq![self.macd, self.signal, self.histogram],
    {
        let mut out: Vec<u64> = Vec::new();
        out.push(self.macd);
        out.push(self.signal);
        out.push(self.histogram);
        proof {
            assert(out@ =~= seq![self.macd, self.signal, self.histogram]);
        }
        out
    }
}

/// One MACD step over its three EMAs.
pub open spec fn macd_step(m: MovingAverageConvergenceDivergence, input: u64) -> (
    MovingAverageConvergenceDivergence,
    MovingAverageConvergenceDivergenceOutput,
) {
    let (fast, fast_val) = ema_step(m.fast_ema, input);
    let (slow, slow_val) = ema_step(m.slow_ema, input);
    let macd = fp::sub_bits(fast_val, slow_val);
    let (signal_ema, signal) = ema_step(m.signal_ema, macd);
    let histogram = fp::sub_bits(macd, signal);
    (
        MovingAverageConvergenceDivergence { fast_ema: fast, slow_ema: slow, signal_ema },
        MovingAverageConvergenceDivergenceOutput { macd, signal, histogram },
    )
}

impl MovingAverageConvergenceDivergence {
    /// All three EMAs are well formed.
    pub open spec fn wf(&self) -> bool {
        self.fast_ema.wf() && self.slow_ema.wf() && self.signal_ema.wf()
    }

    /// A fresh MACD. A zero period for any of the three EMAs is rejected.
    pub fn new(fast_period: usize, slow_period: usize, signal_period: usize) -> (r: TaResult<
        MovingAverageConvergenceDivergence,
    >)
        requires
            fast_period < usize::MAX,
            slow_period < usize::MAX,
            signal_period < usize::MAX,
        ensures
            r is Ok <==> (fast_period >= 1 && slow_period >= 1 && signal_period >= 1),
            r matches Err(e) ==> e is InvalidParameter,
            r matches Ok(m) ==> m.wf() && m.fast_ema == ema_fresh(fast_period) && m.slow_ema
                == ema_fresh(slow_period) && m.signal_ema == ema_fresh(signal_period),
    {
        let fast_ema = match ExponentialMovingAverage::new(fast_period) {
            Ok(e) => e,
            Err(e) => {
                return Err(e);
            },
        };
        let slow_ema = match ExponentialMovingAverage::new(slow_period) {
            Ok(e) => e,
            Err(e) => {
                return Err(e);
            },
        };
        let signal_ema = match ExponentialMovingAverage::new(signal_period) {
            Ok(e) => e,
            Err(e) => {
                return Err(e);
            },
        };
        Ok(MovingAverageConvergenceDivergence { fast_ema, slow_ema, signal_ema })
    }

    /// The slow EMA's period, the binding constraint of the indicator.
    pub fn period(&self) -> (r: usize)
        ensures
            r == self.slow_ema.period,
    {
        self.slow_ema.period()
    }

    /// Feeds one price and returns the MACD line, signal and histogram.
    pub fn next(&mut self, input: u64) -> (r: TaResult<MovingAverageConvergenceDivergenceOutput>)
        ensures
            r matches Ok(v) && (*final(self), v) == (
                macd_step(*old(self), input).0,
                macd_step(*old(self), input).1,
            ),
    {
        let fast_val = match self.fast_ema.next(input) {
            Ok(v) => v,
            Err(e) => {
                return Err(e);
            },
        };
        let slow_val = match self.slow_ema.next(input) {
            Ok(v) => v,
            Err(e) => {
                return Err(e);
            },
        };
        let macd = fp::fp_sub(fast_val, slow_val);
        let signal = match self.signal_ema.next(macd) {
            Ok(v) => v,
            Err(e) => {
                return Err(e);
            },
        };
        let histogram = fp::fp_sub(macd, signal);
        Ok(MovingAverageConvergenceDivergenceOutput { macd, signal, histogram })
    }

    /// Feeds one bar through its closing price.
    pub fn next_candle(&mut self, data: &MarketData) -> (r: TaResult<
        MovingAverageConvergenceDivergenceOutput,
    >)
        ensures
            r matches Ok(v) && (*final(self), v) == (
                macd_step(*old(self), data.spec_close()).0,
                macd_step(*old(self), data.spec_close()).1,
            ),
    {
        self.next(data.close())
    }

    /// Returns all three EMAs to their freshly constructed state.
    pub fn reset(&mut self)
        ensures
            old(self).wf() ==> final(self).fast_ema == ema_fresh(old(self).fast_ema.period)
                && final(self).slow_ema == ema_fresh(old(self).slow_ema.period) && final(self).signal_ema == ema_fresh(old(self).signal_ema.period),
    {
        self.fast_ema.reset();
        self.slow_ema.reset();
        self.signal_ema.reset();
    }

    /// The display label `MACD(fast, slow, signal)`. Relies on std's
    /// integer formatting; nothing is promised of the rendered text, so a
    /// test pins it.
    #[verifier::external_body]
    pub fn label(&self) -> String {
        format!(
            "MACD({}, {}, {})",
            self.fast_ema.period, self.slow_ema.period, self.signal_ema.period
        )
    }
}

impl Default for MovingAverageConvergenceDivergence {
    /// The standard 12-26-9 MACD.
    fn default() -> (r: MovingAverageConvergenceDivergence)
        ensures
            r.wf(),
            r.fast_ema == ema_fresh(12usize),
            r.slow_ema == ema_fresh(26usize),
            r.signal_ema == ema_fresh(9usize),
    {
        let fast_ema = ExponentialMovingAverage {
            period: 12,
            k: fp::fp_div(fp::TWO_BITS, fp::fp_from_u64(13)),
            current: fp::ZERO_BITS,
            is_new: true,
        };
        let slow_ema = ExponentialMovingAverage {
            period: 26,
            k: fp::fp_div(fp::TWO_BITS, fp::fp_from_u64(27)),
            current: fp::ZERO_BITS,
            is_new: true,
        };
        let signal_ema = ExponentialMovingAverage {
            period: 9,
            k: fp::fp_div(fp::TWO_BITS, fp::fp_from_u64(10)),
            current: fp::ZERO_BITS,
            is_new: true,
        };
        MovingAverageConvergenceDivergence { fast_ema, slow_ema, signal_ema }
    }
}

} // verus!
