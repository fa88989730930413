//! SuperTrend bands.

use vstd::prelude::*;

use crate::error::TaResult;
use crate::fp;
use crate::indicators::atr::AverageTrueRange;
use crate::indicators::ema::{ema_fresh, ema_step};
use crate::indicators::tr::tr_step;
use crate::strategy::market_data::MarketData;

verus! {

/// SuperTrend in its simplified band-only form: the price shifted up and
/// down by `multiplier` average true ranges. The classic direction-flip
/// selection is deliberately not part of this algorithm; only the two
/// bands are produced.
#[derive(Debug, Clone, PartialEq)]
pub struct SuperTrend {
    pub multiplier: u64,
    pub atr: AverageTrueRange,
}

/// One bands output, emitted lower band first.
#[derive(Debug, Clone, Copy, PartialEq)]
pub struct SuperTrendOutput {
    pub upper_band: u64,
    pub lower_band: u64,
}

impl SuperTrendOutput {
    /// The two bands in the emitted order: lower, upper.
    pub fn to_vec(&self) -> (r: Vec<u64>)
        ensures
            r@ == seq![self.lower_band, self.upper_band],
    {
        let mut out: Vec<u64> = Vec::new();
        out.push(self.lower_band);
        out.push(self.upper_band);
        proof {
            assert(out@ =~= seq![self.lower_band, self.upper_band]);
        }
        out
    }
}

impl SuperTrend {
    /// The smoothing ATR is well formed.
    pub open spec fn wf(&self) -> bool {
        self.atr.wf()
    }

    /// A fresh SuperTrend. A zero period is rejected.
    pub fn new(multiplier: u64, period: usize) -> (r: TaResult<SuperTrend>)
        requires
            period < usize::MAX,
        ensures
            r is Ok <==> period >= 1,
            r matches Err(e) ==> e is InvalidParameter,
            r matches Ok(s) ==> s.wf() && s.multiplier == multiplier && s.atr.ema == ema_fresh(
                period,
            ) && s.atr.true_range.prev_close is None,
    {
        match AverageTrueRange::new(period) {
            Ok(atr) => Ok(SuperTrend { multiplier, atr }),
            Err(e) => Err(e),
        }
    }

    /// The period of the smoothing ATR.
    pub fn period(&self) -> (r: usize)
        ensures
            r == self.atr.ema.period,
    {
        self.atr.period()
    }

    /// Feeds one bare price: the bands sit `multiplier` ATRs around it.
    pub fn next(&mut self, input: u64) -> (r: TaResult<SuperTrendOutput>)
        ensures
            final(self).multiplier == old(self).multiplier,
            r matches Ok(v) && ({
                let (pc, t) = tr_step(old(self).atr.true_range.prev_close, input, input, input);
                let (ae, atr_value) = ema_step(old(self).atr.ema, t);
                let offset = fp::mul_bits(old(self).multiplier, atr_value);
                final(self).atr.true_range.prev_close == pc && final(self).atr.ema == ae
                    && v.upper_band == fp::add_bits(input, offset) && v.lower_band == fp::sub_bits(
                    input,
                    offset,
                )
            }),
    {
        let atr_value = match self.atr.next(input) {
            Ok(v) => v,
            Err(e) => {
                return Err(e);
            },
        };
        let offset = fp::fp_mul(self.multiplier, atr_value);
        Ok(SuperTrendOutput {
            upper_band: fp::fp_add(input, offset),
            lower_band: fp::fp_sub(input, offset),
        })
    }

    /// Feeds one bar: the ATR sees the full bar, the bands sit around the
    /// bar's median price `(high + low) / 2`.
    pub fn next_candle(&mut self, data: &MarketData) -> (r: TaResult<SuperTrendOutput>)
        ensures
            final(self).multiplier == old(self).multiplier,
            r matches Ok(v) && ({
                let (pc, t) = tr_step(
                    old(self).atr.true_range.prev_close,
                    data.spec_high(),
                    data.spec_low(),
                    data.spec_close(),
                );
                let (ae, atr_value) = ema_step(old(self).atr.ema, t);
                let mid = match *data {
                    MarketData::Bar(b) => fp::div_bits(fp::add_bits(b.high, b.low), fp::TWO_BITS),
                    MarketData::Float(x) => x,
                };
                let offset = fp::mul_bits(old(self).multiplier, atr_value);
                final(self).atr.true_range.prev_close == pc && final(self).atr.ema == ae
                    && v.upper_band == fp::add_bits(mid, offset) && v.lower_band == fp::sub_bits(
                    mid,
                    offset,
                )
            }),
    {
        let atr_value = match self.atr.next_candle(data) {
            Ok(v) => v,
            Err(e) => {
                return Err(e);
            },
        };
        let mid = data.median_price();
        let offset = fp::fp_mul(self.multiplier, atr_value);
        Ok(SuperTrendOutput {
            upper_band: fp::fp_add(mid, offset),
            lower_band: fp::fp_sub(mid, offset),
        })
    }

    /// Returns the smoothing ATR to its freshly constructed state.
    pub fn reset(&mut self)
        ensures
            final(self).multiplier == old(self).multiplier,
            final(self).atr.true_range.prev_close is None,
            old(self).wf() ==> final(self).atr.ema == ema_fresh(old(self).atr.ema.period),
    {
        self.atr.reset();
    }
}

} // verus!
