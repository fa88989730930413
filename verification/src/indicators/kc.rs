//! Keltner channel.

use vstd::prelude::*;

use crate::error::{TaError, TaResult};
use crate::fp;
use crate::indicators::atr::AverageTrueRange;
use crate::indicators::ema::{ema_fresh, ema_step, ExponentialMovingAverage};
use crate::indicators::tr::tr_step;
use crate::strategy::market_data::MarketData;

verus! {

/// Keltner channel: an EMA middle line shifted up and down by `multiplier`
/// average true ranges; the typical price for bar input.
#[derive(Debug, Clone, PartialEq)]
pub struct KeltnerChannel {
    pub multiplier: u64,
    pub atr: AverageTrueRange,
    pub ema: ExponentialMovingAverage,
}

/// One channel output: the upper, middle and lower band.
#[derive(Debug, Clone, Copy, PartialEq)]
pub struct KeltnerChannelOutput {
    pub upper_band: u64,
    pub middle_band: u64,
    pub lower_band: u64,
}

impl KeltnerChannelOutput {
    /// The three bands in order: upper, middle, lower.
    pub fn to_vec(&self) -> (r: Vec<u64>)
        ensures
            r@ == seq![self.upper_band, self.middle_band, self.lower_band],
    {
        let mut out: Vec<u64> = Vec::new();
        out.push(self.upper_band);
        out.push(self.middle_band);
        out.push(self.lower_band);
        proof {
            assert(out@ =~= seq![self.upper_band, self.middle_band, self.lower_band]);
        }
        out
    }
}

impl KeltnerChannel {
    /// Both smoothing parts are well formed and share the period.
    pub open spec fn wf(&self) -> bool {
        self.atr.wf() && self.ema.wf() && self.atr.ema.period == self.ema.period
    }

    /// A fresh channel. A zero period is rejected.
    pub fn new(period: usize, multiplier: u64) -> (r: TaResult<KeltnerChannel>)
        requires
            period < usize::MAX,
        ensures
            r is Ok <==> period >= 1,
            r matches Err(e) ==> e is InvalidParameter,
            r matches Ok(k) ==> k.wf() && k.multiplier == multiplier && k.ema == ema_fresh(period)
                && k.atr.ema == ema_fresh(period) && k.atr.true_range.prev_close is None,
    {
        if period == 0 {
            return Err(TaError::InvalidParameter("Period must be greater than 0".to_owned()));
        }
        let atr = match AverageTrueRange::new(period) {
            Ok(a) => a,
            Err(e) => {
                return Err(e);
            },
        };
        let ema = match ExponentialMovingAverage::new(period) {
            Ok(e) => e,
            Err(e) => {
                return Err(e);
            },
        };
        Ok(KeltnerChannel { multiplier, atr, ema })
    }

    /// The period.
    pub fn period(&self) -> (r: usize)
        ensures
            r == self.ema.period,
    {
        self.ema.period()
    }

    /// The band multiplier.
    pub fn multiplier(&self) -> (r: u64)
        ensures
            r == self.multiplier,
    {
        self.multiplier
    }

    /// Feeds one price into the ATR and the EMA and returns the three
    /// bands.
    pub fn next(&mut self, input: u64) -> (r: TaResult<KeltnerChannelOutput>)
        ensures
            final(self).multiplier == old(self).multiplier,
            r matches Ok(v) && ({
                let (pc, t) = tr_step(old(self).atr.true_range.prev_close, input, input, input);
                let (ae, atr_value) = ema_step(old(self).atr.ema, t);
                let (me, ema_value) = ema_step(old(self).ema, input);
                let offset = fp::mul_bits(old(self).multiplier, atr_value);
                final(self).atr.true_range.prev_close == pc && final(self).atr.ema == ae && final(self).ema == me && v.middle_band == ema_value && v.upper_band == fp::add_bits(
                    ema_value,
                    offset,
                ) && v.lower_band == fp::sub_bits(ema_value, offset)
            }),
    {
        let atr_value = match self.atr.next(input) {
            Ok(v) => v,
            Err(e) => {
                return Err(e);
            },
        };
        let ema_value = match self.ema.next(input) {
            Ok(v) => v,
            Err(e) => {
                return Err(e);
            },
        };
        let offset = fp::fp_mul(self.multiplier, atr_value);
        Ok(KeltnerChannelOutput {
            upper_band: fp::fp_add(ema_value, offset),
            middle_band: ema_value,
            lower_band: fp::fp_sub(ema_value, offset),
        })
    }

    /// Feeds one bar through its typical price `(high + low + close) / 3`,
    /// which both the ATR and the EMA consume as a bare price.
    pub fn next_candle(&mut self, data: &MarketData) -> (r: TaResult<KeltnerChannelOutput>)
        ensures
            final(self).multiplier == old(self).multiplier,
            r matches Ok(v) && ({
                let tp = match *data {
                    MarketData::Bar(b) => fp::div_bits(
                        fp::add_bits(fp::add_bits(b.high, b.low), b.close),
                        fp::THREE_BITS,
                    ),
                    MarketData::Float(x) => x,
                };
                let (pc, t) = tr_step(old(self).atr.true_range.prev_close, tp, tp, tp);
                let (ae, atr_value) = ema_step(old(self).atr.ema, t);
                let (me, ema_value) = ema_step(old(self).ema, tp);
                let offset = fp::mul_bits(old(self).multiplier, atr_value);
                final(self).atr.true_range.prev_close == pc && final(self).atr.ema == ae && final(self).ema == me && v.middle_band == ema_value && v.upper_band == fp::add_bits(
                    ema_value,
                    offset,
                ) && v.lower_band == fp::sub_bits(ema_value, offset)
            }),
    {
        let tp = data.typical_price();
        self.next(tp)
    }

    /// Returns both parts to their freshly constructed state.
    pub fn reset(&mut self)
        ensures
            final(self).multiplier == old(self).multiplier,
            final(self).atr.true_range.prev_close is None,
            old(self).wf() ==> final(self).atr.ema == ema_fresh(old(self).atr.ema.period) && final(self).ema == ema_fresh(old(self).ema.period),
    {
        self.atr.reset();
        self.ema.reset();
    }
}

} // verus!
