//! Bollinger bands.

use vstd::prelude::*;

use crate::error::TaResult;
use crate::fp;
use crate::indicators::sd::{sd_step, StandardDeviation};
use crate::strategy::market_data::MarketData;

verus! {

/// Bollinger bands: the rolling mean, and the mean shifted up and down by
/// `multiplier` standard deviations.
#[derive(Debug, Clone, PartialEq)]
pub struct BollingerBands {
    pub period: usize,
    pub multiplier: u64,
    pub sd: StandardDeviation,
}

/// One bands output: the middle, upper and lower band.
#[derive(Debug, Clone, Copy, PartialEq)]
pub struct BollingerBandsOutput {
    pub average: u64,
    pub upper: u64,
    pub lower: u64,
}

impl BollingerBandsOutput {
    /// The three bands in order: middle, upper, lower.
    pub fn to_vec(&self) -> (r: Vec<u64>)
        ensures
            r@ == seq![self.average, self.upper, self.lower],
    {
        let mut out: Vec<u64> = Vec::new();
        out.push(self.average);
        out.push(self.upper);
        out.push(self.lower);
        proof {
            assert(out@ =~= seq![self.average, self.upper, self.lower]);
        }
        out
    }
}

impl BollingerBands {
    /// The deviation tracker matches the period.
    pub open spec fn wf(&self) -> bool {
        self.sd.wf() && self.sd.period == self.period
    }

    /// Fresh bands. A zero period is rejected; the multiplier is any
    /// double's bit pattern.
    pub fn new(period: usize, multiplier: u64) -> (r: TaResult<BollingerBands>)
        ensures
            r is Ok <==> period >= 1,
            r matches Err(e) ==> e is InvalidParameter,
            r matches Ok(b) ==> b.wf() && b.period == period && b.multiplier == multiplier
                && b.sd.count == 0 && b.sd.index == 0 && b.sd.m == fp::ZERO_BITS && b.sd.m2
                == fp::ZERO_BITS && b.sd.deque@ == Seq::new(period as nat, |i: int| fp::ZERO_BITS),
    {
        match StandardDeviation::new(period) {
            Ok(sd) => Ok(BollingerBands { period, multiplier, sd }),
            Err(e) => Err(e),
        }
    }

    /// The period.
    pub fn period(&self) -> (r: usize)
        ensures
            r == self.period,
    {
        self.period
    }

    /// The band multiplier.
    pub fn multiplier(&self) -> (r: u64)
        ensures
            r == self.multiplier,
    {
        self.multiplier
    }

    /// Feeds one price; the middle band is the window's running mean, the
    /// outer bands sit `multiplier` standard deviations away.
    pub fn next(&mut self, input: u64) -> (r: TaResult<BollingerBandsOutput>)
        requires
            old(self).wf(),
        ensures
            final(self).wf(),
            final(self).period == old(self).period,
            final(self).multiplier == old(self).multiplier,
            final(self).sd.deque@ == old(self).sd.deque@.update(old(self).sd.index as int, input),
            (StandardDeviation { deque: old(self).sd.deque, ..final(self).sd }) == sd_step(
                old(self).sd,
                input,
            ).0,
            r matches Ok(v) && ({
                let sd = sd_step(old(self).sd, input).1;
                let mean = sd_step(old(self).sd, input).0.m;
                let offset = fp::mul_bits(sd, old(self).multiplier);
                v.average == mean && v.upper == fp::add_bits(mean, offset) && v.lower
                    == fp::sub_bits(mean, offset)
            }),
    {
        let sd = match self.sd.next(input) {
            Ok(v) => v,
            Err(e) => {
                return Err(e);
            },
        };
        let mean = self.sd.mean();
        let offset = fp::fp_mul(sd, self.multiplier);
        Ok(BollingerBandsOutput {
            average: mean,
            upper: fp::fp_add(mean, offset),
            lower: fp::fp_sub(mean, offset),
        })
    }

    /// Feeds one bar through its closing price.
    pub fn next_candle(&mut self, data: &MarketData) -> (r: TaResult<BollingerBandsOutput>)
        requires
            old(self).wf(),
        ensures
            final(self).wf(),
            final(self).period == old(self).period,
            final(self).multiplier == old(self).multiplier,
            final(self).sd.deque@ == old(self).sd.deque@.update(
                old(self).sd.index as int,
                data.spec_close(),
            ),
            (StandardDeviation { deque: old(self).sd.deque, ..final(self).sd }) == sd_step(
                old(self).sd,
                data.spec_close(),
            ).0,
            r matches Ok(v) && ({
                let sd = sd_step(old(self).sd, data.spec_close()).1;
                let mean = sd_step(old(self).sd, data.spec_close()).0.m;
                let offset = fp::mul_bits(sd, old(self).multiplier);
                v.average == mean && v.upper == fp::add_bits(mean, offset) && v.lower
                    == fp::sub_bits(mean, offset)
            }),
    {
        self.next(data.close())
    }

    /// Returns the deviation tracker to its freshly constructed state.
    pub fn reset(&mut self)
        requires
            old(self).wf(),
        ensures
            final(self).wf(),
            final(self).period == old(self).period,
            final(self).multiplier == old(self).multiplier,
            final(self).sd.count == 0 && final(self).sd.index == 0 && final(self).sd.m
                == fp::ZERO_BITS && final(self).sd.m2 == fp::ZERO_BITS,
            final(self).sd.deque@ == Seq::new(old(self).period as nat, |i: int| fp::ZERO_BITS),
    {
        self.sd.reset();
    }
}

impl Default for BollingerBands {
    /// Nine-bar bands at two standard deviations.
    fn default() -> (r: BollingerBands)
        ensures
            r.wf(),
            r.period == 9 && r.multiplier == fp::TWO_BITS && r.sd.count == 0,
    {
        BollingerBands { period: 9, multiplier: fp::TWO_BITS, sd: StandardDeviation::default() }
    }
}

} // verus!
