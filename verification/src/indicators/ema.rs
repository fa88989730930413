//! Exponential moving average.

use vstd::prelude::*;

use crate::error::{TaError, TaResult};
use crate::fp;
use crate::strategy::market_data::MarketData;

verus! {

/// Exponential moving average: the first input seeds the average, every
/// later input is blended in with weight `k = 2 / (period + 1)`.
#[derive(Debug, Clone, PartialEq)]
pub struct ExponentialMovingAverage {
    pub period: usize,
    pub k: u64,
    pub current: u64,
    pub is_new: bool,
}

/// The smoothing factor `2 / (period + 1)` of an EMA of the given period.
pub open spec fn ema_k(period: usize) -> u64 {
    fp::div_bits(fp::TWO_BITS, fp::of_u64_bits((period + 1) as u64))
}

/// A freshly constructed EMA of the given period.
pub open spec fn ema_fresh(period: usize) -> ExponentialMovingAverage {
    ExponentialMovingAverage {
        period,
        k: ema_k(period),
        current: fp::ZERO_BITS,
        is_new: true,
    }
}

/// One EMA step: the state after feeding `input`, and the output.
pub open spec fn ema_step(e: ExponentialMovingAverage, input: u64) -> (
    ExponentialMovingAverage,
    u64,
) {
    let c = if e.is_new {
        input
    } else {
        fp::add_bits(fp::mul_bits(e.k, input), fp::mul_bits(fp::sub_bits(fp::ONE_BITS, e.k), e.current))
    };
    (ExponentialMovingAverage { current: c, is_new: false, ..e }, c)
}

impl ExponentialMovingAverage {
    /// The EMA's state is as construction and stepping leave it.
    pub open spec fn wf(&self) -> bool {
        self.period >= 1 && self.k == ema_k(self.period)
    }

    /// A fresh EMA. A zero period is rejected.
    pub fn new(period: usize) -> (r: TaResult<ExponentialMovingAverage>)
        requires
            period < usize::MAX,
        ensures
            r is Ok <==> period >= 1,
            r matches Err(e) ==> e is InvalidParameter,
            r matches Ok(e) ==> e == ema_fresh(period) && e.wf(),
    {
        match period {
            0 => Err(TaError::InvalidParameter("0".to_owned())),
            _ => {
                let denom = fp::fp_from_u64((period as u64) + 1);
                Ok(ExponentialMovingAverage {
                    period,
                    k: fp::fp_div(fp::TWO_BITS, denom),
                    current: fp::ZERO_BITS,
                    is_new: true,
                })
            },
        }
    }

    /// The period.
    pub fn period(&self) -> (r: usize)
        ensures
            r == self.period,
    {
        self.period
    }

    /// Feeds one price: the first call returns the input unchanged, later
    /// calls return `k * input + (1 - k) * current`.
    pub fn next(&mut self, input: u64) -> (r: TaResult<u64>)
        ensures
            r matches Ok(v) && (v, *final(self)) == (
                ema_step(*old(self), input).1,
                ema_step(*old(self), input).0,
            ),
    {
        if self.is_new {
            self.is_new = false;
            self.current = input;
        } else {
            let weighted = fp::fp_mul(self.k, input);
            let carry = fp::fp_mul(fp::fp_sub(fp::ONE_BITS, self.k), self.current);
            self.current = fp::fp_add(weighted, carry);
        }
        Ok(self.current)
    }

    /// Feeds one bar through its closing price.
    pub fn next_candle(&mut self, data: &MarketData) -> (r: TaResult<u64>)
        ensures
            r matches Ok(v) && (v, *final(self)) == (
                ema_step(*old(self), data.spec_close()).1,
                ema_step(*old(self), data.spec_close()).0,
            ),
    {
        self.next(data.close())
    }

    /// Returns the EMA to its freshly constructed state.
    pub fn reset(&mut self)
        ensures
            *final(self) == (ExponentialMovingAverage {
                current: fp::ZERO_BITS,
                is_new: true,
                ..*old(self)
            }),
            old(self).wf() ==> *final(self) == ema_fresh(old(self).period),
    {
        self.current = fp::ZERO_BITS;
        self.is_new = true;
    }
}

impl Default for ExponentialMovingAverage {
    /// The conventional nine-bar EMA.
    fn default() -> (r: ExponentialMovingAverage)
        ensures
            r == ema_fresh(9usize),
            r.wf(),
    {
        let denom = fp::fp_from_u64(10);
        ExponentialMovingAverage {
            period: 9,
            k: fp::fp_div(fp::TWO_BITS, denom),
            current: fp::ZERO_BITS,
            is_new: true,
        }
    }
}

} // verus!
