//! Mean absolute error.

use vstd::prelude::*;

use crate::error::{TaError, TaResult};
use crate::fp;
use crate::helper_types::{window_push, Queue};
use crate::indicators::{mean_bits, mean_window, sum_bits};
use crate::strategy::market_data::MarketData;

verus! {

/// The IEEE-754 sum of the absolute deviations of a window's contents from
/// `mean`, added left to right starting from `0.0`.
pub open spec fn absdev_sum_bits(s: Seq<u64>, mean: u64) -> u64
    decreases s.len(),
{
    if s.len() == 0 {
        fp::ZERO_BITS
    } else {
        fp::add_bits(
            absdev_sum_bits(s.drop_last(), mean),
            fp::mag_bits(fp::sub_bits(s.last(), mean)),
        )
    }
}

/// Mean absolute error: the mean absolute deviation of a rolling window of
/// up to `period` values from the window's own mean.
#[derive(Debug, Clone, PartialEq)]
pub struct MeanAbsoluteError {
    pub period: usize,
    pub values: Queue<u64>,
    pub mean: u64,
}

impl MeanAbsoluteError {
    /// The window matches the period.
    pub open spec fn wf(&self) -> bool {
        self.period >= 1 && self.values.wf() && self.values.cap() == self.period
    }

    /// A fresh tracker. A zero period is rejected.
    pub fn new(period: usize) -> (r: TaResult<MeanAbsoluteError>)
        ensures
            r is Ok <==> period >= 1,
            r matches Err(e) ==> e is InvalidParameter,
            r matches Ok(m) ==> m.wf() && m.period == period && m.values.items().len() == 0
                && m.mean == fp::ZERO_BITS,
    {
        if period == 0 {
            return Err(TaError::InvalidParameter("Period must be greater than 0".to_owned()));
        }
        let values = match Queue::new(period) {
            Ok(q) => q,
            Err(e) => {
                return Err(e);
            },
        };
        Ok(MeanAbsoluteError { period, values, mean: fp::ZERO_BITS })
    }

    /// The period.
    pub fn period(&self) -> (r: usize)
        ensures
            r == self.period,
    {
        self.period
    }

    /// Feeds one price: recomputes the window mean and returns the mean
    /// absolute deviation from it.
    pub fn next(&mut self, input: u64) -> (r: TaResult<u64>)
        requires
            old(self).wf(),
        ensures
            final(self).wf(),
            final(self).period == old(self).period,
            final(self).values.items() == window_push(
                old(self).values.items(),
                old(self).period as nat,
                input,
            ).1,
            final(self).mean == mean_bits(final(self).values.items()),
            r matches Ok(v) && v == fp::div_bits(
                absdev_sum_bits(final(self).values.items(), final(self).mean),
                fp::of_u64_bits(final(self).values.items().len() as u64),
            ),
    {
        let _ = self.values.push(input);
        self.mean = mean_window(&self.values);
        let n = self.values.len();
        let mut acc: u64 = fp::ZERO_BITS;
        let mut i: usize = 0;
        while i < n
            invariant
                n == self.values.items().len(),
                i <= n,
                acc == absdev_sum_bits(self.values.items().subrange(0, i as int), self.mean),
            decreases n - i,
        {
            proof {
                assert(self.values.items().subrange(0, i + 1).drop_last()
                    =~= self.values.items().subrange(0, i as int));
                assert(self.values.items().subrange(0, i + 1).last() == self.values.items()[i as int]);
            }
            let dev = fp::fp_abs(fp::fp_sub(*self.values.get(i), self.mean));
            acc = fp::fp_add(acc, dev);
            i = i + 1;
        }
        proof {
            assert(self.values.items().subrange(0, self.values.items().len() as int)
                =~= self.values.items());
        }
        Ok(fp::fp_div(acc, fp::fp_from_u64(n as u64)))
    }

    /// Feeds one bar through its closing price.
    pub fn next_candle(&mut self, data: &MarketData) -> (r: TaResult<u64>)
        requires
            old(self).wf(),
        ensures
            final(self).wf(),
            final(self).period == old(self).period,
            final(self).values.items() == window_push(
                old(self).values.items(),
                old(self).period as nat,
                data.spec_close(),
            ).1,
            final(self).mean == mean_bits(final(self).values.items()),
            r matches Ok(v) && v == fp::div_bits(
                absdev_sum_bits(final(self).values.items(), final(self).mean),
                fp::of_u64_bits(final(self).values.items().len() as u64),
            ),
    {
        self.next(data.close())
    }

    /// Empties the window and zeroes the mean.
    pub fn reset(&mut self)
        requires
            old(self).wf(),
        ensures
            final(self).wf(),
            final(self).period == old(self).period,
            final(self).values.items().len() == 0,
            final(self).mean == fp::ZERO_BITS,
    {
        self.values.reset();
        self.mean = fp::ZERO_BITS;
    }
}

} // verus!
