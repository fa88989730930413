//! Simple moving average.

use vstd::prelude::*;

use crate::error::TaResult;
use crate::helper_types::{window_push, Queue};
use crate::indicators::{mean_bits, mean_window};
use crate::strategy::market_data::MarketData;

verus! {

/// Simple moving average: the arithmetic mean of the last `period` inputs.
/// Before the window fills it returns the mean of however many inputs have
/// been seen.
#[derive(Debug, Clone, PartialEq)]
pub struct SimpleMovingAverage {
    pub window: Queue<u64>,
}

impl SimpleMovingAverage {
    /// The window is in bounds.
    pub open spec fn wf(&self) -> bool {
        self.window.wf()
    }

    /// A fresh SMA. A zero period is rejected.
    pub fn new(period: usize) -> (r: TaResult<SimpleMovingAverage>)
        ensures
            r is Ok <==> period >= 1,
            r matches Err(e) ==> e is InvalidParameter,
            r matches Ok(s) ==> s.wf() && s.window.cap() == period && s.window.items().len() == 0,
    {
        match Queue::new(period) {
            Ok(window) => Ok(SimpleMovingAverage { window }),
            Err(e) => Err(e),
        }
    }

    /// The period.
    pub fn period(&self) -> (r: usize)
        ensures
            r == self.window.cap(),
    {
        self.window.period()
    }

    /// Feeds one price and returns the mean of the window's contents.
    pub fn next(&mut self, input: u64) -> (r: TaResult<u64>)
        requires
            old(self).wf(),
        ensures
            final(self).wf(),
            final(self).window.cap() == old(self).window.cap(),
            final(self).window.items() == window_push(
                old(self).window.items(),
                old(self).window.cap() as nat,
                input,
            ).1,
            r matches Ok(v) && v == mean_bits(final(self).window.items()),
    {
        let _ = self.window.push(input);
        Ok(mean_window(&self.window))
    }

    /// Feeds one bar through its closing price.
    pub fn next_candle(&mut self, data: &MarketData) -> (r: TaResult<u64>)
        requires
            old(self).wf(),
        ensures
            final(self).wf(),
            final(self).window.cap() == old(self).window.cap(),
            final(self).window.items() == window_push(
                old(self).window.items(),
                old(self).window.cap() as nat,
                data.spec_close(),
            ).1,
            r matches Ok(v) && v == mean_bits(final(self).window.items()),
    {
        self.next(data.close())
    }

    /// Empties the window.
    pub fn reset(&mut self)
        requires
            old(self).wf(),
        ensures
            final(self).wf(),
            final(self).window.cap() == old(self).window.cap(),
            final(self).window.items().len() == 0,
    {
        self.window.reset();
    }
}

} // verus!
