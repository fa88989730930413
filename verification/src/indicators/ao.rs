//! Awesome oscillator.

use vstd::prelude::*;

use crate::error::TaResult;
use crate::fp;
use crate::helper_types::window_push;
use crate::indicators::mean_bits;
use crate::indicators::sma::SimpleMovingAverage;
use crate::strategy::market_data::MarketData;

verus! {

/// Awesome oscillator: a short SMA minus a long SMA, both fed the same
/// price; the median price for bar input.
#[derive(Debug, Clone, PartialEq)]
pub struct AwesomeOscillator {
    pub long_sma: SimpleMovingAverage,
    pub short_sma: SimpleMovingAverage,
}

impl AwesomeOscillator {
    /// Both windows are in bounds.
    pub open spec fn wf(&self) -> bool {
        self.long_sma.wf() && self.short_sma.wf()
    }

    /// A fresh oscillator. A zero period on either side is rejected.
    pub fn new(short_period: usize, long_period: usize) -> (r: TaResult<AwesomeOscillator>)
        ensures
            r is Ok <==> (short_period >= 1 && long_period >= 1),
            r matches Err(e) ==> e is InvalidParameter,
            r matches Ok(a) ==> a.wf() && a.short_sma.window.cap() == short_period
                && a.long_sma.window.cap() == long_period && a.short_sma.window.items().len() == 0
                && a.long_sma.window.items().len() == 0,
    {
        let long_sma = match SimpleMovingAverage::new(long_period) {
            Ok(s) => s,
            Err(e) => {
                return Err(e);
            },
        };
        let short_sma = match SimpleMovingAverage::new(short_period) {
            Ok(s) => s,
            Err(e) => {
                return Err(e);
            },
        };
        Ok(AwesomeOscillator { long_sma, short_sma })
    }

    /// The longer of the two periods.
    pub fn period(&self) -> (r: usize)
        ensures
            r == if self.long_sma.window.cap() >= self.short_sma.window.cap() {
                self.long_sma.window.cap()
            } else {
                self.short_sma.window.cap()
            },
    {
        let l = self.long_sma.period();
        let s = self.short_sma.period();
        if l >= s {
            l
        } else {
            s
        }
    }

    /// Feeds one price into both windows and returns short mean minus long
    /// mean.
    pub fn next(&mut self, input: u64) -> (r: TaResult<u64>)
        requires
            old(self).wf(),
        ensures
            final(self).wf(),
            final(self).short_sma.window.cap() == old(self).short_sma.window.cap(),
            final(self).long_sma.window.cap() == old(self).long_sma.window.cap(),
            final(self).short_sma.window.items() == window_push(
                old(self).short_sma.window.items(),
                old(self).short_sma.window.cap() as nat,
                input,
            ).1,
            final(self).long_sma.window.items() == window_push(
                old(self).long_sma.window.items(),
                old(self).long_sma.window.cap() as nat,
                input,
            ).1,
            r matches Ok(v) && v == fp::sub_bits(
                mean_bits(final(self).short_sma.window.items()),
                mean_bits(final(self).long_sma.window.items()),
            ),
    {
        let short_value = match self.short_sma.next(input) {
            Ok(v) => v,
            Err(e) => {
                return Err(e);
            },
        };
        let long_value = match self.long_sma.next(input) {
            Ok(v) => v,
            Err(e) => {
                return Err(e);
            },
        };
        Ok(fp::fp_sub(short_value, long_value))
    }

    /// Feeds one bar through its median price `(high + low) / 2`.
    pub fn next_candle(&mut self, data: &MarketData) -> (r: TaResult<u64>)
        requires
            old(self).wf(),
        ensures
            final(self).wf(),
            final(self).short_sma.window.cap() == old(self).short_sma.window.cap(),
            final(self).long_sma.window.cap() == old(self).long_sma.window.cap(),
            ({
                let mp = match *data {
                    MarketData::Bar(b) => fp::div_bits(fp::add_bits(b.high, b.low), fp::TWO_BITS),
                    MarketData::Float(x) => x,
                };
                &&& final(self).short_sma.window.items() == window_push(
                    old(self).short_sma.window.items(),
                    old(self).short_sma.window.cap() as nat,
                    mp,
                ).1
                &&& final(self).long_sma.window.items() == window_push(
                    old(self).long_sma.window.items(),
                    old(self).long_sma.window.cap() as nat,
                    mp,
                ).1
            }),
            r matches Ok(v) && v == fp::sub_bits(
                mean_bits(final(self).short_sma.window.items()),
                mean_bits(final(self).long_sma.window.items()),
            ),
    {
        let mp = data.median_price();
        self.next(mp)
    }

    /// Empties both windows.
    pub fn reset(&mut self)
        requires
            old(self).wf(),
        ensures
            final(self).wf(),
            final(self).short_sma.window.cap() == old(self).short_sma.window.cap(),
            final(self).long_sma.window.cap() == old(self).long_sma.window.cap(),
            final(self).short_sma.window.items().len() == 0,
            final(self).long_sma.window.items().len() == 0,
    {
        self.long_sma.reset();
        self.short_sma.reset();
    }
}

} // verus!
