//! Alligator.

use vstd::prelude::*;

use crate::error::{TaError, TaResult};
use crate::fp;
use crate::helper_types::{window_push, Queue};
use crate::indicators::smma::{smma_out, smma_step_rel, SmoothedMovingAverage};
use crate::strategy::market_data::MarketData;

verus! {

/// Alligator: three smoothed moving averages (jaw, teeth, lips), each
/// pushed through a forward-shift window of its own; the output is the
/// delayed value of each line, or the oldest value still in the shift
/// window while it fills (zero while it is empty).
#[derive(Debug, Clone, PartialEq)]
pub struct Alligator {
    pub jaw: SmoothedMovingAverage,
    pub teeth: SmoothedMovingAverage,
    pub lips: SmoothedMovingAverage,
    pub jaw_buffer: Queue<u64>,
    pub teeth_buffer: Queue<u64>,
    pub lips_buffer: Queue<u64>,
}

/// What one shift-window push emits: the evicted value once the window
/// overflows, else the oldest value already waiting, else zero.
pub open spec fn shift_out(items: Seq<u64>, cap: nat, v: u64) -> u64 {
    match window_push(items, cap, v).0 {
        Some(evicted) => evicted,
        None => if items.len() > 0 {
            items[0]
        } else {
            fp::ZERO_BITS
        },
    }
}

impl Alligator {
    /// All three lines and shift windows are well formed.
    pub open spec fn wf(&self) -> bool {
        &&& self.jaw.wf() && self.teeth.wf() && self.lips.wf()
        &&& self.jaw_buffer.wf() && self.teeth_buffer.wf() && self.lips_buffer.wf()
    }

    /// A fresh alligator. Periods below two and shifts below one are
    /// rejected.
    pub fn new(
        jaw_period: usize,
        jaw_shift: usize,
        teeth_period: usize,
        teeth_shift: usize,
        lips_period: usize,
        lips_shift: usize,
    ) -> (r: TaResult<Alligator>)
        ensures
            r is Ok <==> (jaw_period >= 2 && teeth_period >= 2 && lips_period >= 2 && jaw_shift
                >= 1 && teeth_shift >= 1 && lips_shift >= 1),
            r matches Ok(a) ==> a.wf() && a.jaw.period == jaw_period && a.teeth.period
                == teeth_period && a.lips.period == lips_period && a.jaw_buffer.cap() == jaw_shift
                && a.teeth_buffer.cap() == teeth_shift && a.lips_buffer.cap() == lips_shift
                && a.jaw_buffer.items().len() == 0 && a.teeth_buffer.items().len() == 0
                && a.lips_buffer.items().len() == 0 && a.jaw.smma is None && a.teeth.smma is None
                && a.lips.smma is None && a.jaw.queue.items() =~= seq![fp::ZERO_BITS]
                && a.teeth.queue.items() =~= seq![fp::ZERO_BITS] && a.lips.queue.items()
                =~= seq![fp::ZERO_BITS],
            r matches Err(e) ==> e is InvalidParameter,
    {
        if jaw_period < 2 || teeth_period < 2 || lips_period < 2 {
            return Err(TaError::InvalidParameter("Periods must be at least 2".to_owned()));
        }
        if jaw_shift < 1 || teeth_shift < 1 || lips_shift < 1 {
            return Err(TaError::InvalidParameter("Shifts must be at least 1".to_owned()));
        }
        let jaw = match SmoothedMovingAverage::new(jaw_period) {
            Ok(s) => s,
            Err(e) => {
                return Err(e);
            },
        };
        let teeth = match SmoothedMovingAverage::new(teeth_period) {
            Ok(s) => s,
            Err(e) => {
                return Err(e);
            },
        };
        let lips = match SmoothedMovingAverage::new(lips_period) {
            Ok(s) => s,
            Err(e) => {
                return Err(e);
            },
        };
        let jaw_buffer = match Queue::new(jaw_shift) {
            Ok(q) => q,
            Err(e) => {
                return Err(e);
            },
        };
        let teeth_buffer = match Queue::new(teeth_shift) {
            Ok(q) => q,
            Err(e) => {
                return Err(e);
            },
        };
        let lips_buffer = match Queue::new(lips_shift) {
            Ok(q) => q,
            Err(e) => {
                return Err(e);
            },
        };
        Ok(Alligator { jaw, teeth, lips, jaw_buffer, teeth_buffer, lips_buffer })
    }

    /// The standard alligator: jaw (13, 8), teeth (8, 5), lips (5, 3).
    pub fn standard() -> (r: TaResult<Alligator>)
        ensures
            r is Ok,
            r matches Ok(a) ==> a.wf() && a.jaw.period == 13 && a.jaw_buffer.cap() == 8
                && a.teeth.period == 8 && a.teeth_buffer.cap() == 5 && a.lips.period == 5
                && a.lips_buffer.cap() == 3 && a.jaw_buffer.items().len() == 0
                && a.teeth_buffer.items().len() == 0 && a.lips_buffer.items().len() == 0
                && a.jaw.smma is None && a.teeth.smma is None && a.lips.smma is None
                && a.jaw.queue.items() =~= seq![fp::ZERO_BITS] && a.teeth.queue.items()
                =~= seq![fp::ZERO_BITS] && a.lips.queue.items() =~= seq![fp::ZERO_BITS],
    {
        Alligator::new(13, 8, 8, 5, 5, 3)
    }

    /// The warm-up bound: the largest period-plus-shift of the three lines.
    pub fn period(&self) -> (r: usize)
        requires
            self.jaw.period + self.jaw_buffer.cap() <= usize::MAX,
            self.teeth.period + self.teeth_buffer.cap() <= usize::MAX,
            self.lips.period + self.lips_buffer.cap() <= usize::MAX,
        ensures
            ({
                let j = self.jaw.period + self.jaw_buffer.cap();
                let t = self.teeth.period + self.teeth_buffer.cap();
                let l = self.lips.period + self.lips_buffer.cap();
                r == j || r == t || r == l
            }),
            r >= self.jaw.period + self.jaw_buffer.cap(),
            r >= self.teeth.period + self.teeth_buffer.cap(),
            r >= self.lips.period + self.lips_buffer.cap(),
    {
        let j = self.jaw.period() + self.jaw_buffer.period();
        let t = self.teeth.period() + self.teeth_buffer.period();
        let l = self.lips.period() + self.lips_buffer.period();
        let jt = if j >= t {
            j
        } else {
            t
        };
        if jt >= l {
            jt
        } else {
            l
        }
    }

    /// Feeds one price to all three lines and returns the three shifted
    /// values (jaw, teeth, lips).
    pub fn next(&mut self, input: u64) -> (r: TaResult<(u64, u64, u64)>)
        requires
            old(self).wf(),
        ensures
            final(self).wf(),
            final(self).jaw.period == old(self).jaw.period,
            final(self).teeth.period == old(self).teeth.period,
            final(self).lips.period == old(self).lips.period,
            final(self).jaw_buffer.cap() == old(self).jaw_buffer.cap(),
            final(self).teeth_buffer.cap() == old(self).teeth_buffer.cap(),
            final(self).lips_buffer.cap() == old(self).lips_buffer.cap(),
            smma_step_rel(old(self).jaw, final(self).jaw, input),
            smma_step_rel(old(self).teeth, final(self).teeth, input),
            smma_step_rel(old(self).lips, final(self).lips, input),
            r matches Ok(v) && ({
                let jv = smma_out(old(self).jaw, input);
                let tv = smma_out(old(self).teeth, input);
                let lv = smma_out(old(self).lips, input);
                &&& v.0 == shift_out(
                    old(self).jaw_buffer.items(),
                    old(self).jaw_buffer.cap() as nat,
                    jv,
                )
                &&& v.1 == shift_out(
                    old(self).teeth_buffer.items(),
                    old(self).teeth_buffer.cap() as nat,
                    tv,
                )
                &&& v.2 == shift_out(
                    old(self).lips_buffer.items(),
                    old(self).lips_buffer.cap() as nat,
                    lv,
                )
                &&& final(self).jaw_buffer.items() == window_push(
                    old(self).jaw_buffer.items(),
                    old(self).jaw_buffer.cap() as nat,
                    jv,
                ).1
                &&& final(self).teeth_buffer.items() == window_push(
                    old(self).teeth_buffer.items(),
                    old(self).teeth_buffer.cap() as nat,
                    tv,
                ).1
                &&& final(self).lips_buffer.items() == window_push(
                    old(self).lips_buffer.items(),
                    old(self).lips_buffer.cap() as nat,
                    lv,
                ).1
            }),
    {
        let jaw_val = match self.jaw.next(input) {
            Ok(v) => v,
            Err(e) => {
                return Err(e);
            },
        };
        let teeth_val = match self.teeth.next(input) {
            Ok(v) => v,
            Err(e) => {
                return Err(e);
            },
        };
        let lips_val = match self.lips.next(input) {
            Ok(v) => v,
            Err(e) => {
                return Err(e);
            },
        };
        let jaw_fallback: u64 = match self.jaw_buffer.first() {
            Some(x) => *x,
            None => fp::ZERO_BITS,
        };
        let jaw_shifted: u64 = match self.jaw_buffer.push(jaw_val) {
            Some(evicted) => evicted,
            None => jaw_fallback,
        };
        let teeth_fallback: u64 = match self.teeth_buffer.first() {
            Some(x) => *x,
            None => fp::ZERO_BITS,
        };
        let teeth_shifted: u64 = match self.teeth_buffer.push(teeth_val) {
            Some(evicted) => evicted,
            None => teeth_fallback,
        };
        let lips_fallback: u64 = match self.lips_buffer.first() {
            Some(x) => *x,
            None => fp::ZERO_BITS,
        };
        let lips_shifted: u64 = match self.lips_buffer.push(lips_val) {
            Some(evicted) => evicted,
            None => lips_fallback,
        };
        Ok((jaw_shifted, teeth_shifted, lips_shifted))
    }

    /// Feeds one bar through its median price `(high + low) / 2`.
    pub fn next_candle(&mut self, data: &MarketData) -> (r: TaResult<(u64, u64, u64)>)
        requires
            old(self).wf(),
        ensures
            final(self).wf(),
            final(self).jaw.period == old(self).jaw.period,
            final(self).teeth.period == old(self).teeth.period,
            final(self).lips.period == old(self).lips.period,
            final(self).jaw_buffer.cap() == old(self).jaw_buffer.cap(),
            final(self).teeth_buffer.cap() == old(self).teeth_buffer.cap(),
            final(self).lips_buffer.cap() == old(self).lips_buffer.cap(),
            smma_step_rel(old(self).jaw, final(self).jaw, data.spec_median()),
            smma_step_rel(old(self).teeth, final(self).teeth, data.spec_median()),
            smma_step_rel(old(self).lips, final(self).lips, data.spec_median()),
            r matches Ok(v) && ({
                let jv = smma_out(old(self).jaw, data.spec_median());
                let tv = smma_out(old(self).teeth, data.spec_median());
                let lv = smma_out(old(self).lips, data.spec_median());
                &&& v.0 == shift_out(
                    old(self).jaw_buffer.items(),
                    old(self).jaw_buffer.cap() as nat,
                    jv,
                )
                &&& v.1 == shift_out(
                    old(self).teeth_buffer.items(),
                    old(self).teeth_buffer.cap() as nat,
                    tv,
                )
                &&& v.2 == shift_out(
                    old(self).lips_buffer.items(),
                    old(self).lips_buffer.cap() as nat,
                    lv,
                )
                &&& final(self).jaw_buffer.items() == window_push(
                    old(self).jaw_buffer.items(),
                    old(self).jaw_buffer.cap() as nat,
                    jv,
                ).1
                &&& final(self).teeth_buffer.items() == window_push(
                    old(self).teeth_buffer.items(),
                    old(self).teeth_buffer.cap() as nat,
                    tv,
                ).1
                &&& final(self).lips_buffer.items() == window_push(
                    old(self).lips_buffer.items(),
                    old(self).lips_buffer.cap() as nat,
                    lv,
                ).1
            }),
    {
        self.next(data.median_price())
    }

    /// Returns every line and shift window to its freshly constructed
    /// state.
    pub fn reset(&mut self)
        requires
            old(self).wf(),
        ensures
            final(self).wf(),
            final(self).jaw.period == old(self).jaw.period,
            final(self).teeth.period == old(self).teeth.period,
            final(self).lips.period == old(self).lips.period,
            final(self).jaw_buffer.cap() == old(self).jaw_buffer.cap(),
            final(self).teeth_buffer.cap() == old(self).teeth_buffer.cap(),
            final(self).lips_buffer.cap() == old(self).lips_buffer.cap(),
            final(self).jaw.smma is None && final(self).teeth.smma is None && final(self).lips.smma is None,
            final(self).jaw.queue.items() =~= seq![fp::ZERO_BITS],
            final(self).teeth.queue.items() =~= seq![fp::ZERO_BITS],
            final(self).lips.queue.items() =~= seq![fp::ZERO_BITS],
            final(self).jaw_buffer.items().len() == 0,
            final(self).teeth_buffer.items().len() == 0,
            final(self).lips_buffer.items().len() == 0,
    {
        self.jaw.reset();
        self.teeth.reset();
        self.lips.reset();
        self.jaw_buffer.reset();
        self.teeth_buffer.reset();
        self.lips_buffer.reset();
    }
}

} // verus!
