//! Rolling standard deviation (Welford's online algorithm).

use vstd::prelude::*;

use crate::error::{TaError, TaResult};
use crate::fp;
use crate::fsqrt;
use crate::strategy::market_data::MarketData;

verus! {

/// Rolling standard deviation over a window of `period` values, by
/// Welford's online algorithm with an old-value correction once the window
/// is full. The sum of squared deviations is clamped at zero so floating
/// error can never drive the variance negative.
#[derive(Debug, Clone, PartialEq)]
pub struct StandardDeviation {
    pub period: usize,
    pub index: usize,
    pub count: usize,
    pub m: u64,
    pub m2: u64,
    pub deque: Vec<u64>,
}

/// What one Welford step does to the running mean and squared-deviation sum.
pub open spec fn sd_step(s: StandardDeviation, input: u64) -> (StandardDeviation, u64) {
    let old_val = s.deque[s.index as int];
    let deque = s.deque@.update(s.index as int, input);
    let index = if s.index + 1 < s.period {
        (s.index + 1) as usize
    } else {
        0
    };
    let growing = s.count < s.period;
    let count = if growing {
        (s.count + 1) as usize
    } else {
        s.count
    };
    let delta = if growing {
        fp::sub_bits(input, s.m)
    } else {
        fp::sub_bits(input, old_val)
    };
    let m = if growing {
        fp::add_bits(s.m, fp::div_bits(delta, fp::of_u64_bits(count as u64)))
    } else {
        fp::add_bits(s.m, fp::div_bits(delta, fp::of_u64_bits(s.period as u64)))
    };
    let delta2 = if growing {
        fp::sub_bits(input, m)
    } else {
        fp::sub_bits(fp::add_bits(fp::sub_bits(input, m), old_val), s.m)
    };
    let m2_raw = fp::add_bits(s.m2, fp::mul_bits(delta, delta2));
    let m2 = if fp::lt_bits(m2_raw, fp::ZERO_BITS) {
        fp::ZERO_BITS
    } else {
        m2_raw
    };
    let out = fsqrt::sqrt_bits(fp::div_bits(m2, fp::of_u64_bits(count as u64)));
    (
        StandardDeviation {
            period: s.period,
            index,
            count,
            m,
            m2,
            // the buffer's new contents are stated by the caller over its view
            deque: s.deque,
        },
        out,
    )
}

impl StandardDeviation {
    /// The buffer matches the period and the counters are in range.
    pub open spec fn wf(&self) -> bool {
        &&& self.period >= 1
        &&& self.deque@.len() == self.period
        &&& self.index < self.period
        &&& self.count <= self.period
    }

    /// A fresh deviation tracker. A zero period is rejected.
    pub fn new(period: usize) -> (r: TaResult<StandardDeviation>)
        ensures
            r is Ok <==> period >= 1,
            r matches Err(e) ==> e is InvalidParameter,
            r matches Ok(s) ==> s.wf() && s.period == period && s.index == 0 && s.count == 0
                && s.m == fp::ZERO_BITS && s.m2 == fp::ZERO_BITS && s.deque@ == Seq::new(
                period as nat,
                |i: int| fp::ZERO_BITS,
            ),
    {
        if period == 0 {
            return Err(TaError::InvalidParameter("Period must be greater than 0".to_owned()));
        }
        let mut deque: Vec<u64> = Vec::new();
        let mut i: usize = 0;
        while i < period
            invariant
                i <= period,
                deque@.len() == i,
                forall|k: int| 0 <= k < i ==> deque@[k] == fp::ZERO_BITS,
            decreases period - i,
        {
            deque.push(fp::ZERO_BITS);
            i = i + 1;
        }
        proof {
            assert(deque@ =~= Seq::new(period as nat, |i: int| fp::ZERO_BITS));
        }
        Ok(StandardDeviation {
            period,
            index: 0,
            count: 0,
            m: fp::ZERO_BITS,
            m2: fp::ZERO_BITS,
            deque,
        })
    }

    /// The period.
    pub fn period(&self) -> (r: usize)
        ensures
            r == self.period,
    {
        self.period
    }

    /// The running mean of the window.
    pub fn mean(&self) -> (r: u64)
        ensures
            r == self.m,
    {
        self.m
    }

    /// Feeds one price and returns the standard deviation of the window:
    /// `sqrt(m2 / count)`. The result is never a negative number.
    pub fn next(&mut self, input: u64) -> (r: TaResult<u64>)
        requires
            old(self).wf(),
        ensures
            final(self).wf(),
            final(self).period == old(self).period,
            r matches Ok(v) && v == sd_step(*old(self), input).1,
            final(self).deque@ == old(self).deque@.update(old(self).index as int, input),
            (StandardDeviation { deque: old(self).deque, ..*final(self) }) == sd_step(
                *old(self),
                input,
            ).0,
            r matches Ok(v) && !fp::is_nan_bits(v) ==> fp::ge_bits(
                r->Ok_0,
                fp::ZERO_BITS,
            ),
    {
        proof {
            assert(0u64 & 0x7FFF_FFFF_FFFF_FFFFu64 == 0 && 0u64 & 0x8000_0000_0000_0000u64 == 0)
                by (bit_vector);
        }
        let old_val = self.deque[self.index];
        self.deque.set(self.index, input);

        self.index = if self.index + 1 < self.period {
            self.index + 1
        } else {
            0
        };

        let delta: u64;
        let delta2: u64;
        if self.count < self.period {
            self.count = self.count + 1;
            delta = fp::fp_sub(input, self.m);
            self.m = fp::fp_add(self.m, fp::fp_div(delta, fp::fp_from_u64(self.count as u64)));
            delta2 = fp::fp_sub(input, self.m);
        } else {
            delta = fp::fp_sub(input, old_val);
            let old_m = self.m;
            self.m = fp::fp_add(self.m, fp::fp_div(delta, fp::fp_from_u64(self.period as u64)));
            delta2 = fp::fp_sub(fp::fp_add(fp::fp_sub(input, self.m), old_val), old_m);
        }
        self.m2 = fp::fp_add(self.m2, fp::fp_mul(delta, delta2));
        if fp::fp_lt(self.m2, fp::ZERO_BITS) {
            self.m2 = fp::ZERO_BITS;
        }
        proof {
            if !fp::is_nan_bits(self.m2) {
                fp::lemma_cmp_trichotomy(self.m2, fp::ZERO_BITS);
            }
        }
        let cnt = fp::fp_from_u64(self.count as u64);
        let variance = fp::fp_div(self.m2, cnt);
        let out = fsqrt::fp_sqrt(variance);
        Ok(out)
    }

    /// Feeds one bar through its closing price.
    pub fn next_candle(&mut self, data: &MarketData) -> (r: TaResult<u64>)
        requires
            old(self).wf(),
        ensures
            final(self).wf(),
            final(self).period == old(self).period,
            r matches Ok(v) && v == sd_step(*old(self), data.spec_close()).1,
            final(self).deque@ == old(self).deque@.update(
                old(self).index as int,
                data.spec_close(),
            ),
            (StandardDeviation { deque: old(self).deque, ..*final(self) }) == sd_step(
                *old(self),
                data.spec_close(),
            ).0,
            r matches Ok(v) && !fp::is_nan_bits(v) ==> fp::ge_bits(r->Ok_0, fp::ZERO_BITS),
    {
        self.next(data.close())
    }

    /// Returns the tracker to its freshly constructed state.
    pub fn reset(&mut self)
        requires
            old(self).wf(),
        ensures
            final(self).wf(),
            final(self).period == old(self).period,
            final(self).index == 0,
            final(self).count == 0,
            final(self).m == fp::ZERO_BITS,
            final(self).m2 == fp::ZERO_BITS,
            final(self).deque@ == Seq::new(old(self).period as nat, |i: int| fp::ZERO_BITS),
    {
        self.index = 0;
        self.count = 0;
        self.m = fp::ZERO_BITS;
        self.m2 = fp::ZERO_BITS;
        let mut i: usize = 0;
        let n = self.period;
        while i < n
            invariant
                i <= n,
                self.deque@.len() == old(self).deque@.len(),
                n == self.period,
                self.period == old(self).period,
                self.index == 0,
                self.count == 0,
                self.m == fp::ZERO_BITS,
                self.m2 == fp::ZERO_BITS,
                old(self).wf(),
                forall|k: int| 0 <= k < i ==> self.deque@[k] == fp::ZERO_BITS,
            decreases n - i,
        {
            self.deque.set(i, fp::ZERO_BITS);
            i = i + 1;
        }
        proof {
            assert(self.deque@ =~= Seq::new(old(self).period as nat, |i: int| fp::ZERO_BITS));
        }
    }
}

impl Default for StandardDeviation {
    /// A nine-bar deviation tracker.
    fn default() -> (r: StandardDeviation)
        ensures
            r.wf(),
            r.period == 9 && r.count == 0 && r.index == 0 && r.m == fp::ZERO_BITS && r.m2
                == fp::ZERO_BITS,
    {
        let mut deque: Vec<u64> = Vec::new();
        let mut i: usize = 0;
        while i < 9
            invariant
                i <= 9,
                deque@.len() == i,
            decreases 9 - i,
        {
            deque.push(fp::ZERO_BITS);
            i = i + 1;
        }
        StandardDeviation { period: 9, index: 0, count: 0, m: fp::ZERO_BITS, m2: fp::ZERO_BITS, deque }
    }
}

} // verus!
