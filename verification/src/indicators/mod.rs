//! The streaming indicators: each consumes one price or bar per call,
//! produces one output, and keeps only bounded internal history.

pub mod alligator;
pub mod ao;
pub mod atr;
pub mod bb;
pub mod behavior;
pub mod ema;
pub mod indicator;
pub mod kc;
pub mod macd;
pub mod mae;
pub mod obv;
pub mod rsi;
pub mod sd;
pub mod sma;
pub mod smma;
pub mod stoch;
pub mod super_trend;
pub mod tr;
pub mod williams_r;

pub use atr::AverageTrueRange;
pub use bb::BollingerBands;
pub use ema::ExponentialMovingAverage;
pub use macd::MovingAverageConvergenceDivergence;
pub use mae::MeanAbsoluteError;
pub use rsi::RelativeStrengthIndex;
pub use sd::StandardDeviation;
pub use sma::SimpleMovingAverage;
pub use stoch::StochasticOscillator;
pub use super_trend::SuperTrend;
pub use tr::TrueRange;

use vstd::prelude::*;

use crate::fp;
use crate::helper_types::Queue;

verus! {

/// The IEEE-754 sum of a sequence of patterns, added left to right starting
/// from `0.0`.
pub open spec fn sum_bits(s: Seq<u64>) -> u64
    decreases s.len(),
{
    if s.len() == 0 {
        fp::ZERO_BITS
    } else {
        fp::add_bits(sum_bits(s.drop_last()), s.last())
    }
}

/// Sums a window's contents left to right.
pub fn sum_window(q: &Queue<u64>) -> (r: u64)
    ensures
        r == sum_bits(q.items()),
{
    let mut acc: u64 = fp::ZERO_BITS;
    let mut i: usize = 0;
    let n = q.len();
    while i < n
        invariant
            n == q.items().len(),
            i <= n,
            acc == sum_bits(q.items().subrange(0, i as int)),
        decreases n - i,
    {
        proof {
            assert(q.items().subrange(0, i + 1).drop_last() =~= q.items().subrange(0, i as int));
            assert(q.items().subrange(0, i + 1).last() == q.items()[i as int]);
        }
        acc = fp::fp_add(acc, *q.get(i));
        i = i + 1;
    }
    proof {
        assert(q.items().subrange(0, q.items().len() as int) =~= q.items());
    }
    acc
}

/// The IEEE-754 mean of a window's contents: the left-to-right sum divided
/// by the element count.
pub open spec fn mean_bits(s: Seq<u64>) -> u64 {
    fp::div_bits(sum_bits(s), fp::of_u64_bits(s.len() as u64))
}

/// The mean of a window's contents.
pub fn mean_window(q: &Queue<u64>) -> (r: u64)
    requires
        q.items().len() >= 1,
    ensures
        r == mean_bits(q.items()),
{
    let s = sum_window(q);
    let n = fp::fp_from_u64(q.len() as u64);
    fp::fp_div(s, n)
}

/// The largest element of a window under `f64::max` semantics, folded from
/// the given start value.
pub open spec fn max_fold_bits(s: Seq<u64>, start: u64) -> u64
    decreases s.len(),
{
    if s.len() == 0 {
        start
    } else {
        fp::max_bits(max_fold_bits(s.drop_last(), start), s.last())
    }
}

/// The smallest element of a window under `f64::min` semantics, folded from
/// the given start value.
pub open spec fn min_fold_bits(s: Seq<u64>, start: u64) -> u64
    decreases s.len(),
{
    if s.len() == 0 {
        start
    } else {
        fp::min_bits(min_fold_bits(s.drop_last(), start), s.last())
    }
}

/// Folds `f64::max` over a window from the given start value.
pub fn max_window(q: &Queue<u64>, start: u64) -> (r: u64)
    ensures
        r == max_fold_bits(q.items(), start),
{
    let mut acc: u64 = start;
    let mut i: usize = 0;
    let n = q.len();
    while i < n
        invariant
            n == q.items().len(),
            i <= n,
            acc == max_fold_bits(q.items().subrange(0, i as int), start),
        decreases n - i,
    {
        proof {
            assert(q.items().subrange(0, i + 1).drop_last() =~= q.items().subrange(0, i as int));
            assert(q.items().subrange(0, i + 1).last() == q.items()[i as int]);
        }
        acc = fp::fp_max(acc, *q.get(i));
        i = i + 1;
    }
    proof {
        assert(q.items().subrange(0, q.items().len() as int) =~= q.items());
    }
    acc
}

/// Folds `f64::min` over a window from the given start value.
pub fn min_window(q: &Queue<u64>, start: u64) -> (r: u64)
    ensures
        r == min_fold_bits(q.items(), start),
{
    let mut acc: u64 = start;
    let mut i: usize = 0;
    let n = q.len();
    while i < n
        invariant
            n == q.items().len(),
            i <= n,
            acc == min_fold_bits(q.items().subrange(0, i as int), start),
        decreases n - i,
    {
        proof {
            assert(q.items().subrange(0, i + 1).drop_last() =~= q.items().subrange(0, i as int));
            assert(q.items().subrange(0, i + 1).last() == q.items()[i as int]);
        }
        acc = fp::fp_min(acc, *q.get(i));
        i = i + 1;
    }
    proof {
        assert(q.items().subrange(0, q.items().len() as int) =~= q.items());
    }
    acc
}

} // verus!
