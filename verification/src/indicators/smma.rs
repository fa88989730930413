//! Smoothed moving average.

use vstd::prelude::*;

use crate::error::{TaError, TaResult};
use crate::fp;
use crate::helper_types::{window_push, Queue};
use crate::indicators::{mean_bits, mean_window};
use crate::strategy::market_data::MarketData;

verus! {

/// Smoothed moving average: seeds with the plain average of the first
/// window, then `smma = (prev * (period - 1) + input) / period`. The seed
/// window deliberately starts with one dummy zero, so the seed fires one
/// input earlier than a bare window would; the quirk only affects where
/// the earliest outputs begin.
#[derive(Debug, Clone, PartialEq)]
pub struct SmoothedMovingAverage {
    pub period: usize,
    pub queue: Queue<u64>,
    pub smma: Option<u64>,
}

/// The value one SMMA step emits, as a function of the state and input.
pub open spec fn smma_out(s: SmoothedMovingAverage, input: u64) -> u64 {
    match s.smma {
        Some(prev) => smma_followup(s.period, prev, input),
        None => {
            let pushed = window_push(s.queue.items(), s.queue.cap() as nat, input);
            if pushed.0 is Some {
                mean_bits(pushed.1)
            } else {
                input
            }
        },
    }
}

/// The full relation of one SMMA step: what `next` leaves behind.
pub open spec fn smma_step_rel(a: SmoothedMovingAverage, b: SmoothedMovingAverage, input: u64) -> bool {
    &&& b.period == a.period
    &&& b.queue.cap() == a.queue.cap()
    &&& match a.smma {
        Some(prev) => b.smma == Some(smma_followup(a.period, prev, input)) && b.queue == a.queue,
        None => {
            let pushed = window_push(a.queue.items(), a.queue.cap() as nat, input);
            b.queue.items() == pushed.1 && (if pushed.0 is Some {
                b.smma == Some(mean_bits(pushed.1))
            } else {
                b.smma is None
            })
        },
    }
}

/// One SMMA step once the average is seeded.
pub open spec fn smma_followup(period: usize, prev: u64, input: u64) -> u64 {
    fp::div_bits(
        fp::add_bits(
            fp::mul_bits(prev, fp::sub_bits(fp::of_u64_bits(period as u64), fp::ONE_BITS)),
            input,
        ),
        fp::of_u64_bits(period as u64),
    )
}

impl SmoothedMovingAverage {
    /// The window is in bounds and matches the period.
    pub open spec fn wf(&self) -> bool {
        self.period >= 2 && self.queue.wf() && self.queue.cap() == self.period
    }

    /// A fresh SMMA with the dummy zero already queued. A period below two
    /// is rejected.
    pub fn new(period: usize) -> (r: TaResult<SmoothedMovingAverage>)
        ensures
            r is Ok <==> period >= 2,
            r matches Err(e) ==> e is InvalidParameter,
            r matches Ok(s) ==> s.wf() && s.period == period && s.smma is None && s.queue.items()
                =~= seq![fp::ZERO_BITS],
    {
        if period < 2 {
            return Err(TaError::InvalidParameter("1".to_owned()));
        }
        let mut queue: Queue<u64> = match Queue::new(period) {
            Ok(q) => q,
            Err(e) => {
                return Err(e);
            },
        };
        let _ = queue.push(fp::ZERO_BITS);
        proof {
            assert(queue.items() =~= seq![fp::ZERO_BITS]);
        }
        Ok(SmoothedMovingAverage { period, queue, smma: None })
    }

    /// The period.
    pub fn period(&self) -> (r: usize)
        ensures
            r == self.period,
    {
        self.period
    }

    /// Feeds one price. While the seed window is still filling the input
    /// comes back unchanged; the push that fills it yields the window's
    /// plain average; later calls apply the smoothing recurrence.
    pub fn next(&mut self, input: u64) -> (r: TaResult<u64>)
        requires
            old(self).wf(),
        ensures
            final(self).wf(),
            final(self).period == old(self).period,
            r == Ok::<u64, TaError>(smma_out(*old(self), input)),
            old(self).smma matches Some(prev) ==> ({
                let v = smma_followup(old(self).period, prev, input);
                r == Ok::<u64, TaError>(v) && final(self).smma == Some(v) && final(self).queue
                    == old(self).queue
            }),
            old(self).smma is None ==> ({
                let pushed = window_push(
                    old(self).queue.items(),
                    old(self).queue.cap() as nat,
                    input,
                );
                final(self).queue.items() == pushed.1 && final(self).queue.cap() == old(self).queue.cap() && if pushed.0 is Some {
                    r == Ok::<u64, TaError>(mean_bits(pushed.1)) && final(self).smma == Some(
                        mean_bits(pushed.1),
                    )
                } else {
                    r == Ok::<u64, TaError>(input) && final(self).smma is None
                }
            }),
    {
        if self.smma.is_none() {
            match self.queue.push(input) {
                Some(_) => {
                    let avg = mean_window(&self.queue);
                    self.smma = Some(avg);
                    return Ok(avg);
                },
                None => {
                    return Ok(input);
                },
            }
        }
        match self.smma {
            Some(prev) => {
                let n = fp::fp_from_u64(self.period as u64);
                let weighted = fp::fp_mul(prev, fp::fp_sub(n, fp::ONE_BITS));
                let v = fp::fp_div(fp::fp_add(weighted, input), n);
                self.smma = Some(v);
                Ok(v)
            },
            None => Ok(input),
        }
    }

    /// Feeds one bar through its closing price.
    pub fn next_candle(&mut self, data: &MarketData) -> (r: TaResult<u64>)
        requires
            old(self).wf(),
        ensures
            final(self).wf(),
            final(self).period == old(self).period,
            r == Ok::<u64, TaError>(smma_out(*old(self), data.spec_close())),
            old(self).smma matches Some(prev) ==> final(self).smma == Some(
                smma_followup(old(self).period, prev, data.spec_close()),
            ) && final(self).queue == old(self).queue,
            old(self).smma is None ==> ({
                let pushed = window_push(
                    old(self).queue.items(),
                    old(self).queue.cap() as nat,
                    data.spec_close(),
                );
                final(self).queue.items() == pushed.1 && final(self).queue.cap() == old(
                    self,
                ).queue.cap() && if pushed.0 is Some {
                    final(self).smma == Some(mean_bits(pushed.1))
                } else {
                    final(self).smma is None
                }
            }),
    {
        self.next(data.close())
    }

    /// Returns the SMMA to its freshly constructed state, the dummy zero
    /// included.
    pub fn reset(&mut self)
        requires
            old(self).wf(),
        ensures
            final(self).wf(),
            final(self).period == old(self).period,
            final(self).smma is None,
            final(self).queue.items() =~= seq![fp::ZERO_BITS],
            final(self).queue.cap() == old(self).queue.cap(),
    {
        self.queue.reset();
        let _ = self.queue.push(fp::ZERO_BITS);
        self.smma = None;
        proof {
            assert(self.queue.items() =~= seq![fp::ZERO_BITS]);
        }
    }
}

} // verus!
