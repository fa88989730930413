//! Shared building blocks: the OHLCV bar, a cyclic index counter and the
//! bounded FIFO queue that backs every windowed indicator.

use std::collections::VecDeque;

use vstd::prelude::*;

use crate::error::{TaError, TaResult};
use crate::fp;

verus! {

/// One OHLCV market sample. Every field holds the bit pattern of an
/// IEEE-754 double (see `fp`).
#[derive(Debug, Clone, Copy, PartialEq)]
pub struct Bar {
    pub open: u64,
    pub high: u64,
    pub low: u64,
    pub close: u64,
    pub price: u64,
    pub volume: u64,
}

impl Bar {
    /// A bar whose every field is `0.0`.
    pub fn new() -> (r: Bar)
        ensures
            r == (Bar {
                open: fp::ZERO_BITS,
                high: fp::ZERO_BITS,
                low: fp::ZERO_BITS,
                close: fp::ZERO_BITS,
                price: fp::ZERO_BITS,
                volume: fp::ZERO_BITS,
            }),
    {
        Bar { open: 0, high: 0, low: 0, close: 0, price: 0, volume: 0 }
    }

    /// Replaces the opening price.
    pub fn set_open(self, open: u64) -> (r: Bar)
        ensures
            r == (Bar { open, ..self }),
    {
        Bar { open, ..self }
    }

    /// Replaces the high price.
    pub fn set_high(self, high: u64) -> (r: Bar)
        ensures
            r == (Bar { high, ..self }),
    {
        Bar { high, ..self }
    }

    /// Replaces the low price.
    pub fn set_low(self, low: u64) -> (r: Bar)
        ensures
            r == (Bar { low, ..self }),
    {
        Bar { low, ..self }
    }

    /// Replaces the closing price.
    pub fn set_close(self, close: u64) -> (r: Bar)
        ensures
            r == (Bar { close, ..self }),
    {
        Bar { close, ..self }
    }

    /// Replaces the derived price.
    pub fn set_price(self, price: u64) -> (r: Bar)
        ensures
            r == (Bar { price, ..self }),
    {
        Bar { price, ..self }
    }

    /// Replaces the traded volume.
    pub fn set_volume(self, volume: u64) -> (r: Bar)
        ensures
            r == (Bar { volume, ..self }),
    {
        Bar { volume, ..self }
    }

    /// The typical price `(high + low + close) / 3`, in IEEE-754 arithmetic.
    pub fn typical_price(&self) -> (r: u64)
        ensures
            r == fp::div_bits(
                fp::add_bits(fp::add_bits(self.high, self.low), self.close),
                fp::THREE_BITS,
            ),
    {
        let hl: u64 = fp::fp_add(self.high, self.low);
        let hlc: u64 = fp::fp_add(hl, self.close);
        fp::fp_div(hlc, fp::THREE_BITS)
    }

    /// The median price `(high + low) / 2`, in IEEE-754 arithmetic.
    pub fn median_price(&self) -> (r: u64)
        ensures
            r == fp::div_bits(fp::add_bits(self.high, self.low), fp::TWO_BITS),
    {
        let hl: u64 = fp::fp_add(self.high, self.low);
        fp::fp_div(hl, fp::TWO_BITS)
    }
}

/// A counter cycling through `[0, period)`.
#[derive(Debug, Clone, PartialEq)]
pub struct Cycle {
    period: usize,
    index: usize,
}

impl Cycle {
    /// The counter's fixed modulus.
    pub closed spec fn spec_period(&self) -> usize {
        self.period
    }

    /// The counter's current position.
    pub closed spec fn spec_index(&self) -> usize {
        self.index
    }

    /// The counter is inside its cycle.
    pub open spec fn wf(&self) -> bool {
        self.spec_period() >= 1 && self.spec_index() < self.spec_period()
    }

    /// A fresh counter at position zero. A zero period is rejected.
    pub fn new(period: usize) -> (r: TaResult<Cycle>)
        ensures
            r is Ok <==> period >= 1,
            r matches Err(e) ==> e is InvalidParameter,
            r matches Ok(c) ==> c.wf() && c.spec_period() == period && c.spec_index() == 0,
    {
        if period == 0 {
            return Err(TaError::InvalidParameter("0".to_owned()));
        }
        Ok(Cycle { period, index: 0 })
    }

    /// Advances the counter and returns the new position.
    pub fn next_idx(&mut self) -> (r: usize)
        requires
            old(self).wf(),
        ensures
            final(self).wf(),
            final(self).spec_period() == old(self).spec_period(),
            final(self).spec_index() == if old(self).spec_index() + 1 < old(self).spec_period() {
                old(self).spec_index() + 1
            } else {
                0
            },
            r == final(self).spec_index(),
    {
        self.next_silence();
        self.index
    }

    /// Advances the counter without returning the position.
    pub fn next_silence(&mut self)
        requires
            old(self).wf(),
        ensures
            final(self).wf(),
            final(self).spec_period() == old(self).spec_period(),
            final(self).spec_index() == if old(self).spec_index() + 1 < old(self).spec_period() {
                old(self).spec_index() + 1
            } else {
                0
            },
    {
        if self.index + 1 < self.period {
            self.index = self.index + 1;
        } else {
            self.index = 0;
        }
    }

    /// The current position.
    pub fn index(&self) -> (r: usize)
        ensures
            r == self.spec_index(),
    {
        self.index
    }

    /// The fixed modulus.
    pub fn period(&self) -> (r: usize)
        ensures
            r == self.spec_period(),
    {
        self.period
    }

    /// Returns the counter to position zero.
    pub fn reset(&mut self)
        ensures
            final(self).spec_period() == old(self).spec_period(),
            final(self).spec_index() == 0,
            old(self).wf() ==> final(self).wf(),
    {
        self.index = 0;
    }
}

/// What one bounded push does to a window's contents: appends the value and,
/// when the window was full, evicts the oldest element.
pub open spec fn window_push<T>(items: Seq<T>, cap: nat, v: T) -> (Option<T>, Seq<T>) {
    if items.len() < cap {
        (None, items.push(v))
    } else {
        (Some(items[0]), items.subrange(1, items.len() as int).push(v))
    }
}

/// The contents of a window of capacity `cap` after the values of `hist`
/// have been pushed, oldest first, into an initially empty window: the last
/// `cap` of them.
pub open spec fn window_after<T>(hist: Seq<T>, cap: nat) -> Seq<T> {
    if hist.len() <= cap {
        hist
    } else {
        hist.subrange(hist.len() - cap, hist.len() as int)
    }
}

/// The FIFO law of the bounded window: however it was filled, a push beyond
/// the capacity `cap` evicts exactly the element pushed `cap` pushes before
/// the new one, and the window never holds more than `cap` elements.
pub proof fn lemma_window_fifo<T>(hist: Seq<T>, cap: nat, v: T)
    requires
        cap >= 1,
    ensures
        window_after(hist, cap).len() <= cap,
        window_push(window_after(hist, cap), cap, v).1 == window_after(hist.push(v), cap),
        window_push(window_after(hist, cap), cap, v).0 == if hist.len() >= cap {
            Some(hist[hist.len() - cap])
        } else {
            None::<T>
        },
{
    let w = window_after(hist, cap);
    if hist.len() < cap {
        assert(w.push(v) =~= window_after(hist.push(v), cap));
    } else {
        assert(w.len() == cap);
        assert(w[0] == hist[hist.len() - cap]);
        assert(w.subrange(1, w.len() as int).push(v) =~= window_after(hist.push(v), cap));
    }
}

/// A fixed-capacity FIFO window: pushing beyond the capacity evicts and
/// returns the oldest element.
#[derive(Debug, Clone, PartialEq)]
pub struct Queue<T> {
    queue: VecDeque<T>,
    period: usize,
}

impl<T> Queue<T> {
    /// The stored elements, oldest first.
    pub closed spec fn items(&self) -> Seq<T> {
        self.queue@
    }

    /// The fixed capacity.
    pub closed spec fn cap(&self) -> usize {
        self.period
    }

    /// The window is within its bounds.
    pub open spec fn wf(&self) -> bool {
        self.cap() >= 1 && self.items().len() <= self.cap()
    }

    /// An empty window. A zero capacity is rejected.
    pub fn new(capacity: usize) -> (r: TaResult<Queue<T>>)
        ensures
            r is Ok <==> capacity >= 1,
            r matches Err(e) ==> e is InvalidParameter,
            r matches Ok(q) ==> q.wf() && q.cap() == capacity && q.items().len() == 0,
    {
        if capacity == 0 {
            return Err(TaError::InvalidParameter("0".to_owned()));
        }
        Ok(Queue { queue: VecDeque::new(), period: capacity })
    }

    /// Appends `value`; on overflow evicts and returns the oldest element.
    pub fn push(&mut self, value: T) -> (r: Option<T>)
        requires
            old(self).wf(),
        ensures
            final(self).wf(),
            final(self).cap() == old(self).cap(),
            (r, final(self).items()) == window_push(
                old(self).items(),
                old(self).cap() as nat,
                value,
            ),
    {
        self.queue.push_back(value);
        if self.queue.len() > self.period {
            let evicted = self.queue.pop_front();
            proof {
                assert(self.queue@ =~= old(self).items().subrange(
                    1,
                    old(self).items().len() as int,
                ).push(value));
            }
            evicted
        } else {
            None
        }
    }

    /// `push`, under the name the streaming algorithms use.
    #[inline]
    pub fn next_with(&mut self, value: T) -> (r: Option<T>)
        requires
            old(self).wf(),
        ensures
            final(self).wf(),
            final(self).cap() == old(self).cap(),
            (r, final(self).items()) == window_push(
                old(self).items(),
                old(self).cap() as nat,
                value,
            ),
    {
        self.push(value)
    }

    /// Appends without bounding the length (used only by tests mirroring the
    /// unbounded growth of the underlying deque).
    pub fn push_back(&mut self, value: T)
        ensures
            final(self).cap() == old(self).cap(),
            final(self).items() == old(self).items().push(value),
    {
        self.queue.push_back(value);
    }

    /// Removes and returns the oldest element.
    pub fn pop_front(&mut self) -> (r: Option<T>)
        ensures
            final(self).cap() == old(self).cap(),
            old(self).items().len() == 0 ==> r is None && final(self).items() == old(self).items(),
            old(self).items().len() > 0 ==> r == Some(old(self).items()[0])
                && final(self).items() == old(self).items().subrange(
                1,
                old(self).items().len() as int,
            ),
    {
        self.queue.pop_front()
    }

    /// How many elements the window holds.
    pub fn len(&self) -> (r: usize)
        ensures
            r == self.items().len(),
    {
        self.queue.len()
    }

    /// The fixed capacity.
    pub fn period(&self) -> (r: usize)
        ensures
            r == self.cap(),
    {
        self.period
    }

    /// The element at position `i`, oldest first.
    pub fn get(&self, i: usize) -> (r: &T)
        requires
            i < self.items().len(),
        ensures
            *r == self.items()[i as int],
    {
        &self.queue[i]
    }

    /// The oldest element, if any.
    pub fn first(&self) -> (r: Option<&T>)
        ensures
            self.items().len() == 0 ==> r is None,
            self.items().len() > 0 ==> (r matches Some(x) && *x == self.items()[0]),
    {
        if self.queue.len() > 0 {
            Some(&self.queue[0])
        } else {
            None
        }
    }

    /// Empties the window, keeping its capacity.
    pub fn reset(&mut self)
        ensures
            final(self).cap() == old(self).cap(),
            final(self).items().len() == 0,
    {
        self.queue.clear();
    }
}

} // verus!
