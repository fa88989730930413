//! Market data handed to strategies and indicators: a full OHLCV bar or a
//! bare price.

use vstd::prelude::*;

use crate::fp;
use crate::helper_types::Bar;

verus! {

/// One tick of market data.
#[derive(Debug, Clone, Copy)]
pub enum MarketData {
    /// A full OHLCV sample.
    Bar(Bar),
    /// A bare price standing in for every price component.
    Float(u64),
}

impl MarketData {
    /// The opening price.
    pub open spec fn spec_open(&self) -> u64 {
        match *self {
            MarketData::Bar(b) => b.open,
            MarketData::Float(x) => x,
        }
    }

    /// The high price.
    pub open spec fn spec_high(&self) -> u64 {
        match *self {
            MarketData::Bar(b) => b.high,
            MarketData::Float(x) => x,
        }
    }

    /// The low price.
    pub open spec fn spec_low(&self) -> u64 {
        match *self {
            MarketData::Bar(b) => b.low,
            MarketData::Float(x) => x,
        }
    }

    /// The closing price.
    pub open spec fn spec_close(&self) -> u64 {
        match *self {
            MarketData::Bar(b) => b.close,
            MarketData::Float(x) => x,
        }
    }

    /// The median price of a bar, `(high + low) / 2`; a bare price is its
    /// own median.
    pub open spec fn spec_median(&self) -> u64 {
        match *self {
            MarketData::Bar(b) => fp::div_bits(fp::add_bits(b.high, b.low), fp::TWO_BITS),
            MarketData::Float(x) => x,
        }
    }

    /// The derived price.
    pub open spec fn spec_price(&self) -> u64 {
        match *self {
            MarketData::Bar(b) => b.price,
            MarketData::Float(x) => x,
        }
    }

    /// The traded volume; a bare price has none.
    pub open spec fn spec_volume(&self) -> u64 {
        match *self {
            MarketData::Bar(b) => b.volume,
            MarketData::Float(_) => fp::NAN_BITS,
        }
    }

    /// The opening price.
    pub fn open(&self) -> (r: u64)
        ensures
            r == self.spec_open(),
    {
        match self {
            MarketData::Bar(b) => b.open,
            MarketData::Float(x) => *x,
        }
    }

    /// The high price.
    pub fn high(&self) -> (r: u64)
        ensures
            r == self.spec_high(),
    {
        match self {
            MarketData::Bar(b) => b.high,
            MarketData::Float(x) => *x,
        }
    }

    /// The low price.
    pub fn low(&self) -> (r: u64)
        ensures
            r == self.spec_low(),
    {
        match self {
            MarketData::Bar(b) => b.low,
            MarketData::Float(x) => *x,
        }
    }

    /// The closing price.
    pub fn close(&self) -> (r: u64)
        ensures
            r == self.spec_close(),
    {
        match self {
            MarketData::Bar(b) => b.close,
            MarketData::Float(x) => *x,
        }
    }

    /// The derived price.
    pub fn price(&self) -> (r: u64)
        ensures
            r == self.spec_price(),
    {
        match self {
            MarketData::Bar(b) => b.price,
            MarketData::Float(x) => *x,
        }
    }

    /// The traded volume; NaN for a bare price.
    pub fn volume(&self) -> (r: u64)
        ensures
            r == self.spec_volume(),
    {
        match self {
            MarketData::Bar(b) => b.volume,
            MarketData::Float(_) => fp::NAN_BITS,
        }
    }

    /// The typical price `(high + low + close) / 3`; a bare price stands for
    /// itself.
    pub fn typical_price(&self) -> (r: u64)
        ensures
            r == match *self {
                MarketData::Bar(b) => fp::div_bits(
                    fp::add_bits(fp::add_bits(b.high, b.low), b.close),
                    fp::THREE_BITS,
                ),
                MarketData::Float(x) => x,
            },
    {
        match self {
            MarketData::Bar(b) => b.typical_price(),
            MarketData::Float(x) => *x,
        }
    }

    /// The median price `(high + low) / 2`; a bare price stands for itself.
    pub fn median_price(&self) -> (r: u64)
        ensures
            r == self.spec_median(),
    {
        match self {
            MarketData::Bar(b) => b.median_price(),
            MarketData::Float(x) => *x,
        }
    }
}

} // verus!
