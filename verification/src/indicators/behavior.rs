//! The behavioral laws of the indicator sum type.
//!
//! Two indicators that agree on everything observable (their parameters and
//! their accumulated state, windows compared by contents) produce the same
//! output on every bar and stay observably equal afterwards; and two fresh
//! indicators of the same parameters are observably equal. Together with
//! the reset and construction contracts, which both establish `ind_fresh`,
//! this is the reset law: an indicator that is reset, or rebuilt from its
//! declared parameters, fed any bar sequence behaves exactly like a freshly
//! constructed instance fed the same sequence.

use vstd::prelude::*;

use crate::fp;
use crate::indicators::indicator::{
    ind_fresh, ind_out_candle, ind_step_rel, ind_wf, Indicator,
};
use crate::strategy::market_data::MarketData;

verus! {

/// The two indicators have the same declared parameters.
pub open spec fn ind_params_eq(a: Indicator, b: Indicator) -> bool {
    match (a, b) {
        (Indicator::Nothing(_), Indicator::Nothing(_)) => true,
        (Indicator::Ema(x), Indicator::Ema(y)) => x.period == y.period,
        (Indicator::Macd(x), Indicator::Macd(y)) => x.fast_ema.period == y.fast_ema.period
            && x.slow_ema.period == y.slow_ema.period && x.signal_ema.period
            == y.signal_ema.period,
        (Indicator::Rsi(x), Indicator::Rsi(y)) => x.period == y.period,
        (Indicator::Tr(_), Indicator::Tr(_)) => true,
        (Indicator::Atr(x), Indicator::Atr(y)) => x.ema.period == y.ema.period,
        (Indicator::Obv(_), Indicator::Obv(_)) => true,
        (Indicator::SuperTrend(x), Indicator::SuperTrend(y)) => x.multiplier == y.multiplier
            && x.atr.ema.period == y.atr.ema.period,
        (Indicator::Kc(x), Indicator::Kc(y)) => x.multiplier == y.multiplier && x.ema.period
            == y.ema.period && x.atr.ema.period == y.atr.ema.period,
        (Indicator::Sma(x), Indicator::Sma(y)) => x.window.cap() == y.window.cap(),
        (Indicator::Sd(x), Indicator::Sd(y)) => x.period == y.period,
        (Indicator::Bb(x), Indicator::Bb(y)) => x.period == y.period && x.multiplier
            == y.multiplier,
        (Indicator::Mae(x), Indicator::Mae(y)) => x.period == y.period && x.values.cap()
            == y.values.cap(),
        (Indicator::Ao(x), Indicator::Ao(y)) => x.short_sma.window.cap()
            == y.short_sma.window.cap() && x.long_sma.window.cap() == y.long_sma.window.cap(),
        (Indicator::WilliamsR(x), Indicator::WilliamsR(y)) => x.highs.cap() == y.highs.cap()
            && x.lows.cap() == y.lows.cap(),
        (Indicator::Stoch(x), Indicator::Stoch(y)) => x.period == y.period && x.smoothing_period
            == y.smoothing_period && x.highs.cap() == y.highs.cap() && x.lows.cap()
            == y.lows.cap() && x.closes.cap() == y.closes.cap() && x.d.window.cap()
            == y.d.window.cap(),
        (Indicator::Smma(x), Indicator::Smma(y)) => x.period == y.period && x.queue.cap()
            == y.queue.cap(),
        (Indicator::Alligator(x), Indicator::Alligator(y)) => x.jaw.period == y.jaw.period
            && x.teeth.period == y.teeth.period && x.lips.period == y.lips.period
            && x.jaw.queue.cap() == y.jaw.queue.cap() && x.teeth.queue.cap()
            == y.teeth.queue.cap() && x.lips.queue.cap() == y.lips.queue.cap()
            && x.jaw_buffer.cap() == y.jaw_buffer.cap() && x.teeth_buffer.cap()
            == y.teeth_buffer.cap() && x.lips_buffer.cap() == y.lips_buffer.cap(),
        _ => false,
    }
}

/// The two indicators are observably equal: same parameters and same
/// accumulated state, with windows compared by their contents.
pub open spec fn ind_obs_eq(a: Indicator, b: Indicator) -> bool {
    match (a, b) {
        (Indicator::Nothing(_), Indicator::Nothing(_)) => true,
        (Indicator::Ema(x), Indicator::Ema(y)) => x == y,
        (Indicator::Macd(x), Indicator::Macd(y)) => x == y,
        (Indicator::Rsi(x), Indicator::Rsi(y)) => x == y,
        (Indicator::Tr(x), Indicator::Tr(y)) => x == y,
        (Indicator::Atr(x), Indicator::Atr(y)) => x == y,
        (Indicator::Obv(x), Indicator::Obv(y)) => x == y,
        (Indicator::SuperTrend(x), Indicator::SuperTrend(y)) => x == y,
        (Indicator::Kc(x), Indicator::Kc(y)) => x == y,
        (Indicator::Sma(x), Indicator::Sma(y)) => x.window.cap() == y.window.cap()
            && x.window.items() == y.window.items(),
        (Indicator::Sd(x), Indicator::Sd(y)) => x.period == y.period && x.index == y.index
            && x.count == y.count && x.m == y.m && x.m2 == y.m2 && x.deque@ == y.deque@,
        (Indicator::Bb(x), Indicator::Bb(y)) => x.period == y.period && x.multiplier
            == y.multiplier && x.sd.period == y.sd.period && x.sd.index == y.sd.index
            && x.sd.count == y.sd.count && x.sd.m == y.sd.m && x.sd.m2 == y.sd.m2 && x.sd.deque@
            == y.sd.deque@,
        (Indicator::Mae(x), Indicator::Mae(y)) => x.period == y.period && x.mean == y.mean
            && x.values.cap() == y.values.cap() && x.values.items() == y.values.items(),
        (Indicator::Ao(x), Indicator::Ao(y)) => x.short_sma.window.cap()
            == y.short_sma.window.cap() && x.short_sma.window.items()
            == y.short_sma.window.items() && x.long_sma.window.cap() == y.long_sma.window.cap()
            && x.long_sma.window.items() == y.long_sma.window.items(),
        (Indicator::WilliamsR(x), Indicator::WilliamsR(y)) => x.highs.cap() == y.highs.cap()
            && x.highs.items() == y.highs.items() && x.lows.cap() == y.lows.cap()
            && x.lows.items() == y.lows.items(),
        (Indicator::Stoch(x), Indicator::Stoch(y)) => x.period == y.period && x.smoothing_period
            == y.smoothing_period && x.highs.cap() == y.highs.cap() && x.highs.items()
            == y.highs.items() && x.lows.cap() == y.lows.cap() && x.lows.items()
            == y.lows.items() && x.closes.cap() == y.closes.cap() && x.closes.items()
            == y.closes.items() && x.d.window.cap() == y.d.window.cap() && x.d.window.items()
            == y.d.window.items(),
        (Indicator::Smma(x), Indicator::Smma(y)) => x.period == y.period && x.smma == y.smma
            && x.queue.cap() == y.queue.cap() && x.queue.items() == y.queue.items(),
        (Indicator::Alligator(x), Indicator::Alligator(y)) => smma_obs_eq(x.jaw, y.jaw)
            && smma_obs_eq(x.teeth, y.teeth) && smma_obs_eq(x.lips, y.lips)
            && x.jaw_buffer.cap() == y.jaw_buffer.cap() && x.jaw_buffer.items()
            == y.jaw_buffer.items() && x.teeth_buffer.cap() == y.teeth_buffer.cap()
            && x.teeth_buffer.items() == y.teeth_buffer.items() && x.lips_buffer.cap()
            == y.lips_buffer.cap() && x.lips_buffer.items() == y.lips_buffer.items(),
        _ => false,
    }
}

/// Observable equality of two smoothed moving averages.
pub open spec fn smma_obs_eq(
    x: crate::indicators::smma::SmoothedMovingAverage,
    y: crate::indicators::smma::SmoothedMovingAverage,
) -> bool {
    x.period == y.period && x.smma == y.smma && x.queue.cap() == y.queue.cap() && x.queue.items()
        == y.queue.items()
}

/// Observably equal indicators produce the same output on every bar.
pub proof fn lemma_obs_eq_same_output(a: Indicator, b: Indicator, d: MarketData)
    requires
        ind_obs_eq(a, b),
    ensures
        ind_out_candle(a, d) == ind_out_candle(b, d),
{
}

/// Observable equality is preserved by one step over the same bar.
pub proof fn lemma_obs_eq_step(
    a: Indicator,
    b: Indicator,
    a2: Indicator,
    b2: Indicator,
    d: MarketData,
)
    requires
        ind_obs_eq(a, b),
        ind_step_rel(a, a2, d),
        ind_step_rel(b, b2, d),
    ensures
        ind_obs_eq(a2, b2),
{
}

/// Two fresh, well-formed indicators of the same parameters are observably
/// equal: a reset or rebuilt indicator starts exactly like a new one.
pub proof fn lemma_fresh_obs_eq(a: Indicator, b: Indicator)
    requires
        ind_wf(a),
        ind_wf(b),
        ind_fresh(a),
        ind_fresh(b),
        ind_params_eq(a, b),
    ensures
        ind_obs_eq(a, b),
{
    match (a, b) {
        (Indicator::Sd(x), Indicator::Sd(y)) => {
            assert(x.deque@ =~= y.deque@);
        },
        (Indicator::Bb(x), Indicator::Bb(y)) => {
            assert(x.sd.deque@ =~= y.sd.deque@);
        },
        (Indicator::Smma(x), Indicator::Smma(y)) => {
            assert(x.queue.items() =~= y.queue.items());
        },
        (Indicator::Alligator(x), Indicator::Alligator(y)) => {
            assert(x.jaw.queue.items() =~= y.jaw.queue.items());
            assert(x.teeth.queue.items() =~= y.teeth.queue.items());
            assert(x.lips.queue.items() =~= y.lips.queue.items());
            assert(x.jaw_buffer.items() =~= y.jaw_buffer.items());
            assert(x.teeth_buffer.items() =~= y.teeth_buffer.items());
            assert(x.lips_buffer.items() =~= y.lips_buffer.items());
        },
        (Indicator::Sma(x), Indicator::Sma(y)) => {
            assert(x.window.items() =~= y.window.items());
        },
        (Indicator::Mae(x), Indicator::Mae(y)) => {
            assert(x.values.items() =~= y.values.items());
        },
        (Indicator::Ao(x), Indicator::Ao(y)) => {
            assert(x.short_sma.window.items() =~= y.short_sma.window.items());
            assert(x.long_sma.window.items() =~= y.long_sma.window.items());
        },
        (Indicator::WilliamsR(x), Indicator::WilliamsR(y)) => {
            assert(x.highs.items() =~= y.highs.items());
            assert(x.lows.items() =~= y.lows.items());
        },
        (Indicator::Stoch(x), Indicator::Stoch(y)) => {
            assert(x.highs.items() =~= y.highs.items());
            assert(x.lows.items() =~= y.lows.items());
            assert(x.closes.items() =~= y.closes.items());
            assert(x.d.window.items() =~= y.d.window.items());
        },
        _ => {},
    }
}

} // verus!
