//! The closed sum of all indicators, dispatching every operation to the
//! active variant.

use vstd::prelude::*;

use crate::error::{TaError, TaResult};
use crate::fp;
use crate::helper_types::window_push;
use crate::indicators::alligator::{shift_out, Alligator};
use crate::indicators::ao::AwesomeOscillator;
use crate::indicators::atr::AverageTrueRange;
use crate::indicators::bb::BollingerBands;
use crate::indicators::ema::{ema_step, ExponentialMovingAverage};
use crate::indicators::kc::KeltnerChannel;
use crate::indicators::macd::MovingAverageConvergenceDivergence;
use crate::indicators::mae::{absdev_sum_bits, MeanAbsoluteError};
use crate::indicators::obv::{obv_step, OnBalanceVolume};
use crate::indicators::rsi::{rsi_step, RelativeStrengthIndex};
use crate::indicators::sd::{sd_step, StandardDeviation};
use crate::indicators::sma::SimpleMovingAverage;
use crate::indicators::smma::{smma_out, smma_step_rel, SmoothedMovingAverage};
use crate::indicators::stoch::StochasticOscillator;
use crate::indicators::super_trend::SuperTrend;
use crate::indicators::tr::{tr_step, TrueRange};
use crate::indicators::williams_r::WilliamsR;
use crate::indicators::macd::macd_step;
use crate::indicators::{max_fold_bits, mean_bits, min_fold_bits};
use crate::strategy::market_data::MarketData;
use crate::types::{OutputShape, OutputType, ValueModel};

verus! {

/// The pass-through indicator: returns its input unchanged, period zero.
#[derive(Debug, Clone, PartialEq)]
pub struct NoneIndicator {}

impl NoneIndicator {
    /// The pass-through indicator.
    pub fn new() -> (r: NoneIndicator)
        ensures
            r == (NoneIndicator {  }),
    {
        NoneIndicator {  }
    }

    /// The pass-through indicator needs no history.
    pub fn period(&self) -> (r: usize)
        ensures
            r == 0,
    {
        0
    }
}

/// One indicator, any variant: an algorithm and its accumulated state.
#[derive(Debug, Clone, PartialEq)]
pub enum Indicator {
    Nothing(NoneIndicator),
    Alligator(Alligator),
    Ao(AwesomeOscillator),
    Atr(AverageTrueRange),
    Bb(BollingerBands),
    Ema(ExponentialMovingAverage),
    Kc(KeltnerChannel),
    Macd(MovingAverageConvergenceDivergence),
    Mae(MeanAbsoluteError),
    Obv(OnBalanceVolume),
    Rsi(RelativeStrengthIndex),
    Sd(StandardDeviation),
    Sma(SimpleMovingAverage),
    Smma(SmoothedMovingAverage),
    Stoch(StochasticOscillator),
    SuperTrend(SuperTrend),
    Tr(TrueRange),
    WilliamsR(WilliamsR),
}

/// The warm-up period of each variant: how many bars it needs before its
/// output is considered settled. Zero only for the pass-through indicator.
pub open spec fn ind_period(i: Indicator) -> int {
    match i {
        Indicator::Nothing(_) => 0,
        Indicator::Alligator(a) => {
            let j = a.jaw.period + a.jaw_buffer.cap();
            let t = a.teeth.period + a.teeth_buffer.cap();
            let l = a.lips.period + a.lips_buffer.cap();
            if j >= t && j >= l {
                j as int
            } else if t >= l {
                t as int
            } else {
                l as int
            }
        },
        Indicator::Ao(a) => if a.long_sma.window.cap() >= a.short_sma.window.cap() {
            a.long_sma.window.cap() as int
        } else {
            a.short_sma.window.cap() as int
        },
        Indicator::Atr(a) => a.ema.period as int,
        Indicator::Bb(b) => b.period as int,
        Indicator::Ema(e) => e.period as int,
        Indicator::Kc(k) => k.ema.period as int,
        Indicator::Macd(m) => m.slow_ema.period as int,
        Indicator::Mae(m) => m.period as int,
        Indicator::Obv(_) => 1,
        Indicator::Rsi(r) => r.period as int,
        Indicator::Sd(s) => s.period as int,
        Indicator::Sma(s) => s.window.cap() as int,
        Indicator::Smma(s) => s.period as int,
        Indicator::Stoch(s) => s.period as int,
        Indicator::SuperTrend(s) => s.atr.ema.period as int,
        Indicator::Tr(_) => 1,
        Indicator::WilliamsR(w) => w.highs.cap() as int,
    }
}

/// The arity of each variant's output.
pub open spec fn ind_shape(i: Indicator) -> int {
    match i {
        Indicator::Alligator(_) => 3,
        Indicator::Bb(_) => 3,
        Indicator::Kc(_) => 3,
        Indicator::Macd(_) => 3,
        Indicator::Stoch(_) => 2,
        Indicator::SuperTrend(_) => 2,
        _ => 1,
    }
}

/// The two variants that need a full bar and reject a bare price.
pub open spec fn ind_needs_candle(i: Indicator) -> bool {
    i is Stoch || i is Obv
}

/// The exact output of one step over the bar `d`, as a value model.
pub open spec fn ind_out_candle(i: Indicator, d: MarketData) -> ValueModel {
    match i {
        Indicator::Nothing(_) => ValueModel::Single(d.spec_close()),
        Indicator::Alligator(a) => {
            let jv = smma_out(a.jaw, d.spec_median());
            let tv = smma_out(a.teeth, d.spec_median());
            let lv = smma_out(a.lips, d.spec_median());
            ValueModel::Array(
                seq![
                    shift_out(a.jaw_buffer.items(), a.jaw_buffer.cap() as nat, jv),
                    shift_out(a.teeth_buffer.items(), a.teeth_buffer.cap() as nat, tv),
                    shift_out(a.lips_buffer.items(), a.lips_buffer.cap() as nat, lv),
                ],
            )
        },
        Indicator::Ao(a) => {
            let mp = match d {
                MarketData::Bar(b) => fp::div_bits(fp::add_bits(b.high, b.low), fp::TWO_BITS),
                MarketData::Float(x) => x,
            };
            let short = mean_bits(
                window_push(a.short_sma.window.items(), a.short_sma.window.cap() as nat, mp).1,
            );
            let long = mean_bits(
                window_push(a.long_sma.window.items(), a.long_sma.window.cap() as nat, mp).1,
            );
            ValueModel::Single(fp::sub_bits(short, long))
        },
        Indicator::Atr(a) => {
            let t = tr_step(
                a.true_range.prev_close,
                d.spec_high(),
                d.spec_low(),
                d.spec_close(),
            ).1;
            ValueModel::Single(ema_step(a.ema, t).1)
        },
        Indicator::Bb(b) => {
            let (sd2, sd) = sd_step(b.sd, d.spec_close());
            let offset = fp::mul_bits(sd, b.multiplier);
            ValueModel::Array(
                seq![sd2.m, fp::add_bits(sd2.m, offset), fp::sub_bits(sd2.m, offset)],
            )
        },
        Indicator::Ema(e) => ValueModel::Single(ema_step(e, d.spec_close()).1),
        Indicator::Kc(k) => {
            let tp = match d {
                MarketData::Bar(b) => fp::div_bits(
                    fp::add_bits(fp::add_bits(b.high, b.low), b.close),
                    fp::THREE_BITS,
                ),
                MarketData::Float(x) => x,
            };
            let t = tr_step(k.atr.true_range.prev_close, tp, tp, tp).1;
            let atr_value = ema_step(k.atr.ema, t).1;
            let ema_value = ema_step(k.ema, tp).1;
            let offset = fp::mul_bits(k.multiplier, atr_value);
            ValueModel::Array(
                seq![
                    fp::add_bits(ema_value, offset),
                    ema_value,
                    fp::sub_bits(ema_value, offset),
                ],
            )
        },
        Indicator::Macd(m) => {
            let out = macd_step(m, d.spec_close()).1;
            ValueModel::Array(seq![out.macd, out.signal, out.histogram])
        },
        Indicator::Mae(m) => {
            let items = window_push(m.values.items(), m.period as nat, d.spec_close()).1;
            let mean = mean_bits(items);
            ValueModel::Single(
                fp::div_bits(absdev_sum_bits(items, mean), fp::of_u64_bits(items.len() as u64)),
            )
        },
        Indicator::Obv(o) => ValueModel::Single(
            obv_step(o, d.spec_close(), d.spec_volume()).1,
        ),
        Indicator::Rsi(r) => ValueModel::Single(rsi_step(r, d.spec_close()).1),
        Indicator::Sd(s) => ValueModel::Single(sd_step(s, d.spec_close()).1),
        Indicator::Sma(s) => ValueModel::Single(
            mean_bits(window_push(s.window.items(), s.window.cap() as nat, d.spec_close()).1),
        ),
        Indicator::Smma(s) => ValueModel::Single(smma_out(s, d.spec_close())),
        Indicator::Stoch(s) => {
            let highs = window_push(s.highs.items(), s.period as nat, d.spec_high()).1;
            let lows = window_push(s.lows.items(), s.period as nat, d.spec_low()).1;
            let highest = max_fold_bits(highs, fp::LOWEST_BITS);
            let lowest = min_fold_bits(lows, fp::HIGHEST_BITS);
            let range = fp::sub_bits(highest, lowest);
            let k = if fp::eq_bits(range, fp::ZERO_BITS) {
                fp::ZERO_BITS
            } else {
                fp::div_bits(fp::sub_bits(d.spec_close(), lowest), range)
            };
            let dmean = mean_bits(
                window_push(s.d.window.items(), s.d.window.cap() as nat, k).1,
            );
            ValueModel::Array(
                seq![
                    fp::mul_bits(k, fp::HUNDRED_BITS),
                    fp::mul_bits(dmean, fp::HUNDRED_BITS),
                ],
            )
        },
        Indicator::SuperTrend(s) => {
            let t = tr_step(
                s.atr.true_range.prev_close,
                d.spec_high(),
                d.spec_low(),
                d.spec_close(),
            ).1;
            let atr_value = ema_step(s.atr.ema, t).1;
            let mid = match d {
                MarketData::Bar(b) => fp::div_bits(fp::add_bits(b.high, b.low), fp::TWO_BITS),
                MarketData::Float(x) => x,
            };
            let offset = fp::mul_bits(s.multiplier, atr_value);
            ValueModel::Array(seq![fp::sub_bits(mid, offset), fp::add_bits(mid, offset)])
        },
        Indicator::Tr(t) => ValueModel::Single(
            tr_step(t.prev_close, d.spec_high(), d.spec_low(), d.spec_close()).1,
        ),
        Indicator::WilliamsR(w) => ValueModel::Single(
            WilliamsR::wr_out(
                window_push(w.highs.items(), w.highs.cap() as nat, d.spec_high()).1,
                window_push(w.lows.items(), w.lows.cap() as nat, d.spec_low()).1,
                w.highs.cap() as nat,
                d.spec_close(),
            ),
        ),
    }
}


/// One step of the active algorithm, stated per variant over the old and
/// new state: the scalar-state variants advance by their exact step
/// functions, the window-backed ones by the exact new window contents.
pub open spec fn ind_step_rel(a: Indicator, b: Indicator, d: MarketData) -> bool {
    match (a, b) {
        (Indicator::Nothing(_), Indicator::Nothing(_)) => true,
        (Indicator::Ema(e1), Indicator::Ema(e2)) => e2 == ema_step(e1, d.spec_close()).0,
        (Indicator::Macd(m1), Indicator::Macd(m2)) => m2 == macd_step(m1, d.spec_close()).0,
        (Indicator::Rsi(r1), Indicator::Rsi(r2)) => r2 == rsi_step(r1, d.spec_close()).0,
        (Indicator::Tr(t1), Indicator::Tr(t2)) => t2.prev_close == tr_step(
            t1.prev_close,
            d.spec_high(),
            d.spec_low(),
            d.spec_close(),
        ).0,
        (Indicator::Atr(a1), Indicator::Atr(a2)) => {
            let (pc, t) = tr_step(
                a1.true_range.prev_close,
                d.spec_high(),
                d.spec_low(),
                d.spec_close(),
            );
            a2.true_range.prev_close == pc && a2.ema == ema_step(a1.ema, t).0
        },
        (Indicator::Obv(o1), Indicator::Obv(o2)) => o2 == obv_step(
            o1,
            d.spec_close(),
            d.spec_volume(),
        ).0,
        (Indicator::SuperTrend(s1), Indicator::SuperTrend(s2)) => {
            let (pc, t) = tr_step(
                s1.atr.true_range.prev_close,
                d.spec_high(),
                d.spec_low(),
                d.spec_close(),
            );
            s2.multiplier == s1.multiplier && s2.atr.true_range.prev_close == pc && s2.atr.ema
                == ema_step(s1.atr.ema, t).0
        },
        (Indicator::Kc(k1), Indicator::Kc(k2)) => {
            let tp = match d {
                MarketData::Bar(bb) => fp::div_bits(
                    fp::add_bits(fp::add_bits(bb.high, bb.low), bb.close),
                    fp::THREE_BITS,
                ),
                MarketData::Float(x) => x,
            };
            let (pc, t) = tr_step(k1.atr.true_range.prev_close, tp, tp, tp);
            k2.multiplier == k1.multiplier && k2.atr.true_range.prev_close == pc && k2.atr.ema
                == ema_step(k1.atr.ema, t).0 && k2.ema == ema_step(k1.ema, tp).0
        },
        (Indicator::Sma(s1), Indicator::Sma(s2)) => s2.window.cap() == s1.window.cap()
            && s2.window.items() == window_push(
            s1.window.items(),
            s1.window.cap() as nat,
            d.spec_close(),
        ).1,
        (Indicator::Sd(s1), Indicator::Sd(s2)) => s2.deque@ == s1.deque@.update(
            s1.index as int,
            d.spec_close(),
        ) && (StandardDeviation { deque: s1.deque, ..s2 }) == sd_step(s1, d.spec_close()).0,
        (Indicator::Bb(b1), Indicator::Bb(b2)) => b2.multiplier == b1.multiplier && b2.period
            == b1.period && b2.sd.deque@ == b1.sd.deque@.update(
            b1.sd.index as int,
            d.spec_close(),
        ) && (StandardDeviation { deque: b1.sd.deque, ..b2.sd }) == sd_step(
            b1.sd,
            d.spec_close(),
        ).0,
        (Indicator::Mae(m1), Indicator::Mae(m2)) => {
            let items = window_push(m1.values.items(), m1.period as nat, d.spec_close()).1;
            m2.period == m1.period && m2.values.cap() == m1.values.cap() && m2.values.items()
                == items && m2.mean == mean_bits(items)
        },
        (Indicator::Ao(a1), Indicator::Ao(a2)) => {
            let mp = match d {
                MarketData::Bar(bb) => fp::div_bits(fp::add_bits(bb.high, bb.low), fp::TWO_BITS),
                MarketData::Float(x) => x,
            };
            a2.short_sma.window.cap() == a1.short_sma.window.cap() && a2.long_sma.window.cap()
                == a1.long_sma.window.cap() && a2.short_sma.window.items() == window_push(
                a1.short_sma.window.items(),
                a1.short_sma.window.cap() as nat,
                mp,
            ).1 && a2.long_sma.window.items() == window_push(
                a1.long_sma.window.items(),
                a1.long_sma.window.cap() as nat,
                mp,
            ).1
        },
        (Indicator::WilliamsR(w1), Indicator::WilliamsR(w2)) => w2.highs.cap() == w1.highs.cap()
            && w2.lows.cap() == w1.lows.cap() && w2.highs.items() == window_push(
            w1.highs.items(),
            w1.highs.cap() as nat,
            d.spec_high(),
        ).1 && w2.lows.items() == window_push(
            w1.lows.items(),
            w1.lows.cap() as nat,
            d.spec_low(),
        ).1,
        (Indicator::Stoch(s1), Indicator::Stoch(s2)) => {
            let highs = window_push(s1.highs.items(), s1.period as nat, d.spec_high()).1;
            let lows = window_push(s1.lows.items(), s1.period as nat, d.spec_low()).1;
            let highest = max_fold_bits(highs, fp::LOWEST_BITS);
            let lowest = min_fold_bits(lows, fp::HIGHEST_BITS);
            let range = fp::sub_bits(highest, lowest);
            let k = if fp::eq_bits(range, fp::ZERO_BITS) {
                fp::ZERO_BITS
            } else {
                fp::div_bits(fp::sub_bits(d.spec_close(), lowest), range)
            };
            s2.period == s1.period && s2.smoothing_period == s1.smoothing_period
                && s2.highs.cap() == s1.highs.cap() && s2.lows.cap() == s1.lows.cap()
                && s2.closes.cap() == s1.closes.cap() && s2.d.window.cap() == s1.d.window.cap()
                && s2.highs.items() == highs && s2.lows.items() == lows && s2.closes.items()
                == window_push(s1.closes.items(), s1.period as nat, d.spec_close()).1
                && s2.d.window.items() == window_push(
                s1.d.window.items(),
                s1.d.window.cap() as nat,
                k,
            ).1
        },
        (Indicator::Smma(s1), Indicator::Smma(s2)) => smma_step_rel(s1, s2, d.spec_close()),
        (Indicator::Alligator(g1), Indicator::Alligator(g2)) => {
            let jv = smma_out(g1.jaw, d.spec_median());
            let tv = smma_out(g1.teeth, d.spec_median());
            let lv = smma_out(g1.lips, d.spec_median());
            smma_step_rel(g1.jaw, g2.jaw, d.spec_median()) && smma_step_rel(
                g1.teeth,
                g2.teeth,
                d.spec_median(),
            ) && smma_step_rel(g1.lips, g2.lips, d.spec_median()) && g2.jaw_buffer.cap()
                == g1.jaw_buffer.cap() && g2.teeth_buffer.cap() == g1.teeth_buffer.cap()
                && g2.lips_buffer.cap() == g1.lips_buffer.cap() && g2.jaw_buffer.items()
                == window_push(
                g1.jaw_buffer.items(),
                g1.jaw_buffer.cap() as nat,
                jv,
            ).1 && g2.teeth_buffer.items() == window_push(
                g1.teeth_buffer.items(),
                g1.teeth_buffer.cap() as nat,
                tv,
            ).1 && g2.lips_buffer.items() == window_push(
                g1.lips_buffer.items(),
                g1.lips_buffer.cap() as nat,
                lv,
            ).1
        },
        _ => false,
    }
}

/// The enum's variants are well formed exactly where the wrapped state is.
pub open spec fn ind_wf(i: Indicator) -> bool {
    match i {
        Indicator::Nothing(_) => true,
        Indicator::Alligator(a) => a.wf(),
        Indicator::Ao(a) => a.wf(),
        Indicator::Atr(a) => a.wf() && a.ema.period < usize::MAX,
        Indicator::Bb(b) => b.wf(),
        Indicator::Ema(e) => e.wf(),
        Indicator::Kc(k) => k.wf(),
        Indicator::Macd(m) => m.wf(),
        Indicator::Mae(m) => m.wf(),
        Indicator::Obv(_) => true,
        Indicator::Rsi(r) => r.wf(),
        Indicator::Sd(s) => s.wf(),
        Indicator::Sma(s) => s.wf(),
        Indicator::Smma(s) => s.wf(),
        Indicator::Stoch(s) => s.wf(),
        Indicator::SuperTrend(s) => s.wf(),
        Indicator::Tr(_) => true,
        Indicator::WilliamsR(w) => w.wf(),
    }
}

impl Indicator {
    /// The active variant's warm-up period.
    pub fn period(&self) -> (r: usize)
        requires
            ind_wf(*self),
            ind_period(*self) <= usize::MAX,
        ensures
            r == ind_period(*self),
    {
        match self {
            Indicator::Nothing(i) => i.period(),
            Indicator::Alligator(a) => a.period(),
            Indicator::Ao(a) => a.period(),
            Indicator::Atr(a) => a.period(),
            Indicator::Bb(b) => b.period(),
            Indicator::Ema(e) => e.period(),
            Indicator::Kc(k) => k.period(),
            Indicator::Macd(m) => m.period(),
            Indicator::Mae(m) => m.period(),
            Indicator::Obv(o) => o.period(),
            Indicator::Rsi(r) => r.period(),
            Indicator::Sd(s) => s.period(),
            Indicator::Sma(s) => s.period(),
            Indicator::Smma(s) => s.period(),
            Indicator::Stoch(s) => s.period(),
            Indicator::SuperTrend(s) => s.period(),
            Indicator::Tr(t) => t.period(),
            Indicator::WilliamsR(w) => w.period(),
        }
    }

    /// The arity of the active variant's output.
    pub fn output_shape(&self) -> (r: OutputShape)
        ensures
            crate::types::shape_view(r) == crate::types::ShapeModel::S(ind_shape(*self) as nat),
    {
        match self {
            Indicator::Alligator(_) => OutputShape::Shape(3),
            Indicator::Bb(_) => OutputShape::Shape(3),
            Indicator::Kc(_) => OutputShape::Shape(3),
            Indicator::Macd(_) => OutputShape::Shape(3),
            Indicator::Stoch(_) => OutputShape::Shape(2),
            Indicator::SuperTrend(_) => OutputShape::Shape(2),
            _ => OutputShape::Shape(1),
        }
    }

    /// Feeds one bar to the active variant and returns its output. The
    /// state advances by exactly one step of the active algorithm.
    pub fn next_candle(&mut self, data: &MarketData) -> (r: TaResult<OutputType>)
        requires
            ind_wf(*old(self)),
        ensures
            ind_wf(*final(self)),
            ind_period(*final(self)) == ind_period(*old(self)),
            ind_shape(*final(self)) == ind_shape(*old(self)),
            ((*final(self)) matches Indicator::Nothing(_)) <==> ((*old(self)) matches Indicator::Nothing(_)),
            r is Ok ==> ind_step_rel(*old(self), *final(self), *data),
            (*final(self)) is Alligator <==> (*old(self)) is Alligator,
            (*final(self)) is Ao <==> (*old(self)) is Ao,
            (*final(self)) is Atr <==> (*old(self)) is Atr,
            (*final(self)) is Bb <==> (*old(self)) is Bb,
            (*final(self)) is Ema <==> (*old(self)) is Ema,
            (*final(self)) is Kc <==> (*old(self)) is Kc,
            (*final(self)) is Macd <==> (*old(self)) is Macd,
            (*final(self)) is Mae <==> (*old(self)) is Mae,
            (*final(self)) is Obv <==> (*old(self)) is Obv,
            (*final(self)) is Rsi <==> (*old(self)) is Rsi,
            (*final(self)) is Sd <==> (*old(self)) is Sd,
            (*final(self)) is Sma <==> (*old(self)) is Sma,
            (*final(self)) is Smma <==> (*old(self)) is Smma,
            (*final(self)) is Stoch <==> (*old(self)) is Stoch,
            (*final(self)) is SuperTrend <==> (*old(self)) is SuperTrend,
            (*final(self)) is Tr <==> (*old(self)) is Tr,
            (*final(self)) is WilliamsR <==> (*old(self)) is WilliamsR,
            r matches Ok(v) && crate::types::val_view(v) == ind_out_candle(*old(self), *data),
    {
        match self {
            Indicator::Nothing(_) => Ok(OutputType::Single(data.close())),
            Indicator::Alligator(a) => match a.next_candle(data) {
                Ok((j, t, l)) => {
                    let mut out: Vec<u64> = Vec::new();
                    out.push(j);
                    out.push(t);
                    out.push(l);
                    proof {
                        assert(out@ =~= seq![j, t, l]);
                    }
                    Ok(OutputType::Array(out))
                },
                Err(e) => Err(e),
            },
            Indicator::Ao(a) => match a.next_candle(data) {
                Ok(v) => Ok(OutputType::Single(v)),
                Err(e) => Err(e),
            },
            Indicator::Atr(a) => match a.next_candle(data) {
                Ok(v) => Ok(OutputType::Single(v)),
                Err(e) => Err(e),
            },
            Indicator::Bb(b) => match b.next_candle(data) {
                Ok(v) => {
                    let out = v.to_vec();
                    Ok(OutputType::Array(out))
                },
                Err(e) => Err(e),
            },
            Indicator::Ema(e) => match e.next_candle(data) {
                Ok(v) => Ok(OutputType::Single(v)),
                Err(e) => Err(e),
            },
            Indicator::Kc(k) => match k.next_candle(data) {
                Ok(v) => {
                    let out = v.to_vec();
                    Ok(OutputType::Array(out))
                },
                Err(e) => Err(e),
            },
            Indicator::Macd(m) => match m.next_candle(data) {
                Ok(v) => {
                    let out = v.to_vec();
                    Ok(OutputType::Array(out))
                },
                Err(e) => Err(e),
            },
            Indicator::Mae(m) => match m.next_candle(data) {
                Ok(v) => Ok(OutputType::Single(v)),
                Err(e) => Err(e),
            },
            Indicator::Obv(o) => match o.next_candle(data) {
                Ok(v) => Ok(OutputType::Single(v)),
                Err(e) => Err(e),
            },
            Indicator::Rsi(r) => match r.next_candle(data) {
                Ok(v) => Ok(OutputType::Single(v)),
                Err(e) => Err(e),
            },
            Indicator::Sd(s) => match s.next_candle(data) {
                Ok(v) => Ok(OutputType::Single(v)),
                Err(e) => Err(e),
            },
            Indicator::Sma(s) => match s.next_candle(data) {
                Ok(v) => Ok(OutputType::Single(v)),
                Err(e) => Err(e),
            },
            Indicator::Smma(s) => match s.next_candle(data) {
                Ok(v) => Ok(OutputType::Single(v)),
                Err(e) => Err(e),
            },
            Indicator::Stoch(s) => match s.next_candle(data) {
                Ok((k, d)) => {
                    let mut out: Vec<u64> = Vec::new();
                    out.push(k);
                    out.push(d);
                    proof {
                        assert(out@ =~= seq![k, d]);
                    }
                    Ok(OutputType::Array(out))
                },
                Err(e) => Err(e),
            },
            Indicator::SuperTrend(s) => match s.next_candle(data) {
                Ok(v) => {
                    let out = v.to_vec();
                    Ok(OutputType::Array(out))
                },
                Err(e) => Err(e),
            },
            Indicator::Tr(t) => match t.next_candle(data) {
                Ok(v) => Ok(OutputType::Single(v)),
                Err(e) => Err(e),
            },
            Indicator::WilliamsR(w) => match w.next_candle(data) {
                Ok(v) => Ok(OutputType::Single(v)),
                Err(e) => Err(e),
            },
        }
    }

    /// Returns the active variant to its freshly constructed state, keeping
    /// its parameters.
    pub fn reset(&mut self)
        requires
            ind_wf(*old(self)),
        ensures
            ind_wf(*final(self)),
            ind_period(*final(self)) == ind_period(*old(self)),
            ind_shape(*final(self)) == ind_shape(*old(self)),
            ind_fresh(*final(self)),
    {
        match self {
            Indicator::Nothing(_) => {},
            Indicator::Alligator(a) => a.reset(),
            Indicator::Ao(a) => a.reset(),
            Indicator::Atr(a) => a.reset(),
            Indicator::Bb(b) => b.reset(),
            Indicator::Ema(e) => e.reset(),
            Indicator::Kc(k) => k.reset(),
            Indicator::Macd(m) => m.reset(),
            Indicator::Mae(m) => m.reset(),
            Indicator::Obv(o) => o.reset(),
            Indicator::Rsi(r) => r.reset(),
            Indicator::Sd(s) => s.reset(),
            Indicator::Sma(s) => s.reset(),
            Indicator::Smma(s) => s.reset(),
            Indicator::Stoch(s) => s.reset(),
            Indicator::SuperTrend(s) => s.reset(),
            Indicator::Tr(t) => t.reset(),
            Indicator::WilliamsR(w) => w.reset(),
        }
    }

    /// The pass-through indicator.
    pub fn none() -> (r: Indicator)
        ensures
            (r matches Indicator::Nothing(_)) && ind_wf(r),
    {
        Indicator::Nothing(NoneIndicator::new())
    }

    /// An EMA indicator.
    pub fn ema(period: usize) -> (r: TaResult<Indicator>)
        requires
            period < usize::MAX,
        ensures
            r is Ok <==> period >= 1,
            r matches Err(e) ==> e is InvalidParameter,
            r matches Ok(i) ==> i is Ema && ind_wf(i) && ind_period(i) == period && ind_fresh(i),
    {
        match ExponentialMovingAverage::new(period) {
            Ok(e) => Ok(Indicator::Ema(e)),
            Err(e) => Err(e),
        }
    }

    /// An SMA indicator.
    pub fn sma(period: usize) -> (r: TaResult<Indicator>)
        ensures
            r is Ok <==> period >= 1,
            r matches Err(e) ==> e is InvalidParameter,
            r matches Ok(i) ==> i is Sma && ind_wf(i) && ind_period(i) == period && ind_fresh(i),
    {
        match SimpleMovingAverage::new(period) {
            Ok(s) => Ok(Indicator::Sma(s)),
            Err(e) => Err(e),
        }
    }

    /// An RSI indicator.
    pub fn rsi(period: usize) -> (r: TaResult<Indicator>)
        requires
            period < usize::MAX,
        ensures
            r is Ok <==> period >= 1,
            r matches Err(e) ==> e is InvalidParameter,
            r matches Ok(i) ==> i is Rsi && ind_wf(i) && ind_period(i) == period && ind_fresh(i),
    {
        match RelativeStrengthIndex::new(period) {
            Ok(s) => Ok(Indicator::Rsi(s)),
            Err(e) => Err(e),
        }
    }

    /// A MACD indicator.
    pub fn macd(fast_period: usize, slow_period: usize, signal_period: usize) -> (r: TaResult<
        Indicator,
    >)
        requires
            fast_period < usize::MAX,
            slow_period < usize::MAX,
            signal_period < usize::MAX,
        ensures
            r is Ok <==> (fast_period >= 1 && slow_period >= 1 && signal_period >= 1),
            r matches Err(e) ==> e is InvalidParameter,
            r matches Ok(i) ==> i is Macd && ind_wf(i) && ind_period(i) == slow_period
                && ind_fresh(i),
    {
        match MovingAverageConvergenceDivergence::new(fast_period, slow_period, signal_period) {
            Ok(m) => Ok(Indicator::Macd(m)),
            Err(e) => Err(e),
        }
    }

    /// A true-range indicator.
    pub fn tr() -> (r: Indicator)
        ensures
            r is Tr && ind_wf(r) && ind_period(r) == 1 && ind_fresh(r),
    {
        Indicator::Tr(TrueRange::new())
    }

    /// An ATR indicator.
    pub fn atr(period: usize) -> (r: TaResult<Indicator>)
        requires
            period < usize::MAX,
        ensures
            r is Ok <==> period >= 1,
            r matches Err(e) ==> e is InvalidParameter,
            r matches Ok(i) ==> i is Atr && ind_wf(i) && ind_period(i) == period && ind_fresh(i),
    {
        match AverageTrueRange::new(period) {
            Ok(a) => Ok(Indicator::Atr(a)),
            Err(e) => Err(e),
        }
    }

    /// A SuperTrend indicator.
    pub fn super_trend(multiplier: u64, period: usize) -> (r: TaResult<Indicator>)
        requires
            period < usize::MAX,
        ensures
            r is Ok <==> period >= 1,
            r matches Err(e) ==> e is InvalidParameter,
            r matches Ok(i) ==> i is SuperTrend && ind_wf(i) && ind_period(i) == period
                && ind_fresh(i),
    {
        match SuperTrend::new(multiplier, period) {
            Ok(s) => Ok(Indicator::SuperTrend(s)),
            Err(e) => Err(e),
        }
    }

    /// A Bollinger-bands indicator.
    pub fn bb(period: usize, multiplier: u64) -> (r: TaResult<Indicator>)
        ensures
            r is Ok <==> period >= 1,
            r matches Err(e) ==> e is InvalidParameter,
            r matches Ok(i) ==> i is Bb && ind_wf(i) && ind_period(i) == period && ind_fresh(i),
    {
        match BollingerBands::new(period, multiplier) {
            Ok(b) => Ok(Indicator::Bb(b)),
            Err(e) => Err(e),
        }
    }

    /// A stochastic-oscillator indicator.
    pub fn stoch(period: usize, smoothing_period: usize) -> (r: TaResult<Indicator>)
        ensures
            r is Ok <==> (period >= 1 && smoothing_period >= 1),
            r matches Err(e) ==> e is InvalidParameter,
            r matches Ok(i) ==> i is Stoch && ind_wf(i) && ind_period(i) == period && ind_fresh(i),
    {
        match StochasticOscillator::new(period, smoothing_period) {
            Ok(s) => Ok(Indicator::Stoch(s)),
            Err(e) => Err(e),
        }
    }

    /// A mean-absolute-error indicator.
    pub fn mae(period: usize) -> (r: TaResult<Indicator>)
        ensures
            r is Ok <==> period >= 1,
            r matches Err(e) ==> e is InvalidParameter,
            r matches Ok(i) ==> i is Mae && ind_wf(i) && ind_period(i) == period && ind_fresh(i),
    {
        match MeanAbsoluteError::new(period) {
            Ok(m) => Ok(Indicator::Mae(m)),
            Err(e) => Err(e),
        }
    }

    /// A standard-deviation indicator.
    pub fn sd(period: usize) -> (r: TaResult<Indicator>)
        ensures
            r is Ok <==> period >= 1,
            r matches Err(e) ==> e is InvalidParameter,
            r matches Ok(i) ==> i is Sd && ind_wf(i) && ind_period(i) == period && ind_fresh(i),
    {
        match StandardDeviation::new(period) {
            Ok(s) => Ok(Indicator::Sd(s)),
            Err(e) => Err(e),
        }
    }

    /// A Keltner-channel indicator.
    pub fn kc(period: usize, multiplier: u64) -> (r: TaResult<Indicator>)
        requires
            period < usize::MAX,
        ensures
            r is Ok <==> period >= 1,
            r matches Err(e) ==> e is InvalidParameter,
            r matches Ok(i) ==> i is Kc && ind_wf(i) && ind_period(i) == period && ind_fresh(i),
    {
        match KeltnerChannel::new(period, multiplier) {
            Ok(k) => Ok(Indicator::Kc(k)),
            Err(e) => Err(e),
        }
    }

    /// An OBV indicator.
    pub fn obv() -> (r: Indicator)
        ensures
            r is Obv && ind_wf(r) && ind_period(r) == 1 && ind_fresh(r),
    {
        Indicator::Obv(OnBalanceVolume::new())
    }

    /// An awesome-oscillator indicator.
    pub fn ao(short_period: usize, long_period: usize) -> (r: TaResult<Indicator>)
        ensures
            r is Ok <==> (short_period >= 1 && long_period >= 1),
            r matches Err(e) ==> e is InvalidParameter,
            r matches Ok(i) ==> i is Ao && ind_wf(i) && ind_fresh(i),
    {
        match AwesomeOscillator::new(short_period, long_period) {
            Ok(a) => Ok(Indicator::Ao(a)),
            Err(e) => Err(e),
        }
    }

    /// A Williams %R indicator.
    pub fn williams_r(period: usize) -> (r: TaResult<Indicator>)
        ensures
            r is Ok <==> period >= 1,
            r matches Err(e) ==> e is InvalidParameter,
            r matches Ok(i) ==> i is WilliamsR && ind_wf(i) && ind_period(i) == period
                && ind_fresh(i),
    {
        match WilliamsR::new(period) {
            Ok(w) => Ok(Indicator::WilliamsR(w)),
            Err(e) => Err(e),
        }
    }

    /// An SMMA indicator.
    pub fn smma(period: usize) -> (r: TaResult<Indicator>)
        ensures
            r is Ok <==> period >= 2,
            r matches Err(e) ==> e is InvalidParameter,
            r matches Ok(i) ==> i is Smma && ind_wf(i) && ind_period(i) == period && ind_fresh(i),
    {
        match SmoothedMovingAverage::new(period) {
            Ok(s) => Ok(Indicator::Smma(s)),
            Err(e) => Err(e),
        }
    }

    /// An alligator indicator.
    pub fn alligator(
        jaw_period: usize,
        jaw_shift: usize,
        teeth_period: usize,
        teeth_shift: usize,
        lips_period: usize,
        lips_shift: usize,
    ) -> (r: TaResult<Indicator>)
        ensures
            r is Ok <==> (jaw_period >= 2 && teeth_period >= 2 && lips_period >= 2 && jaw_shift
                >= 1 && teeth_shift >= 1 && lips_shift >= 1),
            r matches Ok(i) ==> i is Alligator && ind_wf(i) && ind_fresh(i),
            r matches Err(e) ==> e is InvalidParameter,
    {
        match Alligator::new(
            jaw_period,
            jaw_shift,
            teeth_period,
            teeth_shift,
            lips_period,
            lips_shift,
        ) {
            Ok(a) => Ok(Indicator::Alligator(a)),
            Err(e) => Err(e),
        }
    }
}


impl Indicator {
    /// A short name for the active variant.
    pub fn name(&self) -> (r: &'static str) {
        match self {
            Indicator::Nothing(_) => "None",
            Indicator::Alligator(_) => "Alligator",
            Indicator::Ao(_) => "AO",
            Indicator::Atr(_) => "ATR",
            Indicator::Bb(_) => "BB",
            Indicator::Ema(_) => "EMA",
            Indicator::Kc(_) => "KC",
            Indicator::Macd(_) => "MACD",
            Indicator::Mae(_) => "MAE",
            Indicator::Obv(_) => "OBV",
            Indicator::Rsi(_) => "RSI",
            Indicator::Sd(_) => "SD",
            Indicator::Sma(_) => "SMA",
            Indicator::Smma(_) => "SMMA",
            Indicator::Stoch(_) => "STOCH",
            Indicator::SuperTrend(_) => "SuperTrend",
            Indicator::Tr(_) => "TR",
            Indicator::WilliamsR(_) => "WilliamsR",
        }
    }

    /// Feeds one bare price, standing for every bar component. The two
    /// variants that need a full bar reject it.
    pub fn next(&mut self, input: u64) -> (r: TaResult<OutputType>)
        requires
            ind_wf(*old(self)),
        ensures
            ind_wf(*final(self)),
            ind_period(*final(self)) == ind_period(*old(self)),
            ind_shape(*final(self)) == ind_shape(*old(self)),
            ind_needs_candle(*old(self)) ==> r is Err && r->Err_0 is Unexpected && *final(self)
                == *old(self),
            !ind_needs_candle(*old(self)) ==> (r matches Ok(v) && crate::types::val_view(v)
                == ind_out_candle(*old(self), MarketData::Float(input)) && ind_step_rel(
                *old(self),
                *final(self),
                MarketData::Float(input),
            )),
    {
        match self {
            Indicator::Stoch(_) => Err(
                TaError::Unexpected("StochasticOscillator requires Candle input".to_owned()),
            ),
            Indicator::Obv(_) => Err(
                TaError::Unexpected("OnBalanceVolume requires Candle input".to_owned()),
            ),
            _ => {
                let data = MarketData::Float(input);
                self.next_candle(&data)
            },
        }
    }
}

/// The active variant carries no accumulated history: the state a fresh
/// construction or a reset leaves. Every indicator reset to this state and
/// fed a sequence of bars behaves exactly like a freshly built instance of
/// the same parameters fed the same bars.
pub open spec fn ind_fresh(i: Indicator) -> bool {
    match i {
        Indicator::Nothing(_) => true,
        Indicator::Alligator(a) => a.jaw.smma is None && a.teeth.smma is None && a.lips.smma
            is None && a.jaw.queue.items() =~= seq![fp::ZERO_BITS] && a.teeth.queue.items()
            =~= seq![fp::ZERO_BITS] && a.lips.queue.items() =~= seq![fp::ZERO_BITS]
            && a.jaw_buffer.items().len() == 0 && a.teeth_buffer.items().len() == 0
            && a.lips_buffer.items().len() == 0,
        Indicator::Ao(a) => a.short_sma.window.items().len() == 0 && a.long_sma.window.items().len()
            == 0,
        Indicator::Atr(a) => a.true_range.prev_close is None && a.ema.current == fp::ZERO_BITS
            && a.ema.is_new,
        Indicator::Bb(b) => b.sd.count == 0 && b.sd.index == 0 && b.sd.m == fp::ZERO_BITS
            && b.sd.m2 == fp::ZERO_BITS && b.sd.deque@ == Seq::new(
            b.sd.period as nat,
            |i: int| fp::ZERO_BITS,
        ),
        Indicator::Ema(e) => e.current == fp::ZERO_BITS && e.is_new,
        Indicator::Kc(k) => k.atr.true_range.prev_close is None && k.atr.ema.current
            == fp::ZERO_BITS && k.atr.ema.is_new && k.ema.current == fp::ZERO_BITS && k.ema.is_new,
        Indicator::Macd(m) => m.fast_ema.current == fp::ZERO_BITS && m.fast_ema.is_new
            && m.slow_ema.current == fp::ZERO_BITS && m.slow_ema.is_new && m.signal_ema.current
            == fp::ZERO_BITS && m.signal_ema.is_new,
        Indicator::Mae(m) => m.values.items().len() == 0 && m.mean == fp::ZERO_BITS,
        Indicator::Obv(o) => o.obv == fp::ZERO_BITS && o.prev_close is None,
        Indicator::Rsi(r) => r.prev_val is None && r.up_ema.current == fp::ZERO_BITS
            && r.up_ema.is_new && r.down_ema.current == fp::ZERO_BITS && r.down_ema.is_new,
        Indicator::Sd(s) => s.index == 0 && s.count == 0 && s.m == fp::ZERO_BITS && s.m2
            == fp::ZERO_BITS && s.deque@ == Seq::new(s.period as nat, |i: int| fp::ZERO_BITS),
        Indicator::Sma(s) => s.window.items().len() == 0,
        Indicator::Smma(s) => s.smma is None && s.queue.items() =~= seq![fp::ZERO_BITS],
        Indicator::Stoch(s) => s.highs.items().len() == 0 && s.lows.items().len() == 0
            && s.closes.items().len() == 0 && s.d.window.items().len() == 0,
        Indicator::SuperTrend(s) => s.atr.true_range.prev_close is None && s.atr.ema.current
            == fp::ZERO_BITS && s.atr.ema.is_new,
        Indicator::Tr(t) => t.prev_close is None,
        Indicator::WilliamsR(w) => w.highs.items().len() == 0 && w.lows.items().len() == 0,
    }
}

impl Default for Indicator {
    /// The pass-through indicator.
    fn default() -> (r: Indicator)
        ensures
            (r matches Indicator::Nothing(_)) && ind_wf(r),
    {
        Indicator::Nothing(NoneIndicator::new())
    }
}

} // verus!
