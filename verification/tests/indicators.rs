//! Tests of the streaming indicators, with prices written as IEEE-754 bit
//! patterns.

use chipa_ta::helper_types::Bar;
use chipa_ta::indicators::alligator::Alligator;
use chipa_ta::indicators::atr::AverageTrueRange;
use chipa_ta::indicators::bb::BollingerBands;
use chipa_ta::indicators::ema::ExponentialMovingAverage;
use chipa_ta::indicators::macd::MovingAverageConvergenceDivergence;
use chipa_ta::indicators::mae::MeanAbsoluteError;
use chipa_ta::indicators::obv::OnBalanceVolume;
use chipa_ta::indicators::rsi::RelativeStrengthIndex;
use chipa_ta::indicators::sd::StandardDeviation;
use chipa_ta::indicators::sma::SimpleMovingAverage;
use chipa_ta::indicators::smma::SmoothedMovingAverage;
use chipa_ta::indicators::stoch::StochasticOscillator;
use chipa_ta::indicators::tr::TrueRange;
use chipa_ta::indicators::williams_r::WilliamsR;
use chipa_ta::strategy::MarketData;

fn b(x: f64) -> u64 {
    x.to_bits()
}

fn f(x: u64) -> f64 {
    f64::from_bits(x)
}

fn round(x: f64) -> f64 {
    (x * 1000.0).round() / 1000.0
}

fn bar(high: f64, low: f64, close: f64) -> MarketData {
    MarketData::Bar(
        Bar::new().set_high(b(high)).set_low(b(low)).set_close(b(close)),
    )
}

#[test]
fn ema_test_new() {
    assert!(ExponentialMovingAverage::new(0).is_err());
    assert!(ExponentialMovingAverage::new(1).is_ok());
}

#[test]
fn ema_test_next() {
    let mut ema = ExponentialMovingAverage::new(3).unwrap();

    assert_eq!(f(ema.next(b(2.0)).unwrap()), 2.0);
    assert_eq!(f(ema.next(b(5.0)).unwrap()), 3.5);
    assert_eq!(f(ema.next(b(1.0)).unwrap()), 2.25);
    assert_eq!(f(ema.next(b(6.25)).unwrap()), 4.25);
}

#[test]
fn ema_test_reset() {
    let mut ema = ExponentialMovingAverage::new(5).unwrap();

    assert_eq!(f(ema.next(b(4.0)).unwrap()), 4.0);
    ema.next(b(10.0)).unwrap();
    ema.next(b(15.0)).unwrap();
    ema.next(b(20.0)).unwrap();
    assert_ne!(f(ema.next(b(4.0)).unwrap()), 4.0);

    ema.reset();
    assert_eq!(f(ema.next(b(4.0)).unwrap()), 4.0);
}

#[test]
fn ema_test_default() {
    let _ = ExponentialMovingAverage::default();
}

#[test]
fn macd_test_new() {
    type Macd = MovingAverageConvergenceDivergence;
    assert!(Macd::new(0, 1, 1).is_err());
    assert!(Macd::new(1, 0, 1).is_err());
    assert!(Macd::new(1, 1, 0).is_err());
    assert!(Macd::new(1, 1, 1).is_ok());
}

#[test]
fn macd_test_display() {
    let indicator = MovingAverageConvergenceDivergence::new(13, 30, 10).unwrap();
    assert_eq!(indicator.label(), "MACD(13, 30, 10)");
}

#[test]
fn alligator_feeds_median_price_on_bars() {
    let mut from_bars = Alligator::new(2, 1, 2, 1, 2, 1).unwrap();
    let mut from_medians = Alligator::new(2, 1, 2, 1, 2, 1).unwrap();
    let mut from_closes = Alligator::new(2, 1, 2, 1, 2, 1).unwrap();

    let candles = [(105.0, 98.0, 102.0), (110.0, 100.0, 109.0), (108.0, 101.0, 103.0)];
    let mut diverged = false;
    for &(high, low, close) in candles.iter() {
        let on_bar = from_bars.next_candle(&bar(high, low, close)).unwrap();
        let on_median = from_medians
            .next_candle(&MarketData::Float(b((high + low) / 2.0)))
            .unwrap();
        let on_close = from_closes.next_candle(&MarketData::Float(b(close))).unwrap();
        // A bar feeds the three lines its median price, not its close.
        assert_eq!(on_bar, on_median);
        if on_bar != on_close {
            diverged = true;
        }
    }
    assert!(diverged);
}

fn round2(nums: (f64, f64, f64)) -> (f64, f64, f64) {
    let n0 = (nums.0 * 100.0).round() / 100.0;
    let n1 = (nums.1 * 100.0).round() / 100.0;
    let n2 = (nums.2 * 100.0).round() / 100.0;
    (n0, n1, n2)
}

#[test]
fn test_macd() {
    let mut macd = MovingAverageConvergenceDivergence::new(3, 6, 4).unwrap();

    let mut step = |x: f64| {
        let o = macd.next(b(x)).unwrap();
        round2((f(o.macd), f(o.signal), f(o.histogram)))
    };
    assert_eq!(step(2.0), (0.0, 0.0, 0.0));
    assert_eq!(step(3.0), (0.21, 0.09, 0.13));
    assert_eq!(step(4.2), (0.52, 0.26, 0.26));
    assert_eq!(step(7.0), (1.15, 0.62, 0.54));
    assert_eq!(step(6.7), (1.15, 0.83, 0.32));
    assert_eq!(step(6.5), (0.94, 0.87, 0.07));
}

#[test]
fn macd_test_reset() {
    let mut macd = MovingAverageConvergenceDivergence::new(3, 6, 4).unwrap();

    let o = macd.next(b(2.0)).unwrap();
    assert_eq!(round2((f(o.macd), f(o.signal), f(o.histogram))), (0.0, 0.0, 0.0));
    let o = macd.next(b(3.0)).unwrap();
    assert_eq!(round2((f(o.macd), f(o.signal), f(o.histogram))), (0.21, 0.09, 0.13));

    macd.reset();

    let o = macd.next(b(2.0)).unwrap();
    assert_eq!(round2((f(o.macd), f(o.signal), f(o.histogram))), (0.0, 0.0, 0.0));
    let o = macd.next(b(3.0)).unwrap();
    assert_eq!(round2((f(o.macd), f(o.signal), f(o.histogram))), (0.21, 0.09, 0.13));
}

#[test]
fn macd_test_default() {
    let _ = MovingAverageConvergenceDivergence::default();
}

#[test]
fn sd_test_new() {
    assert!(StandardDeviation::new(0).is_err());
    assert!(StandardDeviation::new(1).is_ok());
}

#[test]
fn sd_test_next() {
    let mut sd = StandardDeviation::new(4).unwrap();
    assert_eq!(f(sd.next(b(10.0)).unwrap()), 0.0);
    assert_eq!(f(sd.next(b(20.0)).unwrap()), 5.0);
    assert_eq!(round(f(sd.next(b(30.0)).unwrap())), 8.165);
    assert_eq!(round(f(sd.next(b(20.0)).unwrap())), 7.071);
    assert_eq!(round(f(sd.next(b(10.0)).unwrap())), 7.071);
    assert_eq!(round(f(sd.next(b(100.0)).unwrap())), 35.355);
}

#[test]
fn test_next_floating_point_error() {
    let mut sd = StandardDeviation::new(6).unwrap();
    assert_eq!(f(sd.next(b(1.872)).unwrap()), 0.0);
    assert_eq!(round(f(sd.next(b(1.0)).unwrap())), 0.436);
    assert_eq!(round(f(sd.next(b(1.0)).unwrap())), 0.411);
    assert_eq!(round(f(sd.next(b(1.0)).unwrap())), 0.378);
    assert_eq!(round(f(sd.next(b(1.0)).unwrap())), 0.349);
    assert_eq!(round(f(sd.next(b(1.0)).unwrap())), 0.325);
    assert_eq!(round(f(sd.next(b(1.0)).unwrap())), 0.0);
}

#[test]
fn test_next_same_values() {
    let mut sd = StandardDeviation::new(3).unwrap();
    assert_eq!(f(sd.next(b(4.2)).unwrap()), 0.0);
    assert_eq!(f(sd.next(b(4.2)).unwrap()), 0.0);
    assert_eq!(f(sd.next(b(4.2)).unwrap()), 0.0);
    assert_eq!(f(sd.next(b(4.2)).unwrap()), 0.0);
}

#[test]
fn sd_test_reset() {
    let mut sd = StandardDeviation::new(4).unwrap();
    assert_eq!(f(sd.next(b(10.0)).unwrap()), 0.0);
    assert_eq!(f(sd.next(b(20.0)).unwrap()), 5.0);
    assert_eq!(round(f(sd.next(b(30.0)).unwrap())), 8.165);

    sd.reset();
    assert_eq!(f(sd.next(b(20.0)).unwrap()), 0.0);
}

#[test]
fn sd_test_default() {
    let _ = StandardDeviation::default();
}

#[test]
fn sd_never_negative() {
    // The standard deviation stays non-negative on inputs picked to stress
    // floating cancellation.
    let mut sd = StandardDeviation::new(5).unwrap();
    let inputs = [1e15, 1e15 + 1.0, 1e15 - 1.0, 1e15 + 2.0, 1e15 - 2.0, 1e15, 1e15 + 1.0];
    for x in inputs {
        let out = f(sd.next(b(x)).unwrap());
        assert!(out >= 0.0, "negative deviation {out}");
    }
}

#[test]
fn atr_test_new() {
    assert!(AverageTrueRange::new(0).is_err());
    assert!(AverageTrueRange::new(1).is_ok());
}

#[test]
fn atr_test_next() {
    let mut atr = AverageTrueRange::new(3).unwrap();

    assert_eq!(f(atr.next_candle(&bar(10.0, 7.5, 9.0)).unwrap()), 2.5);
    assert_eq!(f(atr.next_candle(&bar(11.0, 9.0, 9.5)).unwrap()), 2.25);
    assert_eq!(f(atr.next_candle(&bar(9.0, 5.0, 8.0)).unwrap()), 3.375);
}

#[test]
fn atr_test_reset() {
    let mut atr = AverageTrueRange::new(9).unwrap();

    atr.next_candle(&bar(10.0, 7.5, 9.0)).unwrap();
    atr.next_candle(&bar(11.0, 9.0, 9.5)).unwrap();

    atr.reset();
    assert_eq!(f(atr.next_candle(&bar(60.0, 15.0, 51.0)).unwrap()), 45.0);
}

#[test]
fn atr_test_default() {
    let _ = AverageTrueRange::default();
}

#[test]
fn bb_test_new() {
    assert!(BollingerBands::new(0, b(2.0)).is_err());
    assert!(BollingerBands::new(1, b(2.0)).is_ok());
    assert!(BollingerBands::new(2, b(2.0)).is_ok());
}

#[test]
fn bb_test_next() {
    let mut bb = BollingerBands::new(3, b(2.0)).unwrap();

    let a = bb.next(b(2.0)).unwrap();
    let bo = bb.next(b(5.0)).unwrap();
    let c = bb.next(b(1.0)).unwrap();
    let d = bb.next(b(6.25)).unwrap();

    assert_eq!(round(f(a.average)), 2.0);
    assert_eq!(round(f(bo.average)), 3.5);
    assert_eq!(round(f(c.average)), 2.667);
    assert_eq!(round(f(d.average)), 4.083);

    assert_eq!(round(f(a.upper)), 2.0);
    assert_eq!(round(f(bo.upper)), 6.5);
    assert_eq!(round(f(c.upper)), 6.066);
    assert_eq!(round(f(d.upper)), 8.562);

    assert_eq!(round(f(a.lower)), 2.0);
    assert_eq!(round(f(bo.lower)), 0.5);
    assert_eq!(round(f(c.lower)), -0.733);
    assert_eq!(round(f(d.lower)), -0.395);
}

#[test]
fn bb_test_reset() {
    let mut bb = BollingerBands::new(5, b(2.0)).unwrap();

    let out = bb.next(b(3.0)).unwrap();

    assert_eq!(f(out.average), 3.0);
    assert_eq!(f(out.upper), 3.0);
    assert_eq!(f(out.lower), 3.0);

    bb.next(b(2.5)).unwrap();
    bb.next(b(3.5)).unwrap();
    bb.next(b(4.0)).unwrap();

    let out = bb.next(b(2.0)).unwrap();

    assert_eq!(f(out.average), 3.0);
    assert_eq!(round(f(out.upper)), 4.414);
    assert_eq!(round(f(out.lower)), 1.586);

    bb.reset();
    let out = bb.next(b(3.0)).unwrap();
    assert_eq!(f(out.average), 3.0);
    assert_eq!(f(out.upper), 3.0);
    assert_eq!(f(out.lower), 3.0);
}

#[test]
fn bb_test_default() {
    let _ = BollingerBands::default();
}

#[test]
fn test_smma_basic() {
    let mut smma = SmoothedMovingAverage::new(3).unwrap();
    assert_eq!(f(smma.next(b(1.0)).unwrap()), 1.0);
    assert_eq!(f(smma.next(b(2.0)).unwrap()), 2.0);
    // The dummy zero is evicted by the third real input, so the seed
    // average is (1 + 2 + 3) / 3 = 2, one input earlier than without it.
    assert_eq!(f(smma.next(b(3.0)).unwrap()), 2.0);
    assert!((f(smma.next(b(4.0)).unwrap()) - 2.6666667).abs() < 1e-6);
    assert!((f(smma.next(b(5.0)).unwrap()) - 3.4444444).abs() < 1e-6);
}

fn assert_approx_eq(a: f64, b: f64, epsilon: f64) {
    assert!((a - b).abs() <= epsilon, "{a} is not approximately equal to {b}");
}

#[test]
fn test_stochastic_oscillator_basic_calculation() {
    let mut stoch = StochasticOscillator::new(3, 2).unwrap();

    let candles = [
        bar(20.0, 10.0, 15.0),
        bar(22.0, 12.0, 20.0),
        bar(28.0, 18.0, 25.0),
        bar(30.0, 20.0, 28.0),
        bar(27.0, 19.0, 22.0),
        bar(25.0, 15.0, 16.0),
    ];

    // Window [C1]: HH=20, LL=10, K = (15-10)/(20-10) = 50.0.
    let (k1, _d1) = stoch.next_candle(&candles[0]).unwrap();
    assert_approx_eq(f(k1), 50.0, 0.001);

    // Window [C1, C2]: HH=22, LL=10, K = (20-10)/(22-10) = 83.333.
    // D = (50.0 + 83.333) / 2 = 66.666.
    let (k2, d2) = stoch.next_candle(&candles[1]).unwrap();
    assert_approx_eq(f(k2), 83.333, 0.001);
    assert_approx_eq(f(d2), 66.666, 0.001);

    // Window [C1, C2, C3]: HH=28, LL=10, K = (25-10)/(28-10) = 83.333.
    // D = (83.333 + 83.333) / 2 = 83.333.
    let (k3, d3) = stoch.next_candle(&candles[2]).unwrap();
    assert_approx_eq(f(k3), 83.333, 0.001);
    assert_approx_eq(f(d3), 83.333, 0.001);

    // Window [C2, C3, C4]: HH=30, LL=12, K = (28-12)/(30-12) = 88.888.
    // D = (83.333 + 88.888) / 2 = 86.111.
    let (k4, d4) = stoch.next_candle(&candles[3]).unwrap();
    assert_approx_eq(f(k4), 88.888, 0.001);
    assert_approx_eq(f(d4), 86.111, 0.001);

    // Window [C3, C4, C5]: HH=30, LL=18, K = (22-18)/(30-18) = 33.333.
    // D = (88.888 + 33.333) / 2 = 61.111.
    let (k5, d5) = stoch.next_candle(&candles[4]).unwrap();
    assert_approx_eq(f(k5), 33.333, 0.001);
    assert_approx_eq(f(d5), 61.111, 0.001);

    // Window [C4, C5, C6]: HH=30, LL=15, K = (16-15)/(30-15) = 6.666.
    // D = (4/12 + 1/15) / 2 = 1/5 exactly in the ratio domain, so 20.0.
    let (k6, d6) = stoch.next_candle(&candles[5]).unwrap();
    assert_approx_eq(f(k6), 6.666, 0.001);
    assert_approx_eq(f(d6), 20.0, 0.0001);
}

#[test]
fn test_stochastic_oscillator_default() {
    let s = StochasticOscillator::default();
    assert_eq!(s.period, 14);
    assert_eq!(s.smoothing_period, 3);
}

#[test]
fn test_stochastic_oscillator_reset() {
    let mut stoch = StochasticOscillator::new(3, 2).unwrap();
    let first = stoch.next_candle(&bar(20.0, 10.0, 15.0)).unwrap();
    stoch.next_candle(&bar(22.0, 12.0, 20.0)).unwrap();

    stoch.reset();
    let again = stoch.next_candle(&bar(20.0, 10.0, 15.0)).unwrap();
    assert_eq!(first, again);
}

#[test]
fn test_on_balance_volume() {
    let mut obv = OnBalanceVolume::new();

    let d1 = MarketData::Bar(Bar::new().set_close(b(10.0)).set_volume(b(100.0)));
    let d2 = MarketData::Bar(Bar::new().set_close(b(12.0)).set_volume(b(50.0)));
    let d3 = MarketData::Bar(Bar::new().set_close(b(11.0)).set_volume(b(30.0)));
    let d4 = MarketData::Bar(Bar::new().set_close(b(11.0)).set_volume(b(99.0)));

    assert_eq!(f(obv.next_candle(&d1).unwrap()), 100.0);
    assert_eq!(f(obv.next_candle(&d2).unwrap()), 150.0);
    assert_eq!(f(obv.next_candle(&d3).unwrap()), 120.0);
    // An unchanged close holds the running sum.
    assert_eq!(f(obv.next_candle(&d4).unwrap()), 120.0);
}

#[test]
fn sma_partial_average() {
    let mut sma = SimpleMovingAverage::new(3).unwrap();
    assert_eq!(f(sma.next(b(2.0)).unwrap()), 2.0);
    assert_eq!(f(sma.next(b(5.0)).unwrap()), 3.5);
    assert_eq!(round(f(sma.next(b(1.0)).unwrap())), 2.667);
    assert_eq!(round(f(sma.next(b(6.25)).unwrap())), 4.083);
}

#[test]
fn rsi_first_call_is_neutral() {
    let mut rsi = RelativeStrengthIndex::new(14).unwrap();
    assert_eq!(f(rsi.next(b(100.0)).unwrap()), 50.0);
    let rising = f(rsi.next(b(110.0)).unwrap());
    assert!(rising > 50.0 && rising <= 100.0);
    let falling = f(rsi.next(b(90.0)).unwrap());
    assert!((0.0..=100.0).contains(&falling));
}

#[test]
fn true_range_uses_previous_close() {
    let mut tr = TrueRange::new();
    assert_eq!(f(tr.next_candle(&bar(10.0, 7.5, 9.0)).unwrap()), 2.5);
    // max(11 - 9, |11 - 9|, |9 - 9|) = 2
    assert_eq!(f(tr.next_candle(&bar(11.0, 9.0, 9.5)).unwrap()), 2.0);
    // max(9 - 5, |9 - 9.5|, |5 - 9.5|) = 4.5
    assert_eq!(f(tr.next_candle(&bar(9.0, 5.0, 8.0)).unwrap()), 4.5);
}

#[test]
fn williams_r_waits_for_full_window() {
    let mut wr = WilliamsR::new(2).unwrap();
    // The window is not full yet: the documented early-return is 0.
    assert_eq!(f(wr.next_candle(&bar(12.0, 8.0, 10.0)).unwrap()), 0.0);
    // highest = 14, lowest = 8: (14 - 13) / (14 - 8) * -100
    let v = f(wr.next_candle(&bar(14.0, 9.0, 13.0)).unwrap());
    assert_eq!(round(v), round((14.0 - 13.0) / (14.0 - 8.0) * -100.0));
}

#[test]
fn mae_deviation_from_rolling_mean() {
    let mut mae = MeanAbsoluteError::new(3).unwrap();
    assert_eq!(f(mae.next(b(4.0)).unwrap()), 0.0);
    // window [4, 8]: mean 6, deviations |4-6| and |8-6| average to 2
    assert_eq!(f(mae.next(b(8.0)).unwrap()), 2.0);
}

#[test]
fn reset_matches_fresh_instance() {
    // Resetting and re-feeding the same inputs reproduces a fresh
    // instance's outputs exactly, for a window-based and a smoothing-based
    // indicator alike.
    let inputs = [3.5, 7.25, 1.0, 9.5, 2.125, 4.75];

    let mut a = ExponentialMovingAverage::new(4).unwrap();
    for x in inputs {
        a.next(b(x)).unwrap();
    }
    a.reset();
    let mut fresh = ExponentialMovingAverage::new(4).unwrap();
    for x in inputs {
        assert_eq!(a.next(b(x)).unwrap(), fresh.next(b(x)).unwrap());
    }

    let mut s = StandardDeviation::new(3).unwrap();
    for x in inputs {
        s.next(b(x)).unwrap();
    }
    s.reset();
    let mut fresh = StandardDeviation::new(3).unwrap();
    for x in inputs {
        assert_eq!(s.next(b(x)).unwrap(), fresh.next(b(x)).unwrap());
    }
}
