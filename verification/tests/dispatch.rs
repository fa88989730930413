//! Tests of the hand-written dispatch over the indicator sum type.

use chipa_ta::indicators::indicator::Indicator;
use chipa_ta::strategy::MarketData;
use chipa_ta::types::{OutputShape, OutputType};

fn b(x: f64) -> u64 {
    x.to_bits()
}

fn f(x: u64) -> f64 {
    f64::from_bits(x)
}

#[test]
fn test_auto_impl_immutable_method() {
    // The immutable operations dispatch to the active variant.
    let ema = Indicator::ema(14).unwrap();
    let macd = Indicator::macd(12, 26, 9).unwrap();
    assert_eq!(ema.period(), 14);
    assert_eq!(macd.period(), 26);
    assert!(matches!(ema.output_shape(), OutputShape::Shape(1)));
    assert!(matches!(macd.output_shape(), OutputShape::Shape(3)));
}

#[test]
fn test_auto_impl_mutable_method() {
    // The mutable operations dispatch to the active variant and advance
    // its state.
    let mut ema = Indicator::ema(3).unwrap();
    let data = MarketData::Float(b(2.0));
    match ema.next_candle(&data).unwrap() {
        OutputType::Single(v) => assert_eq!(f(v), 2.0),
        other => panic!("unexpected output {other:?}"),
    }
    let data = MarketData::Float(b(5.0));
    match ema.next_candle(&data).unwrap() {
        OutputType::Single(v) => assert_eq!(f(v), 3.5),
        other => panic!("unexpected output {other:?}"),
    }
    ema.reset();
    let data = MarketData::Float(b(2.0));
    match ema.next_candle(&data).unwrap() {
        OutputType::Single(v) => assert_eq!(f(v), 2.0),
        other => panic!("unexpected output {other:?}"),
    }
}

#[test]
fn factories_validate_parameters() {
    assert!(Indicator::ema(0).is_err());
    assert!(Indicator::sma(0).is_err());
    assert!(Indicator::rsi(0).is_err());
    assert!(Indicator::atr(0).is_err());
    assert!(Indicator::sd(0).is_err());
    assert!(Indicator::mae(0).is_err());
    assert!(Indicator::bb(0, b(2.0)).is_err());
    assert!(Indicator::kc(0, b(2.0)).is_err());
    assert!(Indicator::stoch(0, 3).is_err());
    assert!(Indicator::stoch(14, 0).is_err());
    assert!(Indicator::williams_r(0).is_err());
    assert!(Indicator::smma(1).is_err());
    assert!(Indicator::alligator(1, 1, 8, 5, 5, 3).is_err());
    assert!(Indicator::alligator(13, 0, 8, 5, 5, 3).is_err());
    assert!(Indicator::super_trend(b(3.0), 0).is_err());
    assert!(Indicator::ao(0, 34).is_err());
}

#[test]
fn macd_output_components() {
    let mut macd = Indicator::macd(3, 6, 4).unwrap();
    let data = MarketData::Float(b(2.0));
    match macd.next_candle(&data).unwrap() {
        OutputType::Array(v) => {
            assert_eq!(v.len(), 3);
            assert_eq!(f(v[0]), 0.0);
            assert_eq!(f(v[1]), 0.0);
            assert_eq!(f(v[2]), 0.0);
        },
        other => panic!("unexpected output {other:?}"),
    }
}

#[test]
fn alligator_shifts_its_lines() {
    let mut gator = Indicator::alligator(2, 1, 2, 1, 2, 1).unwrap();
    let data = MarketData::Float(b(10.0));
    // The first output is the empty-buffer fallback: zero for each line.
    match gator.next_candle(&data).unwrap() {
        OutputType::Array(v) => {
            assert_eq!(v.len(), 3);
            assert_eq!(f(v[0]), 0.0);
        },
        other => panic!("unexpected output {other:?}"),
    }
    // The second output is the delayed first value of each line.
    match gator.next_candle(&data).unwrap() {
        OutputType::Array(v) => assert_eq!(f(v[0]), 10.0),
        other => panic!("unexpected output {other:?}"),
    }
}

#[test]
fn pass_through_indicator() {
    let mut none = Indicator::none();
    assert_eq!(none.period(), 0);
    let data = MarketData::Float(b(42.5));
    match none.next_candle(&data).unwrap() {
        OutputType::Single(v) => assert_eq!(f(v), 42.5),
        other => panic!("unexpected output {other:?}"),
    }
}
