//! Tests of the condition tree, the strategy tree and the warm-up state
//! machine.

use chipa_ta::error::{StrategyError, TaError};
use chipa_ta::indicators::indicator::Indicator;
use chipa_ta::strategy::strat::Strategy;
use chipa_ta::strategy::{Action, Condition, MarketData, SequenceMode, StrategyNode};
use chipa_ta::types::{Comparison, OutputType, Statics};

fn b(x: f64) -> u64 {
    x.to_bits()
}

#[test]
fn test_rsi_strategy_action() {
    // RSI's first update caches the neutral 50, and 50 > 40 routes to Sell.
    let mut strategy = StrategyNode::If {
        condition: Condition::greater_than(
            Indicator::rsi(14).unwrap(),
            OutputType::Single(b(40.0)),
        ),
        then_branch: Box::new(StrategyNode::Action(Action::Sell)),
        else_branch: Some(Box::new(StrategyNode::Action(Action::Hold))),
    };
    let data = MarketData::Float(b(100.0));
    strategy.update(&data).unwrap();
    let action = strategy.evaluate(&data).unwrap();
    assert_eq!(action, Action::Sell);
}

#[test]
fn test_validate_valid_strategy() {
    let node = StrategyNode::Action(Action::Buy);
    assert!(node.validate().is_ok());

    let node = StrategyNode::If {
        condition: Condition::greater_than(
            Indicator::rsi(5).unwrap(),
            OutputType::Single(b(0.0)),
        ),
        then_branch: Box::new(StrategyNode::Action(Action::Sell)),
        else_branch: Some(Box::new(StrategyNode::Action(Action::Hold))),
    };
    assert!(node.validate().is_ok());

    let seq = StrategyNode::Sequence {
        mode: SequenceMode::First,
        nodes: vec![
            StrategyNode::Action(Action::Buy),
            StrategyNode::Action(Action::Sell),
        ],
    };
    assert!(seq.validate().is_ok());
}

#[test]
fn test_validate_missing_else_branch() {
    let node = StrategyNode::If {
        condition: Condition::less_than(
            Indicator::rsi(3).unwrap(),
            OutputType::Single(b(0.0)),
        ),
        then_branch: Box::new(StrategyNode::Action(Action::Hold)),
        else_branch: None,
    };
    let err = node.validate().unwrap_err();
    assert_eq!(err, TaError::Strategy(StrategyError::MissingElseBranch));
}

#[test]
fn test_validate_empty_sequence() {
    let seq = StrategyNode::Sequence { mode: SequenceMode::Any, nodes: vec![] };
    let err = seq.validate().unwrap_err();
    assert_eq!(err, TaError::Strategy(StrategyError::EmptySequence));
}

#[test]
fn validate_rejects_shape_mismatch() {
    // An RSI yields a single value; a three-element array cannot match it.
    let node = StrategyNode::If {
        condition: Condition::greater_than(
            Indicator::rsi(5).unwrap(),
            OutputType::Array(vec![b(1.0), b(2.0), b(3.0)]),
        ),
        then_branch: Box::new(StrategyNode::Action(Action::Sell)),
        else_branch: Some(Box::new(StrategyNode::Action(Action::Hold))),
    };
    let err = node.validate().unwrap_err();
    assert!(matches!(
        err,
        TaError::Strategy(StrategyError::IncompatibleShapes { .. })
    ));
}

#[test]
fn validate_rejects_zero_period() {
    let node = StrategyNode::If {
        condition: Condition::greater_than(Indicator::none(), OutputType::Single(b(1.0))),
        then_branch: Box::new(StrategyNode::Action(Action::Sell)),
        else_branch: Some(Box::new(StrategyNode::Action(Action::Hold))),
    };
    let err = node.validate().unwrap_err();
    assert!(matches!(
        err,
        TaError::Strategy(StrategyError::InvalidIndicatorPeriod { .. })
    ));
}

#[test]
fn test_max_period_composed() {
    let cond1 = Condition::greater_than(Indicator::rsi(10).unwrap(), OutputType::Single(b(0.0)));
    let cond2 = Condition::less_than(Indicator::rsi(20).unwrap(), OutputType::Single(b(0.0)));
    let node1 = StrategyNode::If {
        condition: cond1,
        then_branch: Box::new(StrategyNode::Action(Action::Hold)),
        else_branch: None,
    };
    let node2 = StrategyNode::If {
        condition: cond2,
        then_branch: Box::new(StrategyNode::Action(Action::Hold)),
        else_branch: None,
    };
    let seq = StrategyNode::Sequence { mode: SequenceMode::All, nodes: vec![node1, node2] };
    assert_eq!(seq.max_period(), Some(20));
}

#[test]
fn crossover_false_on_first_tick() {
    // The very first evaluation of a crossing condition is false, whatever
    // the value is.
    let mut cond = Condition::cross_over(
        Indicator::ema(2).unwrap(),
        OutputType::Single(b(10.0)),
    );
    let data = MarketData::Float(b(100.0));
    cond.update(&data).unwrap();
    assert_eq!(cond.evaluate(&data).unwrap(), false);
    // The cached 100 is above 10 and stays there: still no crossing.
    cond.update(&data).unwrap();
    assert_eq!(cond.evaluate(&data).unwrap(), false);

    let mut under = Condition::cross_under(
        Indicator::ema(2).unwrap(),
        OutputType::Single(b(10.0)),
    );
    under.update(&data).unwrap();
    assert_eq!(under.evaluate(&data).unwrap(), false);
}

#[test]
fn crossover_detects_crossing() {
    let mut cond = Condition::cross_over(
        Indicator::ema(1).unwrap(),
        OutputType::Single(b(10.0)),
    );
    // EMA(1) tracks the input exactly: 5 is below the threshold.
    let below = MarketData::Float(b(5.0));
    cond.update(&below).unwrap();
    assert_eq!(cond.evaluate(&below).unwrap(), false);
    // 15 crosses over 10.
    let above = MarketData::Float(b(15.0));
    cond.update(&above).unwrap();
    assert_eq!(cond.evaluate(&above).unwrap(), true);
    // Staying above is not a new crossing.
    cond.update(&above).unwrap();
    assert_eq!(cond.evaluate(&above).unwrap(), false);
}

#[test]
fn shape_mismatch_yields_error_not_panic() {
    // Comparing a single against an array of another length is a typed
    // error, never a panic and never a silently wrong boolean.
    let single = OutputType::Single(b(1.0));
    let wide = OutputType::Array(vec![b(1.0), b(2.0)]);
    assert!(single.compare(&wide).is_err());
    assert!(wide.compare(&single).is_err());
    // Length one is compatible with a single.
    let narrow = OutputType::Array(vec![b(1.0)]);
    assert_eq!(single.compare(&narrow).unwrap(), Some(Comparison::Equal));
}

#[test]
fn sentinel_compares_as_named() {
    let single = OutputType::Single(b(1.0));
    assert_eq!(
        single.compare(&OutputType::Static(Statics::True)).unwrap(),
        Some(Comparison::Equal)
    );
    assert_eq!(
        single.compare(&OutputType::Static(Statics::Greater)).unwrap(),
        Some(Comparison::Greater)
    );
    assert_eq!(single.compare(&OutputType::Static(Statics::False)).unwrap(), None);
}

#[test]
fn composite_wildcards_pick_one_lane() {
    // A triple against [0, True, True] compares as its first lane alone.
    let triple = OutputType::Array(vec![b(5.0), b(-3.0), b(7.0)]);
    let masked = OutputType::Custom(vec![
        OutputType::Single(b(0.0)),
        OutputType::Static(Statics::True),
        OutputType::Static(Statics::True),
    ]);
    assert_eq!(triple.compare(&masked).unwrap(), Some(Comparison::Greater));
}

#[test]
fn warmup_gates_first_periods() {
    // With max_period 3, bars 1 to 3 yield no decision (not even Hold) and
    // bar 4 yields a real action; the boundary is exact.
    let node = StrategyNode::If {
        condition: Condition::greater_than(
            Indicator::sma(3).unwrap(),
            OutputType::Single(b(0.0)),
        ),
        then_branch: Box::new(StrategyNode::Action(Action::Buy)),
        else_branch: Some(Box::new(StrategyNode::Action(Action::Hold))),
    };
    assert!(node.validate().is_ok());
    let mut strategy = Strategy::new(node);
    assert_eq!(strategy.period(), 3);
    let data = MarketData::Float(b(10.0));
    assert_eq!(strategy.evaluate(&data).unwrap(), None);
    assert_eq!(strategy.evaluate(&data).unwrap(), None);
    assert_eq!(strategy.evaluate(&data).unwrap(), None);
    assert_eq!(strategy.evaluate(&data).unwrap(), Some(Action::Buy));
    assert_eq!(strategy.evaluate(&data).unwrap(), Some(Action::Buy));
}

#[test]
fn strategy_reset_restarts_warmup() {
    let node = StrategyNode::If {
        condition: Condition::greater_than(
            Indicator::sma(2).unwrap(),
            OutputType::Single(b(0.0)),
        ),
        then_branch: Box::new(StrategyNode::Action(Action::Buy)),
        else_branch: Some(Box::new(StrategyNode::Action(Action::Hold))),
    };
    let mut strategy = Strategy::new(node);
    let data = MarketData::Float(b(10.0));
    assert_eq!(strategy.evaluate(&data).unwrap(), None);
    assert_eq!(strategy.evaluate(&data).unwrap(), None);
    assert_eq!(strategy.evaluate(&data).unwrap(), Some(Action::Buy));

    strategy.reset();
    // A reset strategy behaves like a freshly built one.
    assert_eq!(strategy.evaluate(&data).unwrap(), None);
    assert_eq!(strategy.evaluate(&data).unwrap(), None);
    assert_eq!(strategy.evaluate(&data).unwrap(), Some(Action::Buy));
}

#[test]
fn timeout_holds_and_restarts() {
    let node = StrategyNode::Timeout {
        cooldown: 2,
        remaining: 1,
        action: Box::new(StrategyNode::Action(Action::Sell)),
    };
    let mut strategy = Strategy::new(node);
    let data = MarketData::Float(b(1.0));
    // No indicator: the strategy is ready after the first transition.
    assert_eq!(strategy.evaluate(&data).unwrap(), Some(Action::Hold));
    // The cooldown elapsed: the inner action fires and restarts it.
    assert_eq!(strategy.evaluate(&data).unwrap(), Some(Action::Sell));
    assert_eq!(strategy.evaluate(&data).unwrap(), Some(Action::Hold));
    assert_eq!(strategy.evaluate(&data).unwrap(), Some(Action::Hold));
    assert_eq!(strategy.evaluate(&data).unwrap(), Some(Action::Sell));
}

#[test]
fn sequence_modes_aggregate() {
    let data = MarketData::Float(b(1.0));

    let mut first = StrategyNode::Sequence {
        mode: SequenceMode::First,
        nodes: vec![
            StrategyNode::Action(Action::Hold),
            StrategyNode::Action(Action::Sell),
            StrategyNode::Action(Action::Buy),
        ],
    };
    assert_eq!(first.evaluate(&data).unwrap(), Action::Sell);

    let mut all_agree = StrategyNode::Sequence {
        mode: SequenceMode::All,
        nodes: vec![
            StrategyNode::Action(Action::Buy),
            StrategyNode::Action(Action::Buy),
        ],
    };
    assert_eq!(all_agree.evaluate(&data).unwrap(), Action::Buy);

    let mut all_disagree = StrategyNode::Sequence {
        mode: SequenceMode::All,
        nodes: vec![
            StrategyNode::Action(Action::Buy),
            StrategyNode::Action(Action::Sell),
        ],
    };
    assert_eq!(all_disagree.evaluate(&data).unwrap(), Action::Hold);

    let mut majority = StrategyNode::Sequence {
        mode: SequenceMode::Majority,
        nodes: vec![
            StrategyNode::Action(Action::Buy),
            StrategyNode::Action(Action::Buy),
            StrategyNode::Action(Action::Sell),
        ],
    };
    assert_eq!(majority.evaluate(&data).unwrap(), Action::Buy);

    let mut tied = StrategyNode::Sequence {
        mode: SequenceMode::Majority,
        nodes: vec![
            StrategyNode::Action(Action::Buy),
            StrategyNode::Action(Action::Sell),
        ],
    };
    assert_eq!(tied.evaluate(&data).unwrap(), Action::Hold);

    let mut sixty_percent = StrategyNode::Sequence {
        mode: SequenceMode::Percentage(60),
        nodes: vec![
            StrategyNode::Action(Action::Sell),
            StrategyNode::Action(Action::Sell),
            StrategyNode::Action(Action::Buy),
        ],
    };
    assert_eq!(sixty_percent.evaluate(&data).unwrap(), Action::Sell);

    let mut ninety_percent = StrategyNode::Sequence {
        mode: SequenceMode::Percentage(90),
        nodes: vec![
            StrategyNode::Action(Action::Sell),
            StrategyNode::Action(Action::Sell),
            StrategyNode::Action(Action::Buy),
        ],
    };
    assert_eq!(ninety_percent.evaluate(&data).unwrap(), Action::Hold);
}

#[test]
fn evaluate_before_update_is_rejected() {
    let mut cond = Condition::greater_than(
        Indicator::ema(2).unwrap(),
        OutputType::Single(b(0.0)),
    );
    let data = MarketData::Float(b(1.0));
    let err = cond.evaluate(&data).unwrap_err();
    assert!(matches!(err, TaError::NotInitialized(_)));
}

#[test]
fn test_supertrend_rsi_ema_strategy() {
    let super_trend = Indicator::super_trend(b(3.0), 10).unwrap();
    let rsi = Indicator::rsi(14).unwrap();
    let ema_long = Indicator::ema(200).unwrap();

    // The band pair compares against the close in both lanes, as the
    // persisted strategies write it.
    let long_conditions = Condition::and(vec![
        Condition::less_than(
            super_trend,
            OutputType::Custom(vec![OutputType::Close, OutputType::Close]),
        ),
        Condition::greater_than(rsi, OutputType::Single(b(50.0))),
        Condition::less_than(ema_long, OutputType::Close),
    ]);

    let super_trend2 = Indicator::super_trend(b(3.0), 10).unwrap();
    let rsi2 = Indicator::rsi(14).unwrap();
    let ema_long2 = Indicator::ema(200).unwrap();
    let short_conditions = Condition::and(vec![
        Condition::greater_than(
            super_trend2,
            OutputType::Custom(vec![OutputType::Close, OutputType::Close]),
        ),
        Condition::less_than(rsi2, OutputType::Single(b(50.0))),
        Condition::greater_than(ema_long2, OutputType::Close),
    ]);

    let mut strategy = StrategyNode::If {
        condition: long_conditions,
        then_branch: Box::new(StrategyNode::Action(Action::Buy)),
        else_branch: Some(Box::new(StrategyNode::If {
            condition: short_conditions,
            then_branch: Box::new(StrategyNode::Action(Action::Sell)),
            else_branch: Some(Box::new(StrategyNode::Action(Action::Hold))),
        })),
    };

    assert!(strategy.validate().is_ok());
    let data = MarketData::Bar(
        chipa_ta::helper_types::Bar::new()
            .set_open(b(100.0))
            .set_price(b(102.0))
            .set_high(b(105.0))
            .set_low(b(98.0))
            .set_close(b(102.0))
            .set_volume(b(1000.0)),
    );
    strategy.update(&data).unwrap();
    let action = strategy.evaluate(&data).unwrap();
    assert!(matches!(action, Action::Buy | Action::Sell | Action::Hold));
}

#[test]
fn rebuilt_indicator_matches_reset_one() {
    // An indicator rebuilt from its declared parameters behaves exactly
    // like one that was reset: the non-persisted caches start empty in
    // both.
    let data = [4.0, 9.0, 2.0, 7.5, 3.25];
    let mut used = Indicator::macd(3, 6, 4).unwrap();
    for x in data {
        used.next_candle(&MarketData::Float(b(x))).unwrap();
    }
    used.reset();
    let mut rebuilt = Indicator::macd(3, 6, 4).unwrap();
    for x in data {
        let a = used.next_candle(&MarketData::Float(b(x))).unwrap();
        let c = rebuilt.next_candle(&MarketData::Float(b(x))).unwrap();
        assert_eq!(format!("{a:?}"), format!("{c:?}"));
    }
}
