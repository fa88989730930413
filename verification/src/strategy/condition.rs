//! Comparison conditions over indicators, with the boolean combinators that
//! join them into a tree.

use vstd::prelude::*;

use crate::error::{OutputError, StrategyError, TaError, TaResult};
use crate::indicators::indicator::{
    ind_fresh, ind_out_candle, ind_period, ind_shape, ind_step_rel, Indicator,
};
use crate::strategy::market_data::MarketData;
use crate::strategy::wrapper::IndicatorState;
use crate::types::{
    cmp_values, resolve_model, shape_of, val_view, Comparison, OutputShape, OutputType, ShapeModel,
    ValueModel,
};

verus! {

/// A comparison operator; the two crossing operators carry the previous
/// left-hand value they compare against.
#[derive(Debug, Clone)]
pub enum Operator {
    GreaterThan,
    LessThan,
    Equals,
    GreaterThanOrEqual,
    LessThanOrEqual,
    CrossOver(Option<OutputType>),
    CrossUnder(Option<OutputType>),
}

/// The model of an operator: its kind and the model of its stored value.
pub enum OpModel {
    Gt,
    Lt,
    Eq,
    Ge,
    Le,
    CrossOver(Option<ValueModel>),
    CrossUnder(Option<ValueModel>),
}

/// The model of an `Operator`.
pub open spec fn op_view(o: Operator) -> OpModel {
    match o {
        Operator::GreaterThan => OpModel::Gt,
        Operator::LessThan => OpModel::Lt,
        Operator::Equals => OpModel::Eq,
        Operator::GreaterThanOrEqual => OpModel::Ge,
        Operator::LessThanOrEqual => OpModel::Le,
        Operator::CrossOver(p) => OpModel::CrossOver(
            match p {
                Some(v) => Some(val_view(v)),
                None => None,
            },
        ),
        Operator::CrossUnder(p) => OpModel::CrossUnder(
            match p {
                Some(v) => Some(val_view(v)),
                None => None,
            },
        ),
    }
}

/// How an evaluation fails: a cache read before any update, or a comparison
/// of incompatible shapes.
pub enum EvalErr {
    NotReady,
    Cmp(OutputError),
}

/// What one operator application yields, and the operator state it leaves:
/// the plain comparisons are stateless; a crossing operator compares the
/// previous left-hand value against the threshold and the current one, is
/// false on its very first evaluation, and always stores the current
/// left-hand value.
pub open spec fn op_eval(op: OpModel, lhs: ValueModel, rhs: ValueModel) -> (
    Result<bool, EvalErr>,
    OpModel,
) {
    match op {
        OpModel::Gt => (
            match cmp_values(lhs, rhs) {
                Err(e) => Err(EvalErr::Cmp(e)),
                Ok(o) => Ok(o == Some(Comparison::Greater)),
            },
            op,
        ),
        OpModel::Lt => (
            match cmp_values(lhs, rhs) {
                Err(e) => Err(EvalErr::Cmp(e)),
                Ok(o) => Ok(o == Some(Comparison::Less)),
            },
            op,
        ),
        OpModel::Eq => (
            match cmp_values(lhs, rhs) {
                Err(e) => Err(EvalErr::Cmp(e)),
                Ok(o) => Ok(o == Some(Comparison::Equal)),
            },
            op,
        ),
        OpModel::Ge => (
            match cmp_values(lhs, rhs) {
                Err(e) => Err(EvalErr::Cmp(e)),
                Ok(o) => Ok(o == Some(Comparison::Greater) || o == Some(Comparison::Equal)),
            },
            op,
        ),
        OpModel::Le => (
            match cmp_values(lhs, rhs) {
                Err(e) => Err(EvalErr::Cmp(e)),
                Ok(o) => Ok(o == Some(Comparison::Less) || o == Some(Comparison::Equal)),
            },
            op,
        ),
        OpModel::CrossOver(prev) => (
            match prev {
                None => Ok(false),
                Some(p) => match (cmp_values(p, rhs), cmp_values(lhs, rhs)) {
                    (Err(e), _) => Err(EvalErr::Cmp(e)),
                    (_, Err(e)) => Err(EvalErr::Cmp(e)),
                    (Ok(a), Ok(b)) => Ok(
                        (a == Some(Comparison::Less) || a == Some(Comparison::Equal)) && b == Some(
                            Comparison::Greater,
                        ),
                    ),
                },
            },
            OpModel::CrossOver(Some(lhs)),
        ),
        OpModel::CrossUnder(prev) => (
            match prev {
                None => Ok(false),
                Some(p) => match (cmp_values(p, rhs), cmp_values(lhs, rhs)) {
                    (Err(e), _) => Err(EvalErr::Cmp(e)),
                    (_, Err(e)) => Err(EvalErr::Cmp(e)),
                    (Ok(a), Ok(b)) => Ok(
                        (a == Some(Comparison::Greater) || a == Some(Comparison::Equal)) && b
                            == Some(Comparison::Less),
                    ),
                },
            },
            OpModel::CrossUnder(Some(lhs)),
        ),
    }
}

impl Operator {
    /// The operator's symbol.
    pub fn as_str(&self) -> (r: &'static str) {
        match self {
            Operator::GreaterThan => ">",
            Operator::LessThan => "<",
            Operator::Equals => "==",
            Operator::GreaterThanOrEqual => ">=",
            Operator::LessThanOrEqual => "<=",
            Operator::CrossOver(_) => "crossover",
            Operator::CrossUnder(_) => "crossunder",
        }
    }

    /// Applies the operator to two resolved values, updating the crossing
    /// state.
    pub fn evaluate(&mut self, lhs: &OutputType, rhs: &OutputType) -> (r: TaResult<bool>)
        ensures
            ({
                let (res, op2) = op_eval(op_view(*old(self)), val_view(*lhs), val_view(*rhs));
                &&& op_view(*final(self)) == op2
                &&& match res {
                    Ok(b) => r == Ok::<bool, TaError>(b),
                    Err(EvalErr::Cmp(e)) => r == Err::<bool, TaError>(TaError::Cmp(e)),
                    Err(EvalErr::NotReady) => r is Err,
                }
            }),
    {
        match self {
            Operator::GreaterThan => match lhs.compare(rhs) {
                Err(e) => Err(TaError::Cmp(e)),
                Ok(o) => Ok(o == Some(Comparison::Greater)),
            },
            Operator::LessThan => match lhs.compare(rhs) {
                Err(e) => Err(TaError::Cmp(e)),
                Ok(o) => Ok(o == Some(Comparison::Less)),
            },
            Operator::Equals => match lhs.compare(rhs) {
                Err(e) => Err(TaError::Cmp(e)),
                Ok(o) => Ok(o == Some(Comparison::Equal)),
            },
            Operator::GreaterThanOrEqual => match lhs.compare(rhs) {
                Err(e) => Err(TaError::Cmp(e)),
                Ok(o) => Ok(o == Some(Comparison::Greater) || o == Some(Comparison::Equal)),
            },
            Operator::LessThanOrEqual => match lhs.compare(rhs) {
                Err(e) => Err(TaError::Cmp(e)),
                Ok(o) => Ok(o == Some(Comparison::Less) || o == Some(Comparison::Equal)),
            },
            Operator::CrossOver(prev) => {
                let result: TaResult<bool> = match prev {
                    None => Ok(false),
                    Some(p) => match (p.compare(rhs), lhs.compare(rhs)) {
                        (Err(e), _) => Err(TaError::Cmp(e)),
                        (_, Err(e)) => Err(TaError::Cmp(e)),
                        (Ok(a), Ok(b)) => Ok(
                            (a == Some(Comparison::Less) || a == Some(Comparison::Equal)) && b
                                == Some(Comparison::Greater),
                        ),
                    },
                };
                *self = Operator::CrossOver(Some(lhs.clone()));
                result
            },
            Operator::CrossUnder(prev) => {
                let result: TaResult<bool> = match prev {
                    None => Ok(false),
                    Some(p) => match (p.compare(rhs), lhs.compare(rhs)) {
                        (Err(e), _) => Err(TaError::Cmp(e)),
                        (_, Err(e)) => Err(TaError::Cmp(e)),
                        (Ok(a), Ok(b)) => Ok(
                            (a == Some(Comparison::Greater) || a == Some(Comparison::Equal)) && b
                                == Some(Comparison::Less),
                        ),
                    },
                };
                *self = Operator::CrossUnder(Some(lhs.clone()));
                result
            },
        }
    }
}

/// A condition tree: leaf comparisons of an indicator against a value or
/// another indicator, and the boolean combinators over them.
#[derive(Debug)]
pub enum Condition {
    /// Compares an indicator's cached output to a value.
    Value { indicator: Box<IndicatorState>, value: OutputType, operator: Operator },
    /// Compares two indicators' cached outputs.
    Indicator { left: Box<IndicatorState>, right: Box<IndicatorState>, operator: Operator },
    /// True when every child is true.
    And(Vec<Condition>),
    /// True when some child is true.
    Or(Vec<Condition>),
    /// True when the child is false.
    Not(Box<Condition>),
}

/// The model of a condition tree: the wrapped indicators (as values), their
/// cached outputs, the thresholds and the operators.
pub enum CondModel {
    Value { ind: Indicator, cache: Option<ValueModel>, value: ValueModel, op: OpModel },
    Ind {
        lind: Indicator,
        lcache: Option<ValueModel>,
        rind: Indicator,
        rcache: Option<ValueModel>,
        op: OpModel,
    },
    And(Seq<CondModel>),
    Or(Seq<CondModel>),
    Not(Box<CondModel>),
}

/// The model of a `Condition`.
pub open spec fn cond_view(c: Condition) -> CondModel
    decreases c, 0int,
{
    match c {
        Condition::Value { indicator, value, operator } => CondModel::Value {
            ind: indicator.indicator,
            cache: indicator.cache_view(),
            value: val_view(value),
            op: op_view(operator),
        },
        Condition::Indicator { left, right, operator } => CondModel::Ind {
            lind: left.indicator,
            lcache: left.cache_view(),
            rind: right.indicator,
            rcache: right.cache_view(),
            op: op_view(operator),
        },
        Condition::And(cs) => CondModel::And(cond_views(cs@, 0)),
        Condition::Or(cs) => CondModel::Or(cond_views(cs@, 0)),
        Condition::Not(c) => CondModel::Not(Box::new(cond_view(*c))),
    }
}

/// The models of a list of conditions, from `i` on.
pub open spec fn cond_views(vs: Seq<Condition>, i: int) -> Seq<CondModel>
    decreases vs, vs.len() - i,
{
    if i < 0 || i >= vs.len() {
        Seq::empty()
    } else {
        seq![cond_view(vs[i])] + cond_views(vs, i + 1)
    }
}

/// `cond_views` maps positions one for one.
pub proof fn lemma_cond_views(vs: Seq<Condition>, k: int)
    requires
        0 <= k <= vs.len(),
    ensures
        cond_views(vs, k).len() == vs.len() - k,
        forall|i: int|
            0 <= i < vs.len() - k ==> #[trigger] cond_views(vs, k)[i] == cond_view(vs[k + i]),
    decreases vs.len() - k,
{
    if k < vs.len() {
        lemma_cond_views(vs, k + 1);
        assert forall|i: int| 0 <= i < vs.len() - k implies #[trigger] cond_views(vs, k)[i]
            == cond_view(vs[k + i]) by {
            if i > 0 {
                assert(cond_views(vs, k + 1)[i - 1] == cond_view(vs[k + 1 + (i - 1)]));
            }
        }
    }
}

/// Every wrapped indicator in the tree is well formed.
pub open spec fn cond_wf(m: CondModel) -> bool
    decreases m, 0int,
{
    match m {
        CondModel::Value { ind, .. } => crate::indicators::indicator::ind_wf(ind) && ind_period(
            ind,
        ) <= usize::MAX,
        CondModel::Ind { lind, rind, .. } => crate::indicators::indicator::ind_wf(lind)
            && crate::indicators::indicator::ind_wf(rind) && ind_period(lind) <= usize::MAX
            && ind_period(rind) <= usize::MAX,
        CondModel::And(cs) => cond_wf_list(cs, 0),
        CondModel::Or(cs) => cond_wf_list(cs, 0),
        CondModel::Not(c) => cond_wf(*c),
    }
}

/// Well-formedness of a list of models, from `i` on.
pub open spec fn cond_wf_list(s: Seq<CondModel>, i: int) -> bool
    decreases s, s.len() - i,
{
    if i < 0 || i >= s.len() {
        true
    } else {
        cond_wf(s[i]) && cond_wf_list(s, i + 1)
    }
}

/// How validation fails.
pub enum ValidErr {
    /// An indicator with period zero.
    Period,
    /// Indicator and value shapes that do not match.
    Shapes,
    /// A structurally invalid value (an empty array or composite).
    Out(OutputError),
}

/// A condition is valid when every wrapped indicator has a period of at
/// least one and every comparison joins equal shapes.
pub open spec fn cond_valid(m: CondModel) -> Result<(), ValidErr>
    decreases m, 0int,
{
    match m {
        CondModel::Value { ind, value, .. } => if ind_period(ind) == 0 {
            Err(ValidErr::Period)
        } else {
            match shape_of(value) {
                Err(e) => Err(ValidErr::Out(e)),
                Ok(sh) => if sh == ShapeModel::S(ind_shape(ind) as nat) {
                    Ok(())
                } else {
                    Err(ValidErr::Shapes)
                },
            }
        },
        CondModel::Ind { lind, rind, .. } => if ind_period(lind) == 0 || ind_period(rind) == 0 {
            Err(ValidErr::Period)
        } else if ind_shape(lind) == ind_shape(rind) {
            Ok(())
        } else {
            Err(ValidErr::Shapes)
        },
        CondModel::And(cs) => cond_valid_list(cs, 0),
        CondModel::Or(cs) => cond_valid_list(cs, 0),
        CondModel::Not(c) => cond_valid(*c),
    }
}

/// Validity of a list of models, from `i` on; the first failure wins.
pub open spec fn cond_valid_list(s: Seq<CondModel>, i: int) -> Result<(), ValidErr>
    decreases s, s.len() - i,
{
    if i < 0 || i >= s.len() {
        Ok(())
    } else {
        match cond_valid(s[i]) {
            Err(e) => Err(e),
            Ok(_) => cond_valid_list(s, i + 1),
        }
    }
}

/// The largest period of any indicator in the tree, or `None` where the
/// tree holds no indicator.
pub open spec fn cond_max_period(m: CondModel) -> Option<int>
    decreases m, 0int,
{
    match m {
        CondModel::Value { ind, .. } => Some(ind_period(ind)),
        CondModel::Ind { lind, rind, .. } => Some(
            if ind_period(lind) >= ind_period(rind) {
                ind_period(lind)
            } else {
                ind_period(rind)
            },
        ),
        CondModel::And(cs) => cond_max_period_list(cs, 0),
        CondModel::Or(cs) => cond_max_period_list(cs, 0),
        CondModel::Not(c) => cond_max_period(*c),
    }
}

/// The largest period among a list of models, from `i` on.
pub open spec fn cond_max_period_list(s: Seq<CondModel>, i: int) -> Option<int>
    decreases s, s.len() - i,
{
    if i < 0 || i >= s.len() {
        None
    } else {
        match (cond_max_period(s[i]), cond_max_period_list(s, i + 1)) {
            (None, rest) => rest,
            (Some(p), None) => Some(p),
            (Some(p), Some(q)) => Some(
                if p >= q {
                    p
                } else {
                    q
                },
            ),
        }
    }
}

/// One evaluation step of a condition tree: the truth value (or error) and
/// the tree state it leaves. `And` stops at the first false or failed
/// child, `Or` at the first true or failed one; children after the stop are
/// not evaluated and keep their state.
pub open spec fn cond_eval(m: CondModel, d: MarketData) -> (Result<bool, EvalErr>, CondModel)
    decreases m, 0int,
{
    match m {
        CondModel::Value { ind, cache, value, op } => match cache {
            None => (Err(EvalErr::NotReady), m),
            Some(lhs) => {
                let rhs = resolve_model(value, d);
                let (res, op2) = op_eval(op, lhs, rhs);
                (res, CondModel::Value { ind, cache, value, op: op2 })
            },
        },
        CondModel::Ind { lind, lcache, rind, rcache, op } => match (lcache, rcache) {
            (Some(lhs), Some(rhs)) => {
                let (res, op2) = op_eval(op, lhs, rhs);
                (res, CondModel::Ind { lind, lcache, rind, rcache, op: op2 })
            },
            _ => (Err(EvalErr::NotReady), m),
        },
        CondModel::And(cs) => {
            let (res, cs2) = cond_eval_and(cs, d, 0);
            (res, CondModel::And(cs2))
        },
        CondModel::Or(cs) => {
            let (res, cs2) = cond_eval_or(cs, d, 0);
            (res, CondModel::Or(cs2))
        },
        CondModel::Not(c) => {
            let (res, c2) = cond_eval(*c, d);
            (
                match res {
                    Ok(b) => Ok(!b),
                    Err(e) => Err(e),
                },
                CondModel::Not(Box::new(c2)),
            )
        },
    }
}

/// Evaluates an `And` list from `i` on, stopping at the first false or
/// failed child.
pub open spec fn cond_eval_and(s: Seq<CondModel>, d: MarketData, i: int) -> (
    Result<bool, EvalErr>,
    Seq<CondModel>,
)
    decreases s, s.len() - i,
{
    if i < 0 || i >= s.len() {
        (Ok(true), s)
    } else {
        let (res, c2) = cond_eval(s[i], d);
        match res {
            Err(e) => (Err(e), s.update(i, c2)),
            Ok(false) => (Ok(false), s.update(i, c2)),
            Ok(true) => {
                let (r2, s2) = cond_eval_and(s, d, i + 1);
                (r2, s2.update(i, c2))
            },
        }
    }
}

/// Evaluates an `Or` list from `i` on, stopping at the first true or failed
/// child.
pub open spec fn cond_eval_or(s: Seq<CondModel>, d: MarketData, i: int) -> (
    Result<bool, EvalErr>,
    Seq<CondModel>,
)
    decreases s, s.len() - i,
{
    if i < 0 || i >= s.len() {
        (Ok(false), s)
    } else {
        let (res, c2) = cond_eval(s[i], d);
        match res {
            Err(e) => (Err(e), s.update(i, c2)),
            Ok(true) => (Ok(true), s.update(i, c2)),
            Ok(false) => {
                let (r2, s2) = cond_eval_or(s, d, i + 1);
                (r2, s2.update(i, c2))
            },
        }
    }
}

/// A crossing operator has no previous value, and will therefore answer
/// false on its first evaluation.
pub open spec fn op_first_tick(op: OpModel) -> bool {
    op == OpModel::CrossOver(None::<ValueModel>) || op == OpModel::CrossUnder(None::<ValueModel>)
}

/// The crossing law: on a tree whose operator has no previous value yet, an
/// evaluation of the leaf yields false, whatever the cached value and the
/// threshold are.
pub proof fn lemma_crossing_false_on_first_tick(m: CondModel, d: MarketData)
    requires
        m matches CondModel::Value { cache, op, .. } && cache is Some && op_first_tick(op),
    ensures
        cond_eval(m, d).0 == Ok::<bool, EvalErr>(false),
{
}

/// A structural size of a condition tree, preserved by every per-bar
/// operation; the recursion measure of the tree walks.
pub open spec fn cond_depth(c: Condition) -> nat
    decreases c, 0int,
{
    match c {
        Condition::Value { .. } => 1,
        Condition::Indicator { .. } => 1,
        Condition::And(cs) => cond_depth_list(cs@, 0) + 1,
        Condition::Or(cs) => cond_depth_list(cs@, 0) + 1,
        Condition::Not(c) => cond_depth(*c) + 1,
    }
}

/// The summed sizes of a list of conditions, from `i` on.
pub open spec fn cond_depth_list(s: Seq<Condition>, i: int) -> nat
    decreases s, s.len() - i,
{
    if i < 0 || i >= s.len() {
        0
    } else {
        1 + cond_depth(s[i]) + cond_depth_list(s, i + 1)
    }
}

/// Each element's size is below its list's summed size.
pub proof fn lemma_cond_depth_elem(s: Seq<Condition>, i: int, k: int)
    requires
        0 <= i <= k < s.len(),
    ensures
        cond_depth(s[k]) < cond_depth_list(s, i),
    decreases k - i,
{
    if i < k {
        lemma_cond_depth_elem(s, i + 1, k);
    }
}

impl Condition {
    /// A negated condition.
    pub fn ne(condition: Condition) -> (r: Condition)
        ensures
            cond_view(r) == CondModel::Not(Box::new(cond_view(condition))),
    {
        Condition::Not(Box::new(condition))
    }

    /// The conjunction of the given conditions.
    pub fn and(conditions: Vec<Condition>) -> (r: Condition)
        ensures
            cond_view(r) == CondModel::And(cond_views(conditions@, 0)),
    {
        Condition::And(conditions)
    }

    /// The disjunction of the given conditions.
    pub fn or(conditions: Vec<Condition>) -> (r: Condition)
        ensures
            cond_view(r) == CondModel::Or(cond_views(conditions@, 0)),
    {
        Condition::Or(conditions)
    }

    /// A comparison of an indicator against a value.
    pub fn value(indicator: Indicator, value: OutputType, operator: Operator) -> (r: Condition)
        ensures
            cond_view(r) == (CondModel::Value {
                ind: indicator,
                cache: None::<ValueModel>,
                value: val_view(value),
                op: op_view(operator),
            }),
    {
        Condition::Value {
            indicator: Box::new(IndicatorState::new(indicator)),
            value,
            operator,
        }
    }

    /// A comparison of two indicators.
    pub fn indicator(left: Indicator, right: Indicator, operator: Operator) -> (r: Condition)
        ensures
            cond_view(r) == (CondModel::Ind {
                lind: left,
                lcache: None::<ValueModel>,
                rind: right,
                rcache: None::<ValueModel>,
                op: op_view(operator),
            }),
    {
        Condition::Indicator {
            left: Box::new(IndicatorState::new(left)),
            right: Box::new(IndicatorState::new(right)),
            operator,
        }
    }

    /// `indicator > value`.
    pub fn greater_than(indicator: Indicator, value: OutputType) -> (r: Condition)
        ensures
            cond_view(r) == (CondModel::Value {
                ind: indicator,
                cache: None::<ValueModel>,
                value: val_view(value),
                op: OpModel::Gt,
            }),
    {
        Condition::value(indicator, value, Operator::GreaterThan)
    }

    /// `indicator < value`.
    pub fn less_than(indicator: Indicator, value: OutputType) -> (r: Condition)
        ensures
            cond_view(r) == (CondModel::Value {
                ind: indicator,
                cache: None::<ValueModel>,
                value: val_view(value),
                op: OpModel::Lt,
            }),
    {
        Condition::value(indicator, value, Operator::LessThan)
    }

    /// `indicator == value`.
    pub fn equals(indicator: Indicator, value: OutputType) -> (r: Condition)
        ensures
            cond_view(r) == (CondModel::Value {
                ind: indicator,
                cache: None::<ValueModel>,
                value: val_view(value),
                op: OpModel::Eq,
            }),
    {
        Condition::value(indicator, value, Operator::Equals)
    }

    /// `indicator >= value`.
    pub fn greater_than_or_equal(indicator: Indicator, value: OutputType) -> (r: Condition)
        ensures
            cond_view(r) == (CondModel::Value {
                ind: indicator,
                cache: None::<ValueModel>,
                value: val_view(value),
                op: OpModel::Ge,
            }),
    {
        Condition::value(indicator, value, Operator::GreaterThanOrEqual)
    }

    /// `indicator <= value`.
    pub fn less_than_or_equal(indicator: Indicator, value: OutputType) -> (r: Condition)
        ensures
            cond_view(r) == (CondModel::Value {
                ind: indicator,
                cache: None::<ValueModel>,
                value: val_view(value),
                op: OpModel::Le,
            }),
    {
        Condition::value(indicator, value, Operator::LessThanOrEqual)
    }

    /// `indicator` crossing over `value`.
    pub fn cross_over(indicator: Indicator, value: OutputType) -> (r: Condition)
        ensures
            cond_view(r) == (CondModel::Value {
                ind: indicator,
                cache: None::<ValueModel>,
                value: val_view(value),
                op: OpModel::CrossOver(None::<ValueModel>),
            }),
    {
        Condition::value(indicator, value, Operator::CrossOver(None))
    }

    /// `indicator` crossing under `value`.
    pub fn cross_under(indicator: Indicator, value: OutputType) -> (r: Condition)
        ensures
            cond_view(r) == (CondModel::Value {
                ind: indicator,
                cache: None::<ValueModel>,
                value: val_view(value),
                op: OpModel::CrossUnder(None::<ValueModel>),
            }),
    {
        Condition::value(indicator, value, Operator::CrossUnder(None))
    }

    /// Every wrapped indicator is well formed.
    pub open spec fn wf(&self) -> bool {
        cond_wf(cond_view(*self))
    }

    /// Validates the condition: every indicator period is at least one and
    /// every comparison joins equal shapes.
    pub fn validate(&self) -> (r: TaResult<()>)
        requires
            self.wf(),
        ensures
            r is Ok <==> cond_valid(cond_view(*self)) is Ok,
            r matches Err(e) ==> match cond_valid(cond_view(*self)) {
                Err(ValidErr::Period) => e matches TaError::Strategy(
                    StrategyError::InvalidIndicatorPeriod { .. },
                ),
                Err(ValidErr::Shapes) => e matches TaError::Strategy(
                    StrategyError::IncompatibleShapes { .. },
                ),
                Err(ValidErr::Out(oe)) => e == TaError::Cmp(oe),
                Ok(_) => false,
            },
        decreases cond_depth(*self),
    {
        match self {
            Condition::Value { indicator, value, .. } => {
                if indicator.period() == 0 {
                    return Err(
                        TaError::Strategy(StrategyError::InvalidIndicatorPeriod { period: 0 }),
                    );
                }
                let ishape = indicator.output_shape();
                let vshape = match value.output_shape() {
                    Ok(sh) => sh,
                    Err(e) => {
                        return Err(TaError::Cmp(e));
                    },
                };
                let matched: bool = match (&ishape, &vshape) {
                    (OutputShape::Shape(n), OutputShape::Shape(m)) => *n == *m,
                    _ => false,
                };
                if matched {
                    Ok(())
                } else {
                    Err(
                        TaError::Strategy(
                            StrategyError::IncompatibleShapes {
                                name: "Condition::Value".to_owned(),
                                indicator: ishape,
                                value: vshape,
                            },
                        ),
                    )
                }
            },
            Condition::Indicator { left, right, .. } => {
                if left.period() == 0 || right.period() == 0 {
                    return Err(
                        TaError::Strategy(StrategyError::InvalidIndicatorPeriod { period: 0 }),
                    );
                }
                let lshape = left.output_shape();
                let rshape = right.output_shape();
                let matched: bool = match (&lshape, &rshape) {
                    (OutputShape::Shape(n), OutputShape::Shape(m)) => *n == *m,
                    _ => false,
                };
                if matched {
                    Ok(())
                } else {
                    Err(
                        TaError::Strategy(
                            StrategyError::IncompatibleShapes {
                                name: "Condition::Indicator".to_owned(),
                                indicator: lshape,
                                value: rshape,
                            },
                        ),
                    )
                }
            },
            Condition::And(cs) => {
                proof {
                    lemma_wf_list_elems(cs@, 0);
                }
                Self::validate_list(cs, 0)
            },
            Condition::Or(cs) => {
                proof {
                    lemma_wf_list_elems(cs@, 0);
                }
                Self::validate_list(cs, 0)
            },
            Condition::Not(c) => c.validate(),
        }
    }

    /// Validates a list of conditions, from `i` on.
    fn validate_list(cs: &Vec<Condition>, i: usize) -> (r: TaResult<()>)
        requires
            cond_wf_list_prefix(cs@, i as int),
        ensures
            r is Ok <==> cond_valid_list(cond_views(cs@, 0), i as int) is Ok,
            r matches Err(e) ==> match cond_valid_list(cond_views(cs@, 0), i as int) {
                Err(ValidErr::Period) => e matches TaError::Strategy(
                    StrategyError::InvalidIndicatorPeriod { .. },
                ),
                Err(ValidErr::Shapes) => e matches TaError::Strategy(
                    StrategyError::IncompatibleShapes { .. },
                ),
                Err(ValidErr::Out(oe)) => e == TaError::Cmp(oe),
                Ok(_) => false,
            },
        decreases cond_depth_list(cs@, i as int),
    {
        proof {
            lemma_cond_views(cs@, 0);
            if (i as int) < cs@.len() {
                lemma_cond_depth_elem(cs@, i as int, i as int);
            }
        }
        if i >= cs.len() {
            Ok(())
        } else {
            match cs[i].validate() {
                Err(e) => Err(e),
                Ok(_) => Self::validate_list(cs, i + 1),
            }
        }
    }

    /// The largest indicator period in the tree, or `None` without any
    /// indicator.
    pub fn max_period(&self) -> (r: Option<usize>)
        requires
            self.wf(),
        ensures
            match r {
                Some(p) => cond_max_period(cond_view(*self)) == Some(p as int),
                None => cond_max_period(cond_view(*self)) is None,
            },
        decreases cond_depth(*self),
    {
        match self {
            Condition::Value { indicator, .. } => Some(indicator.period()),
            Condition::Indicator { left, right, .. } => {
                let l = left.period();
                let q = right.period();
                if l >= q {
                    Some(l)
                } else {
                    Some(q)
                }
            },
            Condition::And(cs) => {
                proof {
                    lemma_wf_list_elems(cs@, 0);
                }
                Self::max_period_list(cs, 0)
            },
            Condition::Or(cs) => {
                proof {
                    lemma_wf_list_elems(cs@, 0);
                }
                Self::max_period_list(cs, 0)
            },
            Condition::Not(c) => c.max_period(),
        }
    }

    /// The largest period among a list of conditions, from `i` on.
    fn max_period_list(cs: &Vec<Condition>, i: usize) -> (r: Option<usize>)
        requires
            cond_wf_list_prefix(cs@, i as int),
        ensures
            match r {
                Some(p) => cond_max_period_list(cond_views(cs@, 0), i as int) == Some(p as int),
                None => cond_max_period_list(cond_views(cs@, 0), i as int) is None,
            },
        decreases cond_depth_list(cs@, i as int),
    {
        proof {
            lemma_cond_views(cs@, 0);
            if (i as int) < cs@.len() {
                lemma_cond_depth_elem(cs@, i as int, i as int);
            }
        }
        if i >= cs.len() {
            None
        } else {
            let head = cs[i].max_period();
            let rest = Self::max_period_list(cs, i + 1);
            match (head, rest) {
                (None, q) => q,
                (Some(p), None) => Some(p),
                (Some(p), Some(q)) => if p >= q {
                    Some(p)
                } else {
                    Some(q)
                },
            }
        }
    }
}

/// Well-formedness of the conditions of a list, from `i` on, stated over
/// the conditions themselves.
pub open spec fn cond_wf_list_prefix(s: Seq<Condition>, i: int) -> bool {
    forall|k: int| i <= k < s.len() ==> #[trigger] cond_wf(cond_view(s[k]))
}

/// A well-formed model list makes every condition of the list well formed.
pub proof fn lemma_wf_list_elems(cs: Seq<Condition>, i: int)
    requires
        0 <= i <= cs.len(),
        cond_wf_list(cond_views(cs, 0), i),
    ensures
        cond_wf_list_prefix(cs, i),
    decreases cs.len() - i,
{
    lemma_cond_views(cs, 0);
    if i < cs.len() {
        lemma_wf_list_elems(cs, i + 1);
    }
}

/// What one update pass guarantees, leaf by leaf: thresholds and operators
/// are untouched, every cache holds the advanced indicator's output, and
/// every indicator keeps its period and shape. The exact state of each
/// advanced indicator is given by `Indicator::next_candle`'s own contract.
pub open spec fn upd_rel(a: CondModel, b: CondModel, d: MarketData) -> bool
    decreases a, 0int,
{
    match (a, b) {
        (
            CondModel::Value { ind, cache, value, op },
            CondModel::Value { ind: ind2, cache: cache2, value: value2, op: op2 },
        ) => value2 == value && op2 == op && cache2 == Some(ind_out_candle(ind, d))
            && ind_step_rel(ind, ind2, d) && ind_period(ind2) == ind_period(ind) && ind_shape(
            ind2,
        ) == ind_shape(ind) && crate::indicators::indicator::ind_wf(ind2),
        (
            CondModel::Ind { lind, lcache, rind, rcache, op },
            CondModel::Ind { lind: l2, lcache: lc2, rind: r2, rcache: rc2, op: op2 },
        ) => op2 == op && lc2 == Some(ind_out_candle(lind, d)) && rc2 == Some(
            ind_out_candle(rind, d),
        ) && ind_step_rel(lind, l2, d) && ind_step_rel(rind, r2, d) && ind_period(l2)
            == ind_period(lind) && ind_shape(l2) == ind_shape(lind) && ind_period(r2)
            == ind_period(rind) && ind_shape(r2) == ind_shape(rind)
            && crate::indicators::indicator::ind_wf(l2)
            && crate::indicators::indicator::ind_wf(r2),
        (CondModel::And(s1), CondModel::And(s2)) => s1.len() == s2.len() && upd_rel_list(
            s1,
            s2,
            d,
            0,
        ),
        (CondModel::Or(s1), CondModel::Or(s2)) => s1.len() == s2.len() && upd_rel_list(
            s1,
            s2,
            d,
            0,
        ),
        (CondModel::Not(c1), CondModel::Not(c2)) => upd_rel(*c1, *c2, d),
        _ => false,
    }
}

/// `upd_rel`, pointwise over two lists from `i` on.
pub open spec fn upd_rel_list(s1: Seq<CondModel>, s2: Seq<CondModel>, d: MarketData, i: int) -> bool
    decreases s1, s1.len() - i,
{
    if i < 0 || i >= s1.len() || i >= s2.len() {
        true
    } else {
        upd_rel(s1[i], s2[i], d) && upd_rel_list(s1, s2, d, i + 1)
    }
}

/// What one reset pass guarantees, leaf by leaf: thresholds are untouched,
/// crossing state and caches are cleared, every indicator is returned to
/// its freshly constructed state with its parameters kept.
pub open spec fn reset_rel(a: CondModel, b: CondModel) -> bool
    decreases a, 0int,
{
    match (a, b) {
        (
            CondModel::Value { ind, cache, value, op },
            CondModel::Value { ind: ind2, cache: cache2, value: value2, op: op2 },
        ) => value2 == value && op2 == op_cleared(op) && cache2 is None && ind_fresh(ind2)
            && ind_period(ind2) == ind_period(ind) && ind_shape(ind2) == ind_shape(ind)
            && crate::indicators::indicator::ind_wf(ind2),
        (
            CondModel::Ind { lind, lcache, rind, rcache, op },
            CondModel::Ind { lind: l2, lcache: lc2, rind: r2, rcache: rc2, op: op2 },
        ) => op2 == op_cleared(op) && lc2 is None && rc2 is None && ind_fresh(l2) && ind_fresh(r2)
            && ind_period(l2) == ind_period(lind) && ind_shape(l2) == ind_shape(lind) && ind_period(
            r2,
        ) == ind_period(rind) && ind_shape(r2) == ind_shape(rind)
            && crate::indicators::indicator::ind_wf(l2)
            && crate::indicators::indicator::ind_wf(r2),
        (CondModel::And(s1), CondModel::And(s2)) => s1.len() == s2.len() && reset_rel_list(
            s1,
            s2,
            0,
        ),
        (CondModel::Or(s1), CondModel::Or(s2)) => s1.len() == s2.len() && reset_rel_list(
            s1,
            s2,
            0,
        ),
        (CondModel::Not(c1), CondModel::Not(c2)) => reset_rel(*c1, *c2),
        _ => false,
    }
}

/// `reset_rel`, pointwise over two lists from `i` on.
pub open spec fn reset_rel_list(s1: Seq<CondModel>, s2: Seq<CondModel>, i: int) -> bool
    decreases s1, s1.len() - i,
{
    if i < 0 || i >= s1.len() || i >= s2.len() {
        true
    } else {
        reset_rel(s1[i], s2[i]) && reset_rel_list(s1, s2, i + 1)
    }
}

/// A reset operator: the crossing state is dropped, everything else stays.
pub open spec fn op_cleared(op: OpModel) -> OpModel {
    match op {
        OpModel::CrossOver(_) => OpModel::CrossOver(None),
        OpModel::CrossUnder(_) => OpModel::CrossUnder(None),
        other => other,
    }
}


/// Updating a position before `i` does not change the summed size from `i`.
pub proof fn lemma_cond_depth_frame(s: Seq<Condition>, i: int, j: int, x: Condition)
    requires
        0 <= j < i,
        j < s.len(),
    ensures
        cond_depth_list(s.update(j, x), i) == cond_depth_list(s, i),
    decreases s.len() - i,
{
    if i < s.len() {
        lemma_cond_depth_frame(s, i + 1, j, x);
        assert(s.update(j, x)[i] == s[i]);
    }
}

/// Pointwise equal sizes give equal summed sizes.
pub proof fn lemma_cond_depth_list_eq(a: Seq<Condition>, b: Seq<Condition>, i: int)
    requires
        0 <= i <= a.len(),
        a.len() == b.len(),
        forall|k: int| 0 <= k < a.len() ==> cond_depth(#[trigger] b[k]) == cond_depth(a[k]),
    ensures
        cond_depth_list(b, i) == cond_depth_list(a, i),
    decreases a.len() - i,
{
    if i < a.len() {
        lemma_cond_depth_list_eq(a, b, i + 1);
        assert(cond_depth(b[i]) == cond_depth(a[i]));
    }
}

/// Pointwise well-formedness gives the list form.
pub proof fn lemma_wf_list_from_elems(cs: Seq<Condition>, i: int)
    requires
        0 <= i <= cs.len(),
        cond_wf_list_prefix(cs, i),
    ensures
        cond_wf_list(cond_views(cs, 0), i),
    decreases cs.len() - i,
{
    lemma_cond_views(cs, 0);
    if i < cs.len() {
        lemma_wf_list_from_elems(cs, i + 1);
        assert(cond_views(cs, 0)[i] == cond_view(cs[0 + i]));
        assert(cond_wf(cond_view(cs[i])));
    }
}

/// The length of an `And` evaluation's resulting list.
pub proof fn lemma_eval_and_len(s: Seq<CondModel>, d: MarketData, i: int)
    ensures
        cond_eval_and(s, d, i).1.len() == s.len(),
    decreases s.len() - i,
{
    if 0 <= i && i < s.len() {
        lemma_eval_and_len(s, d, i + 1);
    }
}

/// The length of an `Or` evaluation's resulting list.
pub proof fn lemma_eval_or_len(s: Seq<CondModel>, d: MarketData, i: int)
    ensures
        cond_eval_or(s, d, i).1.len() == s.len(),
    decreases s.len() - i,
{
    if 0 <= i && i < s.len() {
        lemma_eval_or_len(s, d, i + 1);
    }
}

/// Pointwise update relations give the list form.
pub proof fn lemma_upd_rel_list_from_elems(
    a: Seq<Condition>,
    b: Seq<Condition>,
    d: MarketData,
    i: int,
)
    requires
        0 <= i <= a.len(),
        a.len() == b.len(),
        forall|k: int|
            0 <= k < a.len() ==> upd_rel(cond_view(a[k]), #[trigger] cond_view(b[k]), d),
    ensures
        upd_rel_list(cond_views(a, 0), cond_views(b, 0), d, i),
    decreases a.len() - i,
{
    lemma_cond_views(a, 0);
    lemma_cond_views(b, 0);
    if i < a.len() {
        lemma_upd_rel_list_from_elems(a, b, d, i + 1);
    }
}

/// Pointwise reset relations give the list form.
pub proof fn lemma_reset_rel_list_from_elems(a: Seq<Condition>, b: Seq<Condition>, i: int)
    requires
        0 <= i <= a.len(),
        a.len() == b.len(),
        forall|k: int| 0 <= k < a.len() ==> reset_rel(cond_view(a[k]), #[trigger] cond_view(b[k])),
    ensures
        reset_rel_list(cond_views(a, 0), cond_views(b, 0), i),
    decreases a.len() - i,
{
    lemma_cond_views(a, 0);
    lemma_cond_views(b, 0);
    if i < a.len() {
        lemma_reset_rel_list_from_elems(a, b, i + 1);
    }
}

/// Positions before `i` do not matter to an `And` evaluation from `i` on.
proof fn lemma_eval_and_frame(s: Seq<CondModel>, d: MarketData, i: int, j: int, x: CondModel)
    requires
        0 <= j < i,
        j < s.len(),
    ensures
        cond_eval_and(s.update(j, x), d, i).0 == cond_eval_and(s, d, i).0,
        cond_eval_and(s.update(j, x), d, i).1 == cond_eval_and(s, d, i).1.update(j, x),
    decreases s.len() - i,
{
    let su = s.update(j, x);
    if i < 0 || i >= s.len() {
    } else {
        assert(su[i] == s[i]);
        let (res, c2) = cond_eval(s[i], d);
        match res {
            Err(e) => {
                assert(su.update(i, c2) =~= s.update(i, c2).update(j, x));
            },
            Ok(false) => {
                assert(su.update(i, c2) =~= s.update(i, c2).update(j, x));
            },
            Ok(true) => {
                lemma_eval_and_frame(s, d, i + 1, j, x);
                lemma_eval_and_len(s, d, i + 1);
                let (r2, s2) = cond_eval_and(s, d, i + 1);
                assert(s2.update(j, x).update(i, c2) =~= s2.update(i, c2).update(j, x));
            },
        }
    }
}

/// Positions before `i` do not matter to an `Or` evaluation from `i` on.
proof fn lemma_eval_or_frame(s: Seq<CondModel>, d: MarketData, i: int, j: int, x: CondModel)
    requires
        0 <= j < i,
        j < s.len(),
    ensures
        cond_eval_or(s.update(j, x), d, i).0 == cond_eval_or(s, d, i).0,
        cond_eval_or(s.update(j, x), d, i).1 == cond_eval_or(s, d, i).1.update(j, x),
    decreases s.len() - i,
{
    let su = s.update(j, x);
    if i < 0 || i >= s.len() {
    } else {
        assert(su[i] == s[i]);
        let (res, c2) = cond_eval(s[i], d);
        match res {
            Err(e) => {
                assert(su.update(i, c2) =~= s.update(i, c2).update(j, x));
            },
            Ok(true) => {
                assert(su.update(i, c2) =~= s.update(i, c2).update(j, x));
            },
            Ok(false) => {
                lemma_eval_or_frame(s, d, i + 1, j, x);
                lemma_eval_or_len(s, d, i + 1);
                let (r2, s2) = cond_eval_or(s, d, i + 1);
                assert(s2.update(j, x).update(i, c2) =~= s2.update(i, c2).update(j, x));
            },
        }
    }
}

impl Condition {
    /// Advances every indicator in the tree exactly once over the bar and
    /// caches each output.
    pub fn update(&mut self, data: &MarketData) -> (r: TaResult<()>)
        requires
            old(self).wf(),
        ensures
            final(self).wf(),
            r is Ok,
            cond_depth(*final(self)) == cond_depth(*old(self)),
            upd_rel(cond_view(*old(self)), cond_view(*final(self)), *data),
        decreases cond_depth(*old(self)),
    {
        match self {
            Condition::Value { indicator, .. } => {
                let _ = indicator.update(data);
                Ok(())
            },
            Condition::Indicator { left, right, .. } => {
                let _ = left.update(data);
                let _ = right.update(data);
                Ok(())
            },
            Condition::And(cs) => {
                let ghost cs0 = cs@;
                proof {
                    lemma_wf_list_elems(cs@, 0);
                }
                Self::update_list(cs, data, 0);
                proof {
                    lemma_wf_list_from_elems(cs@, 0);
                    lemma_upd_rel_list_from_elems(cs0, cs@, *data, 0);
                    lemma_cond_depth_list_eq(cs0, cs@, 0);
                    lemma_cond_views(cs0, 0);
                    lemma_cond_views(cs@, 0);
                }
                Ok(())
            },
            Condition::Or(cs) => {
                let ghost cs0 = cs@;
                proof {
                    lemma_wf_list_elems(cs@, 0);
                }
                Self::update_list(cs, data, 0);
                proof {
                    lemma_wf_list_from_elems(cs@, 0);
                    lemma_upd_rel_list_from_elems(cs0, cs@, *data, 0);
                    lemma_cond_depth_list_eq(cs0, cs@, 0);
                    lemma_cond_views(cs0, 0);
                    lemma_cond_views(cs@, 0);
                }
                Ok(())
            },
            Condition::Not(c) => c.update(data),
        }
    }

    /// Updates the conditions of a list, from `i` on.
    fn update_list(cs: &mut Vec<Condition>, data: &MarketData, i: usize)
        requires
            cond_wf_list_prefix(old(cs)@, i as int),
        ensures
            final(cs)@.len() == old(cs)@.len(),
            forall|k: int| 0 <= k < i ==> final(cs)@[k] == old(cs)@[k],
            forall|k: int|
                i <= k < old(cs)@.len() ==> cond_depth(#[trigger] final(cs)@[k]) == cond_depth(
                    old(cs)@[k],
                ) && cond_wf(cond_view(final(cs)@[k])) && upd_rel(
                    cond_view(old(cs)@[k]),
                    cond_view(final(cs)@[k]),
                    *data,
                ),
        decreases cond_depth_list(cs@, i as int),
    {
        proof {
            if (i as int) < cs@.len() {
                lemma_cond_depth_elem(cs@, i as int, i as int);
            }
        }
        if i >= cs.len() {
            return ;
        }
        let c: &mut Condition = &mut cs[i];
        let _ = c.update(data);
        proof {
            lemma_cond_depth_frame(old(cs)@, i as int + 1, i as int, cs@[i as int]);
        }
        Self::update_list(cs, data, i + 1);
    }

    /// Evaluates the tree against the cached outputs: `And` stops at the
    /// first false or failed child, `Or` at the first true or failed one;
    /// the crossing operators record the left-hand value they saw.
    pub fn evaluate(&mut self, data: &MarketData) -> (r: TaResult<bool>)
        requires
            old(self).wf(),
        ensures
            final(self).wf(),
            cond_depth(*final(self)) == cond_depth(*old(self)),
            cond_view(*final(self)) == cond_eval(cond_view(*old(self)), *data).1,
            match cond_eval(cond_view(*old(self)), *data).0 {
                Ok(b) => r == Ok::<bool, TaError>(b),
                Err(EvalErr::Cmp(e)) => r == Err::<bool, TaError>(TaError::Cmp(e)),
                Err(EvalErr::NotReady) => r is Err && r->Err_0 is NotInitialized,
            },
        decreases cond_depth(*old(self)),
    {
        match self {
            Condition::Value { indicator, value, operator } => {
                let lhs = match indicator.prev() {
                    Ok(v) => v,
                    Err(e) => {
                        return Err(e);
                    },
                };
                let rhs = value.resolve(data);
                operator.evaluate(&lhs, &rhs)
            },
            Condition::Indicator { left, right, operator } => {
                let lhs = match left.prev() {
                    Ok(v) => v,
                    Err(e) => {
                        return Err(e);
                    },
                };
                let rhs = match right.prev() {
                    Ok(v) => v,
                    Err(e) => {
                        return Err(e);
                    },
                };
                operator.evaluate(&lhs, &rhs)
            },
            Condition::And(cs) => {
                let ghost cs0 = cs@;
                proof {
                    lemma_wf_list_elems(cs@, 0);
                }
                let r = Self::eval_and_list(cs, data, 0);
                proof {
                    lemma_wf_list_from_elems(cs@, 0);
                    lemma_cond_depth_list_eq(cs0, cs@, 0);
                }
                r
            },
            Condition::Or(cs) => {
                let ghost cs0 = cs@;
                proof {
                    lemma_wf_list_elems(cs@, 0);
                }
                let r = Self::eval_or_list(cs, data, 0);
                proof {
                    lemma_wf_list_from_elems(cs@, 0);
                    lemma_cond_depth_list_eq(cs0, cs@, 0);
                }
                r
            },
            Condition::Not(c) => match c.evaluate(data) {
                Ok(b) => Ok(!b),
                Err(e) => Err(e),
            },
        }
    }

    /// Evaluates an `And` list, from `i` on.
    fn eval_and_list(cs: &mut Vec<Condition>, data: &MarketData, i: usize) -> (r: TaResult<bool>)
        requires
            cond_wf_list_prefix(old(cs)@, i as int),
        ensures
            final(cs)@.len() == old(cs)@.len(),
            forall|k: int| 0 <= k < i ==> final(cs)@[k] == old(cs)@[k],
            forall|k: int|
                i <= k < old(cs)@.len() ==> cond_depth(#[trigger] final(cs)@[k]) == cond_depth(
                    old(cs)@[k],
                ) && cond_wf(cond_view(final(cs)@[k])),
            cond_views(final(cs)@, 0) == cond_eval_and(
                cond_views(old(cs)@, 0),
                *data,
                i as int,
            ).1,
            match cond_eval_and(cond_views(old(cs)@, 0), *data, i as int).0 {
                Ok(b) => r == Ok::<bool, TaError>(b),
                Err(EvalErr::Cmp(e)) => r == Err::<bool, TaError>(TaError::Cmp(e)),
                Err(EvalErr::NotReady) => r is Err && r->Err_0 is NotInitialized,
            },
        decreases cond_depth_list(cs@, i as int),
    {
        proof {
            lemma_cond_views(cs@, 0);
            if (i as int) < cs@.len() {
                lemma_cond_depth_elem(cs@, i as int, i as int);
            }
        }
        if i >= cs.len() {
            return Ok(true);
        }
        let ghost views0 = cond_views(cs@, 0);
        let c: &mut Condition = &mut cs[i];
        let res = c.evaluate(data);
        proof {
            lemma_cond_depth_frame(old(cs)@, i as int + 1, i as int, cs@[i as int]);
            lemma_cond_views(cs@, 0);
            assert(cond_views(cs@, 0) =~= views0.update(
                i as int,
                cond_eval(views0[i as int], *data).1,
            ));
        }
        match res {
            Err(e) => Err(e),
            Ok(false) => Ok(false),
            Ok(true) => {
                let r2 = Self::eval_and_list(cs, data, i + 1);
                proof {
                    lemma_eval_and_frame(
                        views0,
                        *data,
                        i as int + 1,
                        i as int,
                        cond_eval(views0[i as int], *data).1,
                    );
                    lemma_cond_views(cs@, 0);
                    assert(cond_views(final(cs)@, 0) =~= cond_eval_and(
                        views0,
                        *data,
                        i as int,
                    ).1);
                }
                r2
            },
        }
    }

    /// Evaluates an `Or` list, from `i` on.
    fn eval_or_list(cs: &mut Vec<Condition>, data: &MarketData, i: usize) -> (r: TaResult<bool>)
        requires
            cond_wf_list_prefix(old(cs)@, i as int),
        ensures
            final(cs)@.len() == old(cs)@.len(),
            forall|k: int| 0 <= k < i ==> final(cs)@[k] == old(cs)@[k],
            forall|k: int|
                i <= k < old(cs)@.len() ==> cond_depth(#[trigger] final(cs)@[k]) == cond_depth(
                    old(cs)@[k],
                ) && cond_wf(cond_view(final(cs)@[k])),
            cond_views(final(cs)@, 0) == cond_eval_or(
                cond_views(old(cs)@, 0),
                *data,
                i as int,
            ).1,
            match cond_eval_or(cond_views(old(cs)@, 0), *data, i as int).0 {
                Ok(b) => r == Ok::<bool, TaError>(b),
                Err(EvalErr::Cmp(e)) => r == Err::<bool, TaError>(TaError::Cmp(e)),
                Err(EvalErr::NotReady) => r is Err && r->Err_0 is NotInitialized,
            },
        decreases cond_depth_list(cs@, i as int),
    {
        proof {
            lemma_cond_views(cs@, 0);
            if (i as int) < cs@.len() {
                lemma_cond_depth_elem(cs@, i as int, i as int);
            }
        }
        if i >= cs.len() {
            return Ok(false);
        }
        let ghost views0 = cond_views(cs@, 0);
        let c: &mut Condition = &mut cs[i];
        let res = c.evaluate(data);
        proof {
            lemma_cond_depth_frame(old(cs)@, i as int + 1, i as int, cs@[i as int]);
            lemma_cond_views(cs@, 0);
            assert(cond_views(cs@, 0) =~= views0.update(
                i as int,
                cond_eval(views0[i as int], *data).1,
            ));
        }
        match res {
            Err(e) => Err(e),
            Ok(true) => Ok(true),
            Ok(false) => {
                let r2 = Self::eval_or_list(cs, data, i + 1);
                proof {
                    lemma_eval_or_frame(
                        views0,
                        *data,
                        i as int + 1,
                        i as int,
                        cond_eval(views0[i as int], *data).1,
                    );
                    lemma_cond_views(cs@, 0);
                    assert(cond_views(final(cs)@, 0) =~= cond_eval_or(
                        views0,
                        *data,
                        i as int,
                    ).1);
                }
                r2
            },
        }
    }

    /// Returns every indicator to its freshly constructed state and clears
    /// every cache and crossing slot.
    pub fn reset(&mut self)
        requires
            old(self).wf(),
        ensures
            final(self).wf(),
            cond_depth(*final(self)) == cond_depth(*old(self)),
            reset_rel(cond_view(*old(self)), cond_view(*final(self))),
        decreases cond_depth(*old(self)),
    {
        match self {
            Condition::Value { indicator, operator, .. } => {
                indicator.reset();
                match operator {
                    Operator::CrossOver(prev) => {
                        *operator = Operator::CrossOver(None);
                    },
                    Operator::CrossUnder(prev) => {
                        *operator = Operator::CrossUnder(None);
                    },
                    _ => {},
                }
            },
            Condition::Indicator { left, right, operator } => {
                left.reset();
                right.reset();
                match operator {
                    Operator::CrossOver(prev) => {
                        *operator = Operator::CrossOver(None);
                    },
                    Operator::CrossUnder(prev) => {
                        *operator = Operator::CrossUnder(None);
                    },
                    _ => {},
                }
            },
            Condition::And(cs) => {
                let ghost cs0 = cs@;
                proof {
                    lemma_wf_list_elems(cs@, 0);
                }
                Self::reset_list(cs, 0);
                proof {
                    lemma_wf_list_from_elems(cs@, 0);
                    lemma_reset_rel_list_from_elems(cs0, cs@, 0);
                    lemma_cond_depth_list_eq(cs0, cs@, 0);
                    lemma_cond_views(cs0, 0);
                    lemma_cond_views(cs@, 0);
                }
            },
            Condition::Or(cs) => {
                let ghost cs0 = cs@;
                proof {
                    lemma_wf_list_elems(cs@, 0);
                }
                Self::reset_list(cs, 0);
                proof {
                    lemma_wf_list_from_elems(cs@, 0);
                    lemma_reset_rel_list_from_elems(cs0, cs@, 0);
                    lemma_cond_depth_list_eq(cs0, cs@, 0);
                    lemma_cond_views(cs0, 0);
                    lemma_cond_views(cs@, 0);
                }
            },
            Condition::Not(c) => c.reset(),
        }
    }

    /// Resets the conditions of a list, from `i` on.
    fn reset_list(cs: &mut Vec<Condition>, i: usize)
        requires
            cond_wf_list_prefix(old(cs)@, i as int),
        ensures
            final(cs)@.len() == old(cs)@.len(),
            forall|k: int| 0 <= k < i ==> final(cs)@[k] == old(cs)@[k],
            forall|k: int|
                i <= k < old(cs)@.len() ==> cond_depth(#[trigger] final(cs)@[k]) == cond_depth(
                    old(cs)@[k],
                ) && cond_wf(cond_view(final(cs)@[k])) && reset_rel(
                    cond_view(old(cs)@[k]),
                    cond_view(final(cs)@[k]),
                ),
        decreases cond_depth_list(cs@, i as int),
    {
        proof {
            if (i as int) < cs@.len() {
                lemma_cond_depth_elem(cs@, i as int, i as int);
            }
        }
        if i >= cs.len() {
            return ;
        }
        let c: &mut Condition = &mut cs[i];
        c.reset();
        proof {
            lemma_cond_depth_frame(old(cs)@, i as int + 1, i as int, cs@[i as int]);
        }
        Self::reset_list(cs, i + 1);
    }

    /// The largest indicator period, defaulting to one where the tree holds
    /// no indicator.
    pub fn period(&self) -> (r: usize)
        requires
            self.wf(),
        ensures
            match cond_max_period(cond_view(*self)) {
                Some(p) => r == p,
                None => r == 1,
            },
    {
        match self.max_period() {
            Some(p) => p,
            None => 1,
        }
    }
}

/// An update pass does not change the tree's largest period.
pub proof fn lemma_cond_max_period_upd(a: CondModel, b: CondModel, d: MarketData)
    requires
        upd_rel(a, b, d),
    ensures
        cond_max_period(b) == cond_max_period(a),
    decreases a, 0int,
{
    match (a, b) {
        (CondModel::And(s1), CondModel::And(s2)) => {
            lemma_cond_max_period_upd_list(s1, s2, d, 0);
        },
        (CondModel::Or(s1), CondModel::Or(s2)) => {
            lemma_cond_max_period_upd_list(s1, s2, d, 0);
        },
        (CondModel::Not(c1), CondModel::Not(c2)) => {
            lemma_cond_max_period_upd(*c1, *c2, d);
        },
        _ => {},
    }
}

/// `lemma_cond_max_period_upd`, over two lists from `i` on.
pub proof fn lemma_cond_max_period_upd_list(
    s1: Seq<CondModel>,
    s2: Seq<CondModel>,
    d: MarketData,
    i: int,
)
    requires
        s1.len() == s2.len(),
        upd_rel_list(s1, s2, d, i),
    ensures
        cond_max_period_list(s2, i) == cond_max_period_list(s1, i),
    decreases s1, s1.len() - i,
{
    if 0 <= i && i < s1.len() {
        lemma_cond_max_period_upd(s1[i], s2[i], d);
        lemma_cond_max_period_upd_list(s1, s2, d, i + 1);
    }
}

/// An evaluation pass does not change the tree's largest period.
pub proof fn lemma_cond_max_period_eval(m: CondModel, d: MarketData)
    ensures
        cond_max_period(cond_eval(m, d).1) == cond_max_period(m),
    decreases m, 0int,
{
    match m {
        CondModel::And(s) => {
            lemma_cond_max_period_eval_and(s, d, 0);
        },
        CondModel::Or(s) => {
            lemma_cond_max_period_eval_or(s, d, 0);
        },
        CondModel::Not(c) => {
            lemma_cond_max_period_eval(*c, d);
        },
        _ => {},
    }
}

/// The largest period of a list is unchanged by updating one element with
/// an equal-period one.
pub proof fn lemma_cond_max_period_list_update(s: Seq<CondModel>, i: int, k: int, c: CondModel)
    requires
        0 <= k < s.len(),
        cond_max_period(c) == cond_max_period(s[k]),
    ensures
        cond_max_period_list(s.update(k, c), i) == cond_max_period_list(s, i),
    decreases s.len() - i,
{
    if 0 <= i && i < s.len() {
        lemma_cond_max_period_list_update(s, i + 1, k, c);
        if i != k {
            assert(s.update(k, c)[i] == s[i]);
        }
    }
}

/// `lemma_cond_max_period_eval` for an `And` list.
pub proof fn lemma_cond_max_period_eval_and(s: Seq<CondModel>, d: MarketData, i: int)
    ensures
        cond_max_period_list(cond_eval_and(s, d, i).1, i) == cond_max_period_list(s, i),
        cond_eval_and(s, d, i).1.len() == s.len(),
        forall|k: int|
            0 <= k < s.len() ==> cond_max_period(#[trigger] cond_eval_and(s, d, i).1[k])
                == cond_max_period(s[k]),
    decreases s, s.len() - i,
{
    if 0 <= i && i < s.len() {
        let (res, c2) = cond_eval(s[i], d);
        lemma_cond_max_period_eval(s[i], d);
        match res {
            Err(_) => {
                lemma_cond_max_period_list_update(s, i, i, c2);
                lemma_cond_max_period_list_eq_all(s, s.update(i, c2), i);
            },
            Ok(false) => {
                lemma_cond_max_period_list_update(s, i, i, c2);
                lemma_cond_max_period_list_eq_all(s, s.update(i, c2), i);
            },
            Ok(true) => {
                lemma_cond_max_period_eval_and(s, d, i + 1);
                let (r2, s2) = cond_eval_and(s, d, i + 1);
                lemma_cond_max_period_list_update(s2, i, i, c2);
                lemma_cond_max_period_list_eq_all(s, s2.update(i, c2), i);
            },
        }
    }
}

/// `lemma_cond_max_period_eval` for an `Or` list.
pub proof fn lemma_cond_max_period_eval_or(s: Seq<CondModel>, d: MarketData, i: int)
    ensures
        cond_max_period_list(cond_eval_or(s, d, i).1, i) == cond_max_period_list(s, i),
        cond_eval_or(s, d, i).1.len() == s.len(),
        forall|k: int|
            0 <= k < s.len() ==> cond_max_period(#[trigger] cond_eval_or(s, d, i).1[k])
                == cond_max_period(s[k]),
    decreases s, s.len() - i,
{
    if 0 <= i && i < s.len() {
        let (res, c2) = cond_eval(s[i], d);
        lemma_cond_max_period_eval(s[i], d);
        match res {
            Err(_) => {
                lemma_cond_max_period_list_update(s, i, i, c2);
                lemma_cond_max_period_list_eq_all(s, s.update(i, c2), i);
            },
            Ok(true) => {
                lemma_cond_max_period_list_update(s, i, i, c2);
                lemma_cond_max_period_list_eq_all(s, s.update(i, c2), i);
            },
            Ok(false) => {
                lemma_cond_max_period_eval_or(s, d, i + 1);
                let (r2, s2) = cond_eval_or(s, d, i + 1);
                lemma_cond_max_period_list_update(s2, i, i, c2);
                lemma_cond_max_period_list_eq_all(s, s2.update(i, c2), i);
            },
        }
    }
}

/// Pointwise equal periods give equal list periods.
pub proof fn lemma_cond_max_period_list_eq_all(a: Seq<CondModel>, b: Seq<CondModel>, i: int)
    requires
        a.len() == b.len(),
        forall|k: int|
            0 <= k < a.len() ==> cond_max_period(#[trigger] b[k]) == cond_max_period(a[k]),
    ensures
        cond_max_period_list(b, i) == cond_max_period_list(a, i),
    decreases a.len() - i,
{
    if 0 <= i && i < a.len() {
        lemma_cond_max_period_list_eq_all(a, b, i + 1);
    }
}

} // verus!
