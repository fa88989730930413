//! The output value algebra: every indicator result is an `OutputType`, a
//! scalar, a fixed array, a symbolic placeholder resolved against a bar, a
//! heterogeneous composite, or a sentinel used as a comparison wildcard.
//!
//! The mathematical model of a value is `ValueModel` and that of a shape is
//! `ShapeModel`; contracts speak of those models. Values are compared
//! through a three-way outcome extended with two marks: `Any` for a wildcard
//! that agrees with every ordering and `Unknown` for an indeterminate
//! comparison (a NaN, disagreeing elements, or the `False` sentinel). An
//! indeterminate comparison propagates as `None`, never as a panic;
//! incompatible shapes are a typed error.

use vstd::prelude::*;

use crate::error::OutputError;
use crate::fp;
use crate::strategy::market_data::MarketData;

verus! {

/// Sentinel comparison results, used as wildcards in composite values.
#[derive(Debug, Clone, Copy, PartialEq, Eq, Structural)]
pub enum Statics {
    Greater,
    Equal,
    Less,
    True,
    False,
}

/// A three-way comparison outcome.
#[derive(Debug, Clone, Copy, PartialEq, Eq, Structural)]
pub enum Comparison {
    Less,
    Equal,
    Greater,
}

/// One element's contribution to a composite comparison: a known ordering, a
/// wildcard agreeing with anything, or an indeterminate element.
#[derive(Debug, Clone, Copy, PartialEq, Eq, Structural)]
pub enum ElemCmp {
    Known(Comparison),
    Any,
    Unknown,
}

/// The structural arity of an output value: a flat size, or a tensor of the
/// arities of a composite's elements.
#[derive(Debug)]
pub enum OutputShape {
    Shape(usize),
    Tensor(Vec<OutputShape>),
}

/// The mathematical model of a shape.
#[verifier::ext_equal]
pub enum ShapeModel {
    S(nat),
    T(Seq<ShapeModel>),
}

/// The model of an `OutputShape`.
pub open spec fn shape_view(s: OutputShape) -> ShapeModel
    decreases s, 0int,
{
    match s {
        OutputShape::Shape(n) => ShapeModel::S(n as nat),
        OutputShape::Tensor(v) => ShapeModel::T(shape_views(v@, 0)),
    }
}

/// The models of a list of shapes, from position `i` on.
pub open spec fn shape_views(vs: Seq<OutputShape>, i: int) -> Seq<ShapeModel>
    decreases vs, vs.len() - i,
{
    if i < 0 || i >= vs.len() {
        Seq::empty()
    } else {
        seq![shape_view(vs[i])] + shape_views(vs, i + 1)
    }
}

/// `shape_views` maps positions one for one.
pub proof fn lemma_shape_views(vs: Seq<OutputShape>, k: int)
    requires
        0 <= k <= vs.len(),
    ensures
        shape_views(vs, k).len() == vs.len() - k,
        forall|i: int|
            0 <= i < vs.len() - k ==> #[trigger] shape_views(vs, k)[i] == shape_view(vs[k + i]),
    decreases vs.len() - k,
{
    if k < vs.len() {
        lemma_shape_views(vs, k + 1);
        assert forall|i: int| 0 <= i < vs.len() - k implies #[trigger] shape_views(vs, k)[i]
            == shape_view(vs[k + i]) by {
            if i > 0 {
                assert(shape_views(vs, k + 1)[i - 1] == shape_view(vs[k + 1 + (i - 1)]));
            }
        }
    }
}

/// An indicator output value.
#[derive(Debug)]
pub enum OutputType {
    /// A single scalar (an IEEE-754 bit pattern).
    Single(u64),
    /// A fixed array of scalars.
    Array(Vec<u64>),
    /// The bar's opening price, resolved at comparison time.
    Open,
    /// The bar's high price, resolved at comparison time.
    High,
    /// The bar's low price, resolved at comparison time.
    Low,
    /// The bar's closing price, resolved at comparison time.
    Close,
    /// The bar's traded volume, resolved at comparison time.
    Volume,
    /// A heterogeneous composite.
    Custom(Vec<OutputType>),
    /// A sentinel comparison result used as a wildcard.
    Static(Statics),
    /// A vector of sentinels.
    Statics(Vec<Statics>),
}

/// The mathematical model of an output value.
#[verifier::ext_equal]
pub enum ValueModel {
    Single(u64),
    Array(Seq<u64>),
    Open,
    High,
    Low,
    Close,
    Volume,
    Custom(Seq<ValueModel>),
    Static(Statics),
    Statics(Seq<Statics>),
}

/// The model of an `OutputType`.
pub open spec fn val_view(o: OutputType) -> ValueModel
    decreases o, 0int,
{
    match o {
        OutputType::Single(x) => ValueModel::Single(x),
        OutputType::Array(v) => ValueModel::Array(v@),
        OutputType::Open => ValueModel::Open,
        OutputType::High => ValueModel::High,
        OutputType::Low => ValueModel::Low,
        OutputType::Close => ValueModel::Close,
        OutputType::Volume => ValueModel::Volume,
        OutputType::Custom(v) => ValueModel::Custom(val_views(v@, 0)),
        OutputType::Static(s) => ValueModel::Static(s),
        OutputType::Statics(ss) => ValueModel::Statics(ss@),
    }
}

/// The models of a list of values, from position `i` on.
pub open spec fn val_views(vs: Seq<OutputType>, i: int) -> Seq<ValueModel>
    decreases vs, vs.len() - i,
{
    if i < 0 || i >= vs.len() {
        Seq::empty()
    } else {
        seq![val_view(vs[i])] + val_views(vs, i + 1)
    }
}

/// `val_views` maps positions one for one.
pub proof fn lemma_val_views(vs: Seq<OutputType>, k: int)
    requires
        0 <= k <= vs.len(),
    ensures
        val_views(vs, k).len() == vs.len() - k,
        forall|i: int|
            0 <= i < vs.len() - k ==> #[trigger] val_views(vs, k)[i] == val_view(vs[k + i]),
    decreases vs.len() - k,
{
    if k < vs.len() {
        lemma_val_views(vs, k + 1);
        assert forall|i: int| 0 <= i < vs.len() - k implies #[trigger] val_views(vs, k)[i]
            == val_view(vs[k + i]) by {
            if i > 0 {
                assert(val_views(vs, k + 1)[i - 1] == val_view(vs[k + 1 + (i - 1)]));
            }
        }
    }
}

/// Scalars as value models.
pub open spec fn singles(ws: Seq<u64>) -> Seq<ValueModel> {
    ws.map_values(|x: u64| ValueModel::Single(x))
}

/// Sentinels as value models.
pub open spec fn sentinels(ss: Seq<Statics>) -> Seq<ValueModel> {
    ss.map_values(|s: Statics| ValueModel::Static(s))
}

/// What a sentinel contributes to a comparison: the ordering it names,
/// `True` agreeing with everything, `False` indeterminate.
pub open spec fn statics_elem(s: Statics) -> ElemCmp {
    match s {
        Statics::Greater => ElemCmp::Known(Comparison::Greater),
        Statics::Equal => ElemCmp::Known(Comparison::Equal),
        Statics::Less => ElemCmp::Known(Comparison::Less),
        Statics::True => ElemCmp::Any,
        Statics::False => ElemCmp::Unknown,
    }
}

/// The IEEE-754 ordering of two scalars; a NaN makes it indeterminate.
pub open spec fn scalar_elem(x: u64, y: u64) -> ElemCmp {
    if fp::is_nan_bits(x) || fp::is_nan_bits(y) {
        ElemCmp::Unknown
    } else if fp::lt_bits(x, y) {
        ElemCmp::Known(Comparison::Less)
    } else if fp::eq_bits(x, y) {
        ElemCmp::Known(Comparison::Equal)
    } else {
        ElemCmp::Known(Comparison::Greater)
    }
}

/// Merges two elements' contributions: indeterminacy dominates, wildcards
/// are neutral, and two known orderings must agree.
pub open spec fn combine(a: ElemCmp, b: ElemCmp) -> ElemCmp {
    match (a, b) {
        (ElemCmp::Unknown, _) => ElemCmp::Unknown,
        (_, ElemCmp::Unknown) => ElemCmp::Unknown,
        (ElemCmp::Any, y) => y,
        (x, ElemCmp::Any) => x,
        (ElemCmp::Known(x), ElemCmp::Known(y)) => if x == y {
            ElemCmp::Known(x)
        } else {
            ElemCmp::Unknown
        },
    }
}

/// Elementwise scalar comparison of two equally long arrays, from `i` on.
pub open spec fn combine_scalars(v: Seq<u64>, w: Seq<u64>, i: int) -> ElemCmp
    decreases v.len() - i,
{
    if i < 0 || i >= v.len() || i >= w.len() {
        ElemCmp::Any
    } else {
        combine(scalar_elem(v[i], w[i]), combine_scalars(v, w, i + 1))
    }
}

/// Elementwise sentinel contributions, from `i` on.
pub open spec fn combine_statics(ss: Seq<Statics>, i: int) -> ElemCmp
    decreases ss.len() - i,
{
    if i < 0 || i >= ss.len() {
        ElemCmp::Any
    } else {
        combine(statics_elem(ss[i]), combine_statics(ss, i + 1))
    }
}

/// Pairwise sentinel merges of two equally long sentinel vectors.
pub open spec fn combine_statics2(s1: Seq<Statics>, s2: Seq<Statics>, i: int) -> ElemCmp
    decreases s1.len() - i,
{
    if i < 0 || i >= s1.len() || i >= s2.len() {
        ElemCmp::Any
    } else {
        combine(
            combine(statics_elem(s1[i]), statics_elem(s2[i])),
            combine_statics2(s1, s2, i + 1),
        )
    }
}

/// A size measure on value models, used to show that the comparison
/// terminates.
pub open spec fn vdepth(m: ValueModel) -> nat
    decreases m, 0int,
{
    match m {
        ValueModel::Array(w) => 2 * w.len() + 2,
        ValueModel::Statics(ss) => 2 * ss.len() + 2,
        ValueModel::Custom(s) => vdepth_seq(s, 0) + 2,
        _ => 1,
    }
}

/// The summed sizes of a list's elements, from `i` on.
pub open spec fn vdepth_seq(s: Seq<ValueModel>, i: int) -> nat
    decreases s, s.len() - i,
{
    if i < 0 || i >= s.len() {
        0
    } else {
        1 + vdepth(s[i]) + vdepth_seq(s, i + 1)
    }
}

/// Each element's size is below its list's summed size.
pub proof fn lemma_vdepth_seq_elem(s: Seq<ValueModel>, i: int, k: int)
    requires
        0 <= i <= k < s.len(),
    ensures
        vdepth(s[k]) < vdepth_seq(s, i),
    decreases k - i,
{
    if i < k {
        lemma_vdepth_seq_elem(s, i + 1, k);
    }
}

/// The summed size of a scalar list, mapped to value models.
pub proof fn lemma_vdepth_singles(w: Seq<u64>, i: int)
    requires
        0 <= i <= w.len(),
    ensures
        vdepth_seq(singles(w), i) == 2 * (w.len() - i),
    decreases w.len() - i,
{
    assert(singles(w).len() == w.len());
    if i < w.len() {
        assert(singles(w)[i] == ValueModel::Single(w[i]));
        lemma_vdepth_singles(w, i + 1);
        assert(vdepth(ValueModel::Single(w[i])) == 1);
        assert(vdepth_seq(singles(w), i) == 1 + vdepth(singles(w)[i]) + vdepth_seq(
            singles(w),
            i + 1,
        ));
    }
}

/// The summed size of a sentinel list, mapped to value models.
pub proof fn lemma_vdepth_sentinels(ss: Seq<Statics>, i: int)
    requires
        0 <= i <= ss.len(),
    ensures
        vdepth_seq(sentinels(ss), i) == 2 * (ss.len() - i),
    decreases ss.len() - i,
{
    assert(sentinels(ss).len() == ss.len());
    if i < ss.len() {
        assert(sentinels(ss)[i] == ValueModel::Static(ss[i]));
        lemma_vdepth_sentinels(ss, i + 1);
        assert(vdepth(ValueModel::Static(ss[i])) == 1);
        assert(vdepth_seq(sentinels(ss), i) == 1 + vdepth(sentinels(ss)[i]) + vdepth_seq(
            sentinels(ss),
            i + 1,
        ));
    }
}

#[via_fn]
proof fn cmp_elem_decreases(a: ValueModel, b: ValueModel) {
    match (a, b) {
        (ValueModel::Custom(v), ValueModel::Array(w)) => {
            if v.len() == w.len() {
                lemma_vdepth_singles(w, 0);
            }
        },
        (ValueModel::Array(v), ValueModel::Custom(w)) => {
            if v.len() == w.len() {
                lemma_vdepth_singles(v, 0);
            }
        },
        (ValueModel::Custom(v), ValueModel::Statics(ss)) => {
            if v.len() == ss.len() {
                lemma_vdepth_sentinels(ss, 0);
            }
        },
        (ValueModel::Statics(ss), ValueModel::Custom(w)) => {
            if ss.len() == w.len() {
                lemma_vdepth_sentinels(ss, 0);
            }
        },
        (ValueModel::Custom(v), ValueModel::Single(_)) => {
            if v.len() == 1 {
                lemma_vdepth_seq_elem(v, 0, 0);
            }
        },
        (ValueModel::Single(_), ValueModel::Custom(w)) => {
            if w.len() == 1 {
                lemma_vdepth_seq_elem(w, 0, 0);
            }
        },
        _ => {},
    }
}

#[via_fn]
proof fn cmp_list_decreases(vs: Seq<ValueModel>, ws: Seq<ValueModel>, i: int) {
    if 0 <= i && i < vs.len() && i < ws.len() {
        lemma_vdepth_seq_elem(vs, i, i);
        lemma_vdepth_seq_elem(ws, i, i);
    }
}

/// What comparing `a` with `b` contributes: a known ordering, a wildcard, an
/// indeterminate result, or a shape error. Placeholders must be resolved
/// against a bar before they can be compared.
pub open spec fn cmp_elem(a: ValueModel, b: ValueModel) -> Result<ElemCmp, OutputError>
    decreases vdepth(a) + vdepth(b),
    via cmp_elem_decreases
{
    match (a, b) {
        (ValueModel::Static(s), _) => Ok(statics_elem(s)),
        (_, ValueModel::Static(s)) => Ok(statics_elem(s)),
        (ValueModel::Single(x), ValueModel::Single(y)) => Ok(scalar_elem(x, y)),
        (ValueModel::Single(x), ValueModel::Array(w)) => if w.len() == 1 {
            Ok(scalar_elem(x, w[0]))
        } else {
            Err(OutputError::LengthMismatch(1, w.len() as usize))
        },
        (ValueModel::Array(v), ValueModel::Single(y)) => if v.len() == 1 {
            Ok(scalar_elem(v[0], y))
        } else {
            Err(OutputError::LengthMismatch(v.len() as usize, 1))
        },
        (ValueModel::Array(v), ValueModel::Array(w)) => if v.len() == w.len() {
            Ok(combine_scalars(v, w, 0))
        } else {
            Err(OutputError::LengthMismatch(v.len() as usize, w.len() as usize))
        },
        (ValueModel::Single(_), ValueModel::Statics(ss)) => if ss.len() == 1 {
            Ok(statics_elem(ss[0]))
        } else {
            Err(OutputError::LengthMismatch(1, ss.len() as usize))
        },
        (ValueModel::Statics(ss), ValueModel::Single(_)) => if ss.len() == 1 {
            Ok(statics_elem(ss[0]))
        } else {
            Err(OutputError::LengthMismatch(ss.len() as usize, 1))
        },
        (ValueModel::Array(v), ValueModel::Statics(ss)) => if v.len() == ss.len() {
            Ok(combine_statics(ss, 0))
        } else {
            Err(OutputError::LengthMismatch(v.len() as usize, ss.len() as usize))
        },
        (ValueModel::Statics(ss), ValueModel::Array(w)) => if ss.len() == w.len() {
            Ok(combine_statics(ss, 0))
        } else {
            Err(OutputError::LengthMismatch(ss.len() as usize, w.len() as usize))
        },
        (ValueModel::Statics(s1), ValueModel::Statics(s2)) => if s1.len() == s2.len() {
            Ok(combine_statics2(s1, s2, 0))
        } else {
            Err(OutputError::LengthMismatch(s1.len() as usize, s2.len() as usize))
        },
        (ValueModel::Custom(v), ValueModel::Custom(w)) => if v.len() == w.len() {
            cmp_list(v, w, 0)
        } else {
            Err(OutputError::LengthMismatch(v.len() as usize, w.len() as usize))
        },
        (ValueModel::Custom(v), ValueModel::Array(w)) => if v.len() == w.len() {
            cmp_list(v, singles(w), 0)
        } else {
            Err(OutputError::LengthMismatch(v.len() as usize, w.len() as usize))
        },
        (ValueModel::Array(v), ValueModel::Custom(w)) => if v.len() == w.len() {
            cmp_list(singles(v), w, 0)
        } else {
            Err(OutputError::LengthMismatch(v.len() as usize, w.len() as usize))
        },
        (ValueModel::Custom(v), ValueModel::Single(y)) => if v.len() == 1 {
            cmp_elem(v[0], b)
        } else {
            Err(OutputError::LengthMismatch(v.len() as usize, 1))
        },
        (ValueModel::Single(x), ValueModel::Custom(w)) => if w.len() == 1 {
            cmp_elem(a, w[0])
        } else {
            Err(OutputError::LengthMismatch(1, w.len() as usize))
        },
        (ValueModel::Custom(v), ValueModel::Statics(ss)) => if v.len() == ss.len() {
            cmp_list(v, sentinels(ss), 0)
        } else {
            Err(OutputError::LengthMismatch(v.len() as usize, ss.len() as usize))
        },
        (ValueModel::Statics(ss), ValueModel::Custom(w)) => if ss.len() == w.len() {
            cmp_list(sentinels(ss), w, 0)
        } else {
            Err(OutputError::LengthMismatch(ss.len() as usize, w.len() as usize))
        },
        _ => Err(OutputError::TypeMismatch),
    }
}

/// Elementwise comparison of two equally long value lists, from `i` on; the
/// first element error wins.
pub open spec fn cmp_list(vs: Seq<ValueModel>, ws: Seq<ValueModel>, i: int) -> Result<
    ElemCmp,
    OutputError,
>
    decreases vdepth_seq(vs, i) + vdepth_seq(ws, i) + 1,
    via cmp_list_decreases
{
    if i < 0 || i >= vs.len() || i >= ws.len() {
        Ok(ElemCmp::Any)
    } else {
        match cmp_elem(vs[i], ws[i]) {
            Err(e) => Err(e),
            Ok(head) => match cmp_list(vs, ws, i + 1) {
                Err(e) => Err(e),
                Ok(rest) => Ok(combine(head, rest)),
            },
        }
    }
}

/// The comparison of two output values: `None` where the result is
/// indeterminate (a NaN, disagreeing elements or a `False` sentinel), the
/// ordering otherwise; a pure wildcard comparison is `Equal`.
pub open spec fn cmp_values(a: ValueModel, b: ValueModel) -> Result<
    Option<Comparison>,
    OutputError,
> {
    match cmp_elem(a, b) {
        Err(e) => Err(e),
        Ok(ElemCmp::Known(c)) => Ok(Some(c)),
        Ok(ElemCmp::Any) => Ok(Some(Comparison::Equal)),
        Ok(ElemCmp::Unknown) => Ok(None),
    }
}

/// Executable sentinel contribution.
fn statics_elem_exec(s: &Statics) -> (r: ElemCmp)
    ensures
        r == statics_elem(*s),
{
    match s {
        Statics::Greater => ElemCmp::Known(Comparison::Greater),
        Statics::Equal => ElemCmp::Known(Comparison::Equal),
        Statics::Less => ElemCmp::Known(Comparison::Less),
        Statics::True => ElemCmp::Any,
        Statics::False => ElemCmp::Unknown,
    }
}

/// Executable scalar ordering.
fn scalar_elem_exec(x: u64, y: u64) -> (r: ElemCmp)
    ensures
        r == scalar_elem(x, y),
{
    if fp::fp_is_nan(x) || fp::fp_is_nan(y) {
        ElemCmp::Unknown
    } else if fp::fp_lt(x, y) {
        ElemCmp::Known(Comparison::Less)
    } else if fp::fp_eq(x, y) {
        ElemCmp::Known(Comparison::Equal)
    } else {
        ElemCmp::Known(Comparison::Greater)
    }
}

/// Executable merge of two contributions.
fn combine_exec(a: ElemCmp, b: ElemCmp) -> (r: ElemCmp)
    ensures
        r == combine(a, b),
{
    match (a, b) {
        (ElemCmp::Unknown, _) => ElemCmp::Unknown,
        (_, ElemCmp::Unknown) => ElemCmp::Unknown,
        (ElemCmp::Any, y) => y,
        (x, ElemCmp::Any) => x,
        (ElemCmp::Known(x), ElemCmp::Known(y)) => if x == y {
            ElemCmp::Known(x)
        } else {
            ElemCmp::Unknown
        },
    }
}

impl OutputType {
    /// Compares two resolved values; `Ok(None)` marks an indeterminate
    /// comparison, an `Err` incompatible shapes.
    pub fn compare(&self, other: &OutputType) -> (r: Result<Option<Comparison>, OutputError>)
        ensures
            r == cmp_values(val_view(*self), val_view(*other)),
    {
        match cmp_elem_exec(self, other) {
            Err(e) => Err(e),
            Ok(ElemCmp::Known(c)) => Ok(Some(c)),
            Ok(ElemCmp::Any) => Ok(Some(Comparison::Equal)),
            Ok(ElemCmp::Unknown) => Ok(None),
        }
    }
}

/// Executable form of `cmp_elem`, over concrete values.
fn cmp_elem_exec(a: &OutputType, b: &OutputType) -> (r: Result<ElemCmp, OutputError>)
    ensures
        r == cmp_elem(val_view(*a), val_view(*b)),
    decreases vdepth(val_view(*a)) + vdepth(val_view(*b)),
{
    match (a, b) {
        (OutputType::Static(s), _) => Ok(statics_elem_exec(s)),
        (_, OutputType::Static(s)) => Ok(statics_elem_exec(s)),
        (OutputType::Single(x), OutputType::Single(y)) => Ok(scalar_elem_exec(*x, *y)),
        (OutputType::Single(x), OutputType::Array(w)) => if w.len() == 1 {
            Ok(scalar_elem_exec(*x, w[0]))
        } else {
            Err(OutputError::LengthMismatch(1, w.len()))
        },
        (OutputType::Array(v), OutputType::Single(y)) => if v.len() == 1 {
            Ok(scalar_elem_exec(v[0], *y))
        } else {
            Err(OutputError::LengthMismatch(v.len(), 1))
        },
        (OutputType::Array(v), OutputType::Array(w)) => if v.len() == w.len() {
            cmp_list_aa(v, w, 0)
        } else {
            Err(OutputError::LengthMismatch(v.len(), w.len()))
        },
        (OutputType::Single(_), OutputType::Statics(ss)) => if ss.len() == 1 {
            Ok(statics_elem_exec(&ss[0]))
        } else {
            Err(OutputError::LengthMismatch(1, ss.len()))
        },
        (OutputType::Statics(ss), OutputType::Single(_)) => if ss.len() == 1 {
            Ok(statics_elem_exec(&ss[0]))
        } else {
            Err(OutputError::LengthMismatch(ss.len(), 1))
        },
        (OutputType::Array(v), OutputType::Statics(ss)) => if v.len() == ss.len() {
            cmp_list_as(v, ss, 0)
        } else {
            Err(OutputError::LengthMismatch(v.len(), ss.len()))
        },
        (OutputType::Statics(ss), OutputType::Array(w)) => if ss.len() == w.len() {
            cmp_list_sa(ss, w, 0)
        } else {
            Err(OutputError::LengthMismatch(ss.len(), w.len()))
        },
        (OutputType::Statics(s1), OutputType::Statics(s2)) => if s1.len() == s2.len() {
            cmp_list_ss(s1, s2, 0)
        } else {
            Err(OutputError::LengthMismatch(s1.len(), s2.len()))
        },
        (OutputType::Custom(v), OutputType::Custom(w)) => {
            proof {
                lemma_val_views(v@, 0);
                lemma_val_views(w@, 0);
            }
            if v.len() == w.len() {
                cmp_list_cc(v, w, 0)
            } else {
                Err(OutputError::LengthMismatch(v.len(), w.len()))
            }
        },
        (OutputType::Custom(v), OutputType::Array(w)) => {
            proof {
                lemma_val_views(v@, 0);
                lemma_vdepth_singles(w@, 0);
            }
            if v.len() == w.len() {
                cmp_list_ca(v, w, 0)
            } else {
                Err(OutputError::LengthMismatch(v.len(), w.len()))
            }
        },
        (OutputType::Array(v), OutputType::Custom(w)) => {
            proof {
                lemma_val_views(w@, 0);
                lemma_vdepth_singles(v@, 0);
            }
            if v.len() == w.len() {
                cmp_list_ac(v, w, 0)
            } else {
                Err(OutputError::LengthMismatch(v.len(), w.len()))
            }
        },
        (OutputType::Custom(v), OutputType::Single(_)) => {
            proof {
                lemma_val_views(v@, 0);
            }
            if v.len() == 1 {
                proof {
                    lemma_vdepth_seq_elem(val_views(v@, 0), 0, 0);
                }
                cmp_elem_exec(&v[0], b)
            } else {
                Err(OutputError::LengthMismatch(v.len(), 1))
            }
        },
        (OutputType::Single(_), OutputType::Custom(w)) => {
            proof {
                lemma_val_views(w@, 0);
            }
            if w.len() == 1 {
                proof {
                    lemma_vdepth_seq_elem(val_views(w@, 0), 0, 0);
                }
                cmp_elem_exec(a, &w[0])
            } else {
                Err(OutputError::LengthMismatch(1, w.len()))
            }
        },
        (OutputType::Custom(v), OutputType::Statics(ss)) => {
            proof {
                lemma_val_views(v@, 0);
                lemma_vdepth_sentinels(ss@, 0);
            }
            if v.len() == ss.len() {
                cmp_list_cs(v, ss, 0)
            } else {
                Err(OutputError::LengthMismatch(v.len(), ss.len()))
            }
        },
        (OutputType::Statics(ss), OutputType::Custom(w)) => {
            proof {
                lemma_val_views(w@, 0);
                lemma_vdepth_sentinels(ss@, 0);
            }
            if ss.len() == w.len() {
                cmp_list_sc(ss, w, 0)
            } else {
                Err(OutputError::LengthMismatch(ss.len(), w.len()))
            }
        },
        _ => Err(OutputError::TypeMismatch),
    }
}

/// Executable list comparison: scalar array against scalar array.
fn cmp_list_aa(v: &Vec<u64>, w: &Vec<u64>, i: usize) -> (r: Result<ElemCmp, OutputError>)
    requires
        v@.len() == w@.len(),
    ensures
        r == Ok::<ElemCmp, OutputError>(combine_scalars(v@, w@, i as int)),
    decreases v@.len() - i,
{
    if i >= v.len() {
        Ok(ElemCmp::Any)
    } else {
        let head = scalar_elem_exec(v[i], w[i]);
        match cmp_list_aa(v, w, i + 1) {
            Err(e) => Err(e),
            Ok(rest) => Ok(combine_exec(head, rest)),
        }
    }
}

/// Executable list comparison: scalar array against sentinels.
fn cmp_list_as(v: &Vec<u64>, ss: &Vec<Statics>, i: usize) -> (r: Result<ElemCmp, OutputError>)
    requires
        v@.len() == ss@.len(),
    ensures
        r == Ok::<ElemCmp, OutputError>(combine_statics(ss@, i as int)),
    decreases v@.len() - i,
{
    if i >= v.len() {
        Ok(ElemCmp::Any)
    } else {
        let head = statics_elem_exec(&ss[i]);
        match cmp_list_as(v, ss, i + 1) {
            Err(e) => Err(e),
            Ok(rest) => Ok(combine_exec(head, rest)),
        }
    }
}

/// Executable list comparison: sentinels against a scalar array.
fn cmp_list_sa(ss: &Vec<Statics>, w: &Vec<u64>, i: usize) -> (r: Result<ElemCmp, OutputError>)
    requires
        ss@.len() == w@.len(),
    ensures
        r == Ok::<ElemCmp, OutputError>(combine_statics(ss@, i as int)),
    decreases ss@.len() - i,
{
    if i >= ss.len() {
        Ok(ElemCmp::Any)
    } else {
        let head = statics_elem_exec(&ss[i]);
        match cmp_list_sa(ss, w, i + 1) {
            Err(e) => Err(e),
            Ok(rest) => Ok(combine_exec(head, rest)),
        }
    }
}

/// Executable list comparison: sentinels against sentinels.
fn cmp_list_ss(s1: &Vec<Statics>, s2: &Vec<Statics>, i: usize) -> (r: Result<ElemCmp, OutputError>)
    requires
        s1@.len() == s2@.len(),
    ensures
        r == Ok::<ElemCmp, OutputError>(combine_statics2(s1@, s2@, i as int)),
    decreases s1@.len() - i,
{
    if i >= s1.len() {
        Ok(ElemCmp::Any)
    } else {
        let head = combine_exec(statics_elem_exec(&s1[i]), statics_elem_exec(&s2[i]));
        match cmp_list_ss(s1, s2, i + 1) {
            Err(e) => Err(e),
            Ok(rest) => Ok(combine_exec(head, rest)),
        }
    }
}

/// Executable list comparison: composite against composite.
fn cmp_list_cc(v: &Vec<OutputType>, w: &Vec<OutputType>, i: usize) -> (r: Result<
    ElemCmp,
    OutputError,
>)
    requires
        v@.len() == w@.len(),
    ensures
        r == cmp_list(val_views(v@, 0), val_views(w@, 0), i as int),
    decreases vdepth_seq(val_views(v@, 0), i as int) + vdepth_seq(val_views(w@, 0), i as int),
{
    proof {
        lemma_val_views(v@, 0);
        lemma_val_views(w@, 0);
        if i < v@.len() {
            lemma_vdepth_seq_elem(val_views(v@, 0), i as int, i as int);
            lemma_vdepth_seq_elem(val_views(w@, 0), i as int, i as int);
        }
    }
    if i >= v.len() {
        Ok(ElemCmp::Any)
    } else {
        proof {
            assert(val_views(v@, 0)[i as int] == val_view(v@[0 + i as int]));
            assert(val_views(w@, 0)[i as int] == val_view(w@[0 + i as int]));
        }
        match cmp_elem_exec(&v[i], &w[i]) {
            Err(e) => Err(e),
            Ok(head) => match cmp_list_cc(v, w, i + 1) {
                Err(e) => Err(e),
                Ok(rest) => Ok(combine_exec(head, rest)),
            },
        }
    }
}

/// Executable list comparison: composite against a scalar array.
fn cmp_list_ca(v: &Vec<OutputType>, w: &Vec<u64>, i: usize) -> (r: Result<ElemCmp, OutputError>)
    requires
        v@.len() == w@.len(),
    ensures
        r == cmp_list(val_views(v@, 0), singles(w@), i as int),
    decreases vdepth_seq(val_views(v@, 0), i as int) + vdepth_seq(singles(w@), i as int),
{
    proof {
        lemma_val_views(v@, 0);
        assert(singles(w@).len() == w@.len());
        if i < v@.len() {
            lemma_vdepth_seq_elem(val_views(v@, 0), i as int, i as int);
            lemma_vdepth_seq_elem(singles(w@), i as int, i as int);
        }
    }
    if i >= v.len() {
        Ok(ElemCmp::Any)
    } else {
        proof {
            assert(val_views(v@, 0)[i as int] == val_view(v@[0 + i as int]));
            assert(singles(w@)[i as int] == ValueModel::Single(w@[i as int]));
        }
        match cmp_elem_exec(&v[i], &OutputType::Single(w[i])) {
            Err(e) => Err(e),
            Ok(head) => match cmp_list_ca(v, w, i + 1) {
                Err(e) => Err(e),
                Ok(rest) => Ok(combine_exec(head, rest)),
            },
        }
    }
}

/// Executable list comparison: a scalar array against a composite.
fn cmp_list_ac(v: &Vec<u64>, w: &Vec<OutputType>, i: usize) -> (r: Result<ElemCmp, OutputError>)
    requires
        v@.len() == w@.len(),
    ensures
        r == cmp_list(singles(v@), val_views(w@, 0), i as int),
    decreases vdepth_seq(singles(v@), i as int) + vdepth_seq(val_views(w@, 0), i as int),
{
    proof {
        lemma_val_views(w@, 0);
        assert(singles(v@).len() == v@.len());
        if i < w@.len() {
            lemma_vdepth_seq_elem(singles(v@), i as int, i as int);
            lemma_vdepth_seq_elem(val_views(w@, 0), i as int, i as int);
        }
    }
    if i >= w.len() {
        Ok(ElemCmp::Any)
    } else {
        proof {
            assert(singles(v@)[i as int] == ValueModel::Single(v@[i as int]));
            assert(val_views(w@, 0)[i as int] == val_view(w@[0 + i as int]));
        }
        match cmp_elem_exec(&OutputType::Single(v[i]), &w[i]) {
            Err(e) => Err(e),
            Ok(head) => match cmp_list_ac(v, w, i + 1) {
                Err(e) => Err(e),
                Ok(rest) => Ok(combine_exec(head, rest)),
            },
        }
    }
}

/// Executable list comparison: composite against sentinels.
fn cmp_list_cs(v: &Vec<OutputType>, ss: &Vec<Statics>, i: usize) -> (r: Result<
    ElemCmp,
    OutputError,
>)
    requires
        v@.len() == ss@.len(),
    ensures
        r == cmp_list(val_views(v@, 0), sentinels(ss@), i as int),
    decreases vdepth_seq(val_views(v@, 0), i as int) + vdepth_seq(sentinels(ss@), i as int),
{
    proof {
        lemma_val_views(v@, 0);
        assert(sentinels(ss@).len() == ss@.len());
        if i < v@.len() {
            lemma_vdepth_seq_elem(val_views(v@, 0), i as int, i as int);
            lemma_vdepth_seq_elem(sentinels(ss@), i as int, i as int);
        }
    }
    if i >= v.len() {
        Ok(ElemCmp::Any)
    } else {
        proof {
            assert(val_views(v@, 0)[i as int] == val_view(v@[0 + i as int]));
            assert(sentinels(ss@)[i as int] == ValueModel::Static(ss@[i as int]));
        }
        match cmp_elem_exec(&v[i], &OutputType::Static(ss[i])) {
            Err(e) => Err(e),
            Ok(head) => match cmp_list_cs(v, ss, i + 1) {
                Err(e) => Err(e),
                Ok(rest) => Ok(combine_exec(head, rest)),
            },
        }
    }
}

/// Executable list comparison: sentinels against a composite.
fn cmp_list_sc(ss: &Vec<Statics>, w: &Vec<OutputType>, i: usize) -> (r: Result<
    ElemCmp,
    OutputError,
>)
    requires
        ss@.len() == w@.len(),
    ensures
        r == cmp_list(sentinels(ss@), val_views(w@, 0), i as int),
    decreases vdepth_seq(sentinels(ss@), i as int) + vdepth_seq(val_views(w@, 0), i as int),
{
    proof {
        lemma_val_views(w@, 0);
        assert(sentinels(ss@).len() == ss@.len());
        if i < w@.len() {
            lemma_vdepth_seq_elem(sentinels(ss@), i as int, i as int);
            lemma_vdepth_seq_elem(val_views(w@, 0), i as int, i as int);
        }
    }
    if i >= w.len() {
        Ok(ElemCmp::Any)
    } else {
        proof {
            assert(sentinels(ss@)[i as int] == ValueModel::Static(ss@[i as int]));
            assert(val_views(w@, 0)[i as int] == val_view(w@[0 + i as int]));
        }
        match cmp_elem_exec(&OutputType::Static(ss[i]), &w[i]) {
            Err(e) => Err(e),
            Ok(head) => match cmp_list_sc(ss, w, i + 1) {
                Err(e) => Err(e),
                Ok(rest) => Ok(combine_exec(head, rest)),
            },
        }
    }
}

/// Structural equality of two shapes.
pub open spec fn shape_eq_spec(a: OutputShape, b: OutputShape) -> bool
    decreases a, b, 0int,
{
    match (a, b) {
        (OutputShape::Shape(n), OutputShape::Shape(m)) => n == m,
        (OutputShape::Tensor(v), OutputShape::Tensor(w)) => v@.len() == w@.len() && shape_eq_list(
            v@,
            w@,
            0,
        ),
        _ => false,
    }
}

/// Elementwise shape equality, from `i` on.
pub open spec fn shape_eq_list(vs: Seq<OutputShape>, ws: Seq<OutputShape>, i: int) -> bool
    decreases vs, ws, vs.len() - i,
{
    if i < 0 || i >= vs.len() || i >= ws.len() {
        true
    } else {
        shape_eq_spec(vs[i], ws[i]) && shape_eq_list(vs, ws, i + 1)
    }
}

/// Executable deep equality of shapes.
fn shape_eq_exec(a: &OutputShape, b: &OutputShape) -> (r: bool)
    ensures
        r == shape_eq_spec(*a, *b),
    decreases *a, *b, 0int,
{
    match (a, b) {
        (OutputShape::Shape(n), OutputShape::Shape(m)) => n == m,
        (OutputShape::Tensor(v), OutputShape::Tensor(w)) => v.len() == w.len() && shape_eq_list_exec(
            v,
            w,
            0,
        ),
        _ => false,
    }
}

/// Executable elementwise shape equality.
fn shape_eq_list_exec(v: &Vec<OutputShape>, w: &Vec<OutputShape>, i: usize) -> (r: bool)
    requires
        v@.len() == w@.len(),
    ensures
        r == shape_eq_list(v@, w@, i as int),
    decreases *v, *w, v@.len() - i,
{
    if i >= v.len() {
        true
    } else {
        shape_eq_exec(&v[i], &w[i]) && shape_eq_list_exec(v, w, i + 1)
    }
}

impl PartialEq for OutputShape {
    fn eq(&self, other: &OutputShape) -> (r: bool) {
        shape_eq_exec(self, other)
    }
}

impl vstd::std_specs::cmp::PartialEqSpecImpl for OutputShape {
    open spec fn obeys_eq_spec() -> bool {
        true
    }

    open spec fn eq_spec(&self, other: &OutputShape) -> bool {
        shape_eq_spec(*self, *other)
    }
}

/// A tensor of sub-shapes collapses to a flat shape when every sub-shape is
/// scalar; an empty composite has no shape.
pub open spec fn norm_tensor(subs: Seq<ShapeModel>) -> ShapeModel {
    if forall|i: int| 0 <= i < subs.len() ==> subs[i] == ShapeModel::S(1) {
        ShapeModel::S(subs.len())
    } else {
        ShapeModel::T(subs)
    }
}

/// The shape of an output value: scalars and placeholders are `S(1)`, arrays
/// their length, composites a (possibly collapsed) tensor of their elements'
/// shapes. Empty arrays and composites are invalid.
pub open spec fn shape_of(m: ValueModel) -> Result<ShapeModel, OutputError>
    decreases m, 0int,
{
    match m {
        ValueModel::Single(_) => Ok(ShapeModel::S(1)),
        ValueModel::Open => Ok(ShapeModel::S(1)),
        ValueModel::High => Ok(ShapeModel::S(1)),
        ValueModel::Low => Ok(ShapeModel::S(1)),
        ValueModel::Close => Ok(ShapeModel::S(1)),
        ValueModel::Volume => Ok(ShapeModel::S(1)),
        ValueModel::Static(_) => Ok(ShapeModel::S(1)),
        ValueModel::Array(v) => if v.len() == 0 {
            Err(OutputError::InvalidOutputShape(OutputShape::Shape(0)))
        } else {
            Ok(ShapeModel::S(v.len()))
        },
        ValueModel::Statics(ss) => if ss.len() == 0 {
            Err(OutputError::InvalidOutputShape(OutputShape::Shape(0)))
        } else {
            Ok(ShapeModel::S(ss.len()))
        },
        ValueModel::Custom(v) => if v.len() == 0 {
            Err(OutputError::InvalidOutputShape(OutputShape::Shape(0)))
        } else {
            match shape_list(v, 0) {
                Err(e) => Err(e),
                Ok(subs) => Ok(norm_tensor(subs)),
            }
        },
    }
}

/// The shapes of a list of values, from `i` on; the first error wins.
pub open spec fn shape_list(s: Seq<ValueModel>, i: int) -> Result<Seq<ShapeModel>, OutputError>
    decreases s, s.len() - i,
{
    if i < 0 || i >= s.len() {
        Ok(Seq::empty())
    } else {
        match shape_of(s[i]) {
            Err(e) => Err(e),
            Ok(h) => match shape_list(s, i + 1) {
                Err(e) => Err(e),
                Ok(rest) => Ok(seq![h] + rest),
            },
        }
    }
}

impl OutputType {
    /// The structural arity of this value, or an error for an empty array or
    /// composite.
    pub fn output_shape(&self) -> (r: Result<OutputShape, OutputError>)
        ensures
            r is Ok <==> shape_of(val_view(*self)) is Ok,
            r matches Ok(sh) ==> Ok::<ShapeModel, OutputError>(shape_view(sh)) == shape_of(
                val_view(*self),
            ),
            r matches Err(e) ==> Err::<ShapeModel, OutputError>(e) == shape_of(val_view(*self)),
        decreases *self, 0int,
    {
        match self {
            OutputType::Single(_) => Ok(OutputShape::Shape(1)),
            OutputType::Open => Ok(OutputShape::Shape(1)),
            OutputType::High => Ok(OutputShape::Shape(1)),
            OutputType::Low => Ok(OutputShape::Shape(1)),
            OutputType::Close => Ok(OutputShape::Shape(1)),
            OutputType::Volume => Ok(OutputShape::Shape(1)),
            OutputType::Static(_) => Ok(OutputShape::Shape(1)),
            OutputType::Array(v) => if v.len() == 0 {
                Err(OutputError::InvalidOutputShape(OutputShape::Shape(0)))
            } else {
                Ok(OutputShape::Shape(v.len()))
            },
            OutputType::Statics(ss) => if ss.len() == 0 {
                Err(OutputError::InvalidOutputShape(OutputShape::Shape(0)))
            } else {
                Ok(OutputShape::Shape(ss.len()))
            },
            OutputType::Custom(v) => {
                proof {
                    lemma_val_views(v@, 0);
                }
                if v.len() == 0 {
                    Err(OutputError::InvalidOutputShape(OutputShape::Shape(0)))
                } else {
                    match shapes_of_list(v, 0) {
                        Err(e) => Err(e),
                        Ok(subs) => {
                            let ghost specsubs = shape_list(val_views(v@, 0), 0)->Ok_0;
                            proof {
                                lemma_shape_views(subs@, 0);
                            }
                            if all_scalar(&subs, 0) {
                                proof {
                                    assert(shape_views(subs@, 0) =~= specsubs);
                                    assert(norm_tensor(specsubs) == ShapeModel::S(
                                        specsubs.len(),
                                    ));
                                }
                                Ok(OutputShape::Shape(subs.len()))
                            } else {
                                proof {
                                    assert(shape_views(subs@, 0) =~= specsubs);
                                    let k0 = choose|k: int|
                                        0 <= k < subs@.len() && shape_view(subs@[k])
                                            != ShapeModel::S(1);
                                    assert(specsubs[k0] != ShapeModel::S(1));
                                    assert(norm_tensor(specsubs) == ShapeModel::T(specsubs));
                                }
                                Ok(OutputShape::Tensor(subs))
                            }
                        },
                    }
                }
            },
        }
    }
}

/// Executable shapes of a list of values, from `i` on, mirroring
/// `shape_list`.
fn shapes_of_list(v: &Vec<OutputType>, i: usize) -> (r: Result<Vec<OutputShape>, OutputError>)
    ensures
        r is Ok <==> shape_list(val_views(v@, 0), i as int) is Ok,
        r matches Ok(sv) ==> Ok::<Seq<ShapeModel>, OutputError>(shape_views(sv@, 0)) == shape_list(
            val_views(v@, 0),
            i as int,
        ),
        r matches Err(e) ==> Err::<Seq<ShapeModel>, OutputError>(e) == shape_list(
            val_views(v@, 0),
            i as int,
        ),
    decreases *v, v@.len() - i,
{
    proof {
        lemma_val_views(v@, 0);
    }
    if i >= v.len() {
        Ok(Vec::new())
    } else {
        match v[i].output_shape() {
            Err(e) => Err(e),
            Ok(sh) => match shapes_of_list(v, i + 1) {
                Err(e) => Err(e),
                Ok(mut rest) => {
                    let ghost oldrest = rest@;
                    rest.insert(0, sh);
                    proof {
                        assert(rest@ =~= seq![sh] + oldrest);
                        lemma_shape_views(oldrest, 0);
                        lemma_shape_views(rest@, 0);
                        assert(shape_views(rest@, 0) =~= seq![shape_view(sh)] + shape_views(
                            oldrest,
                            0,
                        ));
                    }
                    Ok(rest)
                },
            },
        }
    }
}

/// Every shape in the list is the scalar shape.
fn all_scalar(subs: &Vec<OutputShape>, i: usize) -> (r: bool)
    ensures
        r == forall|k: int|
            i <= k < subs@.len() ==> #[trigger] shape_view(subs@[k]) == ShapeModel::S(1),
    decreases subs@.len() - i,
{
    if i >= subs.len() {
        true
    } else {
        let head = match &subs[i] {
            OutputShape::Shape(n) => *n == 1,
            OutputShape::Tensor(_) => false,
        };
        if !head {
            proof {
                assert(shape_view(subs@[i as int]) != ShapeModel::S(1));
            }
            false
        } else {
            all_scalar(subs, i + 1)
        }
    }
}

/// A resolved value: placeholders replaced by the bar's components,
/// composites resolved elementwise, everything else unchanged.
pub open spec fn resolve_model(m: ValueModel, d: MarketData) -> ValueModel
    decreases m, 0int,
{
    match m {
        ValueModel::Open => ValueModel::Single(d.spec_open()),
        ValueModel::High => ValueModel::Single(d.spec_high()),
        ValueModel::Low => ValueModel::Single(d.spec_low()),
        ValueModel::Close => ValueModel::Single(d.spec_close()),
        ValueModel::Volume => ValueModel::Single(d.spec_volume()),
        ValueModel::Custom(s) => ValueModel::Custom(resolve_list(s, d, 0)),
        other => other,
    }
}

/// Elementwise resolution, from `i` on.
pub open spec fn resolve_list(s: Seq<ValueModel>, d: MarketData, i: int) -> Seq<ValueModel>
    decreases s, s.len() - i,
{
    if i < 0 || i >= s.len() {
        Seq::empty()
    } else {
        seq![resolve_model(s[i], d)] + resolve_list(s, d, i + 1)
    }
}

impl OutputType {
    /// Resolves placeholders against the current market data; concrete
    /// values pass through unchanged.
    pub fn resolve(&self, data: &MarketData) -> (r: OutputType)
        ensures
            val_view(r) == resolve_model(val_view(*self), *data),
        decreases *self, 0int,
    {
        match self {
            OutputType::Open => OutputType::Single(data.open()),
            OutputType::High => OutputType::Single(data.high()),
            OutputType::Low => OutputType::Single(data.low()),
            OutputType::Close => OutputType::Single(data.close()),
            OutputType::Volume => OutputType::Single(data.volume()),
            OutputType::Single(x) => OutputType::Single(*x),
            OutputType::Static(s) => OutputType::Static(*s),
            OutputType::Array(v) => {
                let c = copy_scalars(v);
                proof {
                    assert(c@ =~= v@);
                }
                OutputType::Array(c)
            },
            OutputType::Statics(ss) => {
                let c = copy_sentinels(ss);
                proof {
                    assert(c@ =~= ss@);
                }
                OutputType::Statics(c)
            },
            OutputType::Custom(v) => {
                proof {
                    lemma_val_views(v@, 0);
                }
                let out = resolve_elems(v, data, 0);
                OutputType::Custom(out)
            },
        }
    }
}

/// Copies a scalar vector.
fn copy_scalars(v: &Vec<u64>) -> (r: Vec<u64>)
    ensures
        r@ == v@,
{
    let mut out: Vec<u64> = Vec::new();
    let mut i: usize = 0;
    while i < v.len()
        invariant
            i <= v@.len(),
            out@ == v@.subrange(0, i as int),
        decreases v@.len() - i,
    {
        out.push(v[i]);
        i = i + 1;
        proof {
            assert(out@ =~= v@.subrange(0, i as int));
        }
    }
    proof {
        assert(out@ =~= v@);
    }
    out
}

/// Copies a sentinel vector.
fn copy_sentinels(v: &Vec<Statics>) -> (r: Vec<Statics>)
    ensures
        r@ == v@,
{
    let mut out: Vec<Statics> = Vec::new();
    let mut i: usize = 0;
    while i < v.len()
        invariant
            i <= v@.len(),
            out@ == v@.subrange(0, i as int),
        decreases v@.len() - i,
    {
        out.push(v[i]);
        i = i + 1;
        proof {
            assert(out@ =~= v@.subrange(0, i as int));
        }
    }
    proof {
        assert(out@ =~= v@);
    }
    out
}

/// Resolves the elements of a composite, from `i` on.
fn resolve_elems(v: &Vec<OutputType>, data: &MarketData, i: usize) -> (r: Vec<OutputType>)
    ensures
        val_views(r@, 0) == resolve_list(val_views(v@, 0), *data, i as int),
    decreases *v, v@.len() - i,
{
    proof {
        lemma_val_views(v@, 0);
    }
    if i >= v.len() {
        let out: Vec<OutputType> = Vec::new();
        proof {
            assert(val_views(out@, 0) =~= Seq::<ValueModel>::empty());
        }
        out
    } else {
        let head = v[i].resolve(data);
        let mut rest = resolve_elems(v, data, i + 1);
        let ghost oldrest = rest@;
        rest.insert(0, head);
        proof {
            lemma_val_views(oldrest, 0);
            lemma_val_views(rest@, 0);
            assert(val_views(rest@, 0) =~= seq![val_view(head)] + val_views(oldrest, 0));
        }
        rest
    }
}


/// Clones a shape, elementwise.
fn clone_shape(a: &OutputShape) -> (r: OutputShape)
    ensures
        shape_view(r) == shape_view(*a),
    decreases *a, 0int,
{
    match a {
        OutputShape::Shape(n) => OutputShape::Shape(*n),
        OutputShape::Tensor(v) => {
            proof {
                lemma_shape_views(v@, 0);
            }
            let out = clone_shape_list(v, 0);
            proof {
                lemma_shape_views(out@, 0);
                assert(shape_views(out@, 0) =~= shape_views(v@, 0));
            }
            OutputShape::Tensor(out)
        },
    }
}

/// Clones the tail of a shape list, from `i` on.
fn clone_shape_list(v: &Vec<OutputShape>, i: usize) -> (r: Vec<OutputShape>)
    ensures
        r@.len() == if i <= v@.len() {
            v@.len() - i
        } else {
            0
        },
        forall|k: int|
            0 <= k < r@.len() ==> #[trigger] shape_view(r@[k]) == shape_view(v@[i + k]),
    decreases *v, v@.len() - i,
{
    if i >= v.len() {
        Vec::new()
    } else {
        let head = clone_shape(&v[i]);
        let mut rest = clone_shape_list(v, i + 1);
        rest.insert(0, head);
        rest
    }
}

impl Clone for OutputShape {
    /// A deep copy with the same model.
    fn clone(&self) -> (r: OutputShape)
        ensures
            shape_view(r) == shape_view(*self),
    {
        clone_shape(self)
    }
}

/// Clones a value, elementwise.
fn clone_value(a: &OutputType) -> (r: OutputType)
    ensures
        val_view(r) == val_view(*a),
    decreases *a, 0int,
{
    match a {
        OutputType::Single(x) => OutputType::Single(*x),
        OutputType::Open => OutputType::Open,
        OutputType::High => OutputType::High,
        OutputType::Low => OutputType::Low,
        OutputType::Close => OutputType::Close,
        OutputType::Volume => OutputType::Volume,
        OutputType::Static(s) => OutputType::Static(*s),
        OutputType::Array(v) => {
            let c = copy_scalars(v);
            proof {
                assert(c@ =~= v@);
            }
            OutputType::Array(c)
        },
        OutputType::Statics(ss) => {
            let c = copy_sentinels(ss);
            proof {
                assert(c@ =~= ss@);
            }
            OutputType::Statics(c)
        },
        OutputType::Custom(v) => {
            proof {
                lemma_val_views(v@, 0);
            }
            let out = clone_value_list(v, 0);
            proof {
                lemma_val_views(out@, 0);
                assert(val_views(out@, 0) =~= val_views(v@, 0));
            }
            OutputType::Custom(out)
        },
    }
}

/// Clones the tail of a value list, from `i` on.
fn clone_value_list(v: &Vec<OutputType>, i: usize) -> (r: Vec<OutputType>)
    ensures
        r@.len() == if i <= v@.len() {
            v@.len() - i
        } else {
            0
        },
        forall|k: int| 0 <= k < r@.len() ==> #[trigger] val_view(r@[k]) == val_view(v@[i + k]),
    decreases *v, v@.len() - i,
{
    if i >= v.len() {
        Vec::new()
    } else {
        let head = clone_value(&v[i]);
        let mut rest = clone_value_list(v, i + 1);
        rest.insert(0, head);
        rest
    }
}

impl Clone for OutputType {
    /// A deep copy with the same model.
    fn clone(&self) -> (r: OutputType)
        ensures
            val_view(r) == val_view(*self),
    {
        clone_value(self)
    }
}

} // verus!

