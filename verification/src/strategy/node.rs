//! The strategy tree: preprocessing, conditional branching, cooldown gates,
//! leaf actions and aggregated sequences.

use vstd::prelude::*;

use crate::error::{StrategyError, TaError, TaResult};
use crate::preprocessing::PreprocessingStep;
use crate::strategy::action::Action;
use crate::strategy::condition::{
    cond_eval, cond_max_period, cond_valid, cond_view, cond_wf, reset_rel, upd_rel, CondModel,
    Condition, EvalErr, ValidErr,
};
use crate::strategy::market_data::MarketData;

verus! {

/// How a `Sequence` node aggregates its children's actions.
#[derive(Debug, Clone, Copy, PartialEq, Eq, Structural, Hash)]
pub enum SequenceMode {
    /// The first action-producing child's result.
    First,
    /// The first action other than `Hold`.
    Any,
    /// An action only when every collected action agrees; otherwise `Hold`.
    All,
    /// The most frequent action; a tie yields `Hold`.
    Majority,
    /// An action whose share of the collected actions reaches the given
    /// percentage; otherwise `Hold`.
    Percentage(u8),
}

/// One node of a strategy tree.
#[derive(Debug)]
pub enum StrategyNode {
    /// Applies a data transform and yields `Hold`.
    Preprocess(PreprocessingStep),
    /// Routes to `then_branch` when the condition holds, else to the
    /// mandatory `else_branch`.
    If {
        condition: Condition,
        then_branch: Box<StrategyNode>,
        else_branch: Option<Box<StrategyNode>>,
    },
    /// Holds for `remaining` bars, then evaluates `action`; a decision
    /// other than `Hold` restarts the cooldown.
    Timeout { cooldown: usize, remaining: usize, action: Box<StrategyNode> },
    /// Yields the fixed action.
    Action(Action),
    /// Evaluates its children in order under the aggregation mode.
    Sequence { mode: SequenceMode, nodes: Vec<StrategyNode> },
}

/// The model of a strategy tree.
pub enum NodeModel {
    Preprocess(PreprocessingStep),
    If { condition: CondModel, then_branch: Box<NodeModel>, else_branch: Option<Box<NodeModel>> },
    Timeout { cooldown: int, remaining: int, action: Box<NodeModel> },
    Action(Action),
    Sequence { mode: SequenceMode, nodes: Seq<NodeModel> },
}

/// The model of a `StrategyNode`.
pub open spec fn node_view(n: StrategyNode) -> NodeModel
    decreases n, 0int,
{
    match n {
        StrategyNode::Preprocess(p) => NodeModel::Preprocess(p),
        StrategyNode::If { condition, then_branch, else_branch } => NodeModel::If {
            condition: cond_view(condition),
            then_branch: Box::new(node_view(*then_branch)),
            else_branch: match else_branch {
                Some(e) => Some(Box::new(node_view(*e))),
                None => None,
            },
        },
        StrategyNode::Timeout { cooldown, remaining, action } => NodeModel::Timeout {
            cooldown: cooldown as int,
            remaining: remaining as int,
            action: Box::new(node_view(*action)),
        },
        StrategyNode::Action(a) => NodeModel::Action(a),
        StrategyNode::Sequence { mode, nodes } => NodeModel::Sequence {
            mode,
            nodes: node_views(nodes@, 0),
        },
    }
}

/// The models of a list of nodes, from `i` on.
pub open spec fn node_views(vs: Seq<StrategyNode>, i: int) -> Seq<NodeModel>
    decreases vs, vs.len() - i,
{
    if i < 0 || i >= vs.len() {
        Seq::empty()
    } else {
        seq![node_view(vs[i])] + node_views(vs, i + 1)
    }
}

/// `node_views` maps positions one for one.
pub proof fn lemma_node_views(vs: Seq<StrategyNode>, k: int)
    requires
        0 <= k <= vs.len(),
    ensures
        node_views(vs, k).len() == vs.len() - k,
        forall|i: int|
            0 <= i < vs.len() - k ==> #[trigger] node_views(vs, k)[i] == node_view(vs[k + i]),
    decreases vs.len() - k,
{
    if k < vs.len() {
        lemma_node_views(vs, k + 1);
        assert forall|i: int| 0 <= i < vs.len() - k implies #[trigger] node_views(vs, k)[i]
            == node_view(vs[k + i]) by {
            if i > 0 {
                assert(node_views(vs, k + 1)[i - 1] == node_view(vs[k + 1 + (i - 1)]));
            }
        }
    }
}

/// A structural size of a tree, preserved by every per-bar operation.
pub open spec fn node_depth(n: StrategyNode) -> nat
    decreases n, 0int,
{
    match n {
        StrategyNode::Preprocess(_) => 1,
        StrategyNode::Action(_) => 1,
        StrategyNode::If { condition, then_branch, else_branch } => node_depth(*then_branch) + (
        match else_branch {
            Some(e) => node_depth(*e),
            None => 0,
        }) + 1,
        StrategyNode::Timeout { action, .. } => node_depth(*action) + 1,
        StrategyNode::Sequence { nodes, .. } => node_depth_list(nodes@, 0) + 1,
    }
}

/// The summed sizes of a list of nodes, from `i` on.
pub open spec fn node_depth_list(s: Seq<StrategyNode>, i: int) -> nat
    decreases s, s.len() - i,
{
    if i < 0 || i >= s.len() {
        0
    } else {
        1 + node_depth(s[i]) + node_depth_list(s, i + 1)
    }
}

/// Each element's size is below its list's summed size.
pub proof fn lemma_node_depth_elem(s: Seq<StrategyNode>, i: int, k: int)
    requires
        0 <= i <= k < s.len(),
    ensures
        node_depth(s[k]) < node_depth_list(s, i),
    decreases k - i,
{
    if i < k {
        lemma_node_depth_elem(s, i + 1, k);
    }
}

/// Updating a position before `i` does not change the summed size from `i`.
pub proof fn lemma_node_depth_frame(s: Seq<StrategyNode>, i: int, j: int, x: StrategyNode)
    requires
        0 <= j < i,
        j < s.len(),
    ensures
        node_depth_list(s.update(j, x), i) == node_depth_list(s, i),
    decreases s.len() - i,
{
    if i < s.len() {
        lemma_node_depth_frame(s, i + 1, j, x);
        assert(s.update(j, x)[i] == s[i]);
    }
}

/// Pointwise equal sizes give equal summed sizes.
pub proof fn lemma_node_depth_list_eq(a: Seq<StrategyNode>, b: Seq<StrategyNode>, i: int)
    requires
        0 <= i <= a.len(),
        a.len() == b.len(),
        forall|k: int| 0 <= k < a.len() ==> node_depth(#[trigger] b[k]) == node_depth(a[k]),
    ensures
        node_depth_list(b, i) == node_depth_list(a, i),
    decreases a.len() - i,
{
    if i < a.len() {
        lemma_node_depth_list_eq(a, b, i + 1);
        assert(node_depth(b[i]) == node_depth(a[i]));
    }
}

/// Every condition in the tree is well formed.
pub open spec fn node_wf(m: NodeModel) -> bool
    decreases m, 0int,
{
    match m {
        NodeModel::Preprocess(_) => true,
        NodeModel::Action(_) => true,
        NodeModel::If { condition, then_branch, else_branch } => cond_wf(condition) && node_wf(
            *then_branch,
        ) && match else_branch {
            Some(e) => node_wf(*e),
            None => true,
        },
        NodeModel::Timeout { action, .. } => node_wf(*action),
        NodeModel::Sequence { nodes, .. } => node_wf_list(nodes, 0),
    }
}

/// Well-formedness of a list of node models, from `i` on.
pub open spec fn node_wf_list(s: Seq<NodeModel>, i: int) -> bool
    decreases s, s.len() - i,
{
    if i < 0 || i >= s.len() {
        true
    } else {
        node_wf(s[i]) && node_wf_list(s, i + 1)
    }
}

/// How tree validation fails.
pub enum NodeValidErr {
    /// An `If` without an `else` branch.
    MissingElse,
    /// A `Sequence` without children.
    EmptySeq,
    /// An invalid condition.
    Cond(ValidErr),
}

/// A tree is valid when every `If` has an `else` branch and a valid
/// condition, and every `Sequence` has at least one child.
pub open spec fn node_valid(m: NodeModel) -> Result<(), NodeValidErr>
    decreases m, 0int,
{
    match m {
        NodeModel::Preprocess(_) => Ok(()),
        NodeModel::Action(_) => Ok(()),
        NodeModel::If { condition, then_branch, else_branch } => match cond_valid(condition) {
            Err(e) => Err(NodeValidErr::Cond(e)),
            Ok(_) => match node_valid(*then_branch) {
                Err(e) => Err(e),
                Ok(_) => match else_branch {
                    None => Err(NodeValidErr::MissingElse),
                    Some(e) => node_valid(*e),
                },
            },
        },
        NodeModel::Timeout { action, .. } => node_valid(*action),
        NodeModel::Sequence { nodes, .. } => if nodes.len() == 0 {
            Err(NodeValidErr::EmptySeq)
        } else {
            node_valid_list(nodes, 0)
        },
    }
}

/// Validity of a list of node models, from `i` on; the first failure wins.
pub open spec fn node_valid_list(s: Seq<NodeModel>, i: int) -> Result<(), NodeValidErr>
    decreases s, s.len() - i,
{
    if i < 0 || i >= s.len() {
        Ok(())
    } else {
        match node_valid(s[i]) {
            Err(e) => Err(e),
            Ok(_) => node_valid_list(s, i + 1),
        }
    }
}

/// The largest indicator period reachable in the tree, or `None` without
/// any indicator.
pub open spec fn node_max_period(m: NodeModel) -> Option<int>
    decreases m, 0int,
{
    match m {
        NodeModel::Preprocess(_) => None,
        NodeModel::Action(_) => None,
        NodeModel::If { condition, then_branch, else_branch } => opt_max(
            opt_max(
                cond_max_period(condition),
                node_max_period(*then_branch),
            ),
            match else_branch {
                Some(e) => node_max_period(*e),
                None => None,
            },
        ),
        NodeModel::Timeout { action, .. } => node_max_period(*action),
        NodeModel::Sequence { nodes, .. } => node_max_period_list(nodes, 0),
    }
}

/// The larger of two optional periods.
pub open spec fn opt_max(a: Option<int>, b: Option<int>) -> Option<int> {
    match (a, b) {
        (None, x) => x,
        (x, None) => x,
        (Some(p), Some(q)) => Some(
            if p >= q {
                p
            } else {
                q
            },
        ),
    }
}

/// The largest period among a list of node models, from `i` on.
pub open spec fn node_max_period_list(s: Seq<NodeModel>, i: int) -> Option<int>
    decreases s, s.len() - i,
{
    if i < 0 || i >= s.len() {
        None
    } else {
        opt_max(node_max_period(s[i]), node_max_period_list(s, i + 1))
    }
}

/// How many of the collected actions equal `a`.
pub open spec fn count_action(s: Seq<Action>, a: Action) -> int
    decreases s.len(),
{
    if s.len() == 0 {
        0
    } else {
        count_action(s.drop_last(), a) + if s.last() == a {
            1int
        } else {
            0int
        }
    }
}

/// The aggregation of the collected (non-`Hold`) actions under a mode.
/// `First` and `Any` take the first one; `All` requires unanimity;
/// `Majority` takes the strict plurality, a tie yields `Hold`;
/// `Percentage(p)` takes the first action kind, in declaration order, whose
/// share reaches `p` percent.
pub open spec fn aggregate(mode: SequenceMode, acc: Seq<Action>) -> Action {
    match mode {
        SequenceMode::First => if acc.len() > 0 {
            acc[0]
        } else {
            Action::Hold
        },
        SequenceMode::Any => if acc.len() > 0 {
            acc[0]
        } else {
            Action::Hold
        },
        SequenceMode::All => if acc.len() > 0 && (forall|i: int|
            0 <= i < acc.len() ==> #[trigger] acc[i] == acc[0]) {
            acc[0]
        } else {
            Action::Hold
        },
        SequenceMode::Majority => {
            let sb = count_action(acc, Action::StrongBuy);
            let b = count_action(acc, Action::Buy);
            let sl = count_action(acc, Action::Sell);
            let ss = count_action(acc, Action::StrongSell);
            if sb > b && sb > sl && sb > ss {
                Action::StrongBuy
            } else if b > sb && b > sl && b > ss {
                Action::Buy
            } else if sl > sb && sl > b && sl > ss {
                Action::Sell
            } else if ss > sb && ss > b && ss > sl {
                Action::StrongSell
            } else {
                Action::Hold
            }
        },
        SequenceMode::Percentage(p) => {
            let total = acc.len() as int;
            if total == 0 {
                Action::Hold
            } else if count_action(acc, Action::StrongBuy) * 100 / total >= p {
                Action::StrongBuy
            } else if count_action(acc, Action::Buy) * 100 / total >= p {
                Action::Buy
            } else if count_action(acc, Action::Sell) * 100 / total >= p {
                Action::Sell
            } else if count_action(acc, Action::StrongSell) * 100 / total >= p {
                Action::StrongSell
            } else {
                Action::Hold
            }
        },
    }
}

/// One evaluation step of a tree: the action (or error) and the tree state
/// it leaves.
pub open spec fn node_eval(m: NodeModel, d: MarketData) -> (Result<Action, EvalErr>, NodeModel)
    decreases m, 0int,
{
    match m {
        NodeModel::Preprocess(p) => (Ok(Action::Hold), m),
        NodeModel::Action(a) => (Ok(a), m),
        NodeModel::If { condition, then_branch, else_branch } => {
            let (cres, c2) = cond_eval(condition, d);
            match cres {
                Err(e) => (
                    Err(e),
                    NodeModel::If { condition: c2, then_branch, else_branch },
                ),
                Ok(true) => {
                    let (r, t2) = node_eval(*then_branch, d);
                    (
                        r,
                        NodeModel::If {
                            condition: c2,
                            then_branch: Box::new(t2),
                            else_branch,
                        },
                    )
                },
                Ok(false) => match else_branch {
                    Some(e) => {
                        let (r, e2) = node_eval(*e, d);
                        (
                            r,
                            NodeModel::If {
                                condition: c2,
                                then_branch,
                                else_branch: Some(Box::new(e2)),
                            },
                        )
                    },
                    None => (
                        Ok(Action::Hold),
                        NodeModel::If { condition: c2, then_branch, else_branch },
                    ),
                },
            }
        },
        NodeModel::Timeout { cooldown, remaining, action } => {
            if remaining > 0 {
                (
                    Ok(Action::Hold),
                    NodeModel::Timeout { cooldown, remaining: remaining - 1, action },
                )
            } else {
                let (r, a2) = node_eval(*action, d);
                match r {
                    Err(e) => (
                        Err(e),
                        NodeModel::Timeout { cooldown, remaining, action: Box::new(a2) },
                    ),
                    Ok(act) => (
                        Ok(act),
                        NodeModel::Timeout {
                            cooldown,
                            remaining: if act != Action::Hold {
                                cooldown
                            } else {
                                remaining
                            },
                            action: Box::new(a2),
                        },
                    ),
                }
            }
        },
        NodeModel::Sequence { mode, nodes } => {
            let (r, nodes2) = seq_eval(nodes, d, mode, 0, Seq::empty());
            match r {
                Err(e) => (Err(e), NodeModel::Sequence { mode, nodes: nodes2 }),
                Ok(acc) => (
                    Ok(aggregate(mode, acc)),
                    NodeModel::Sequence { mode, nodes: nodes2 },
                ),
            }
        },
    }
}

/// Evaluates a sequence's children from `i` on, collecting the actions
/// other than `Hold`; `First` and `Any` stop at the first one collected;
/// children after a stop keep their state.
pub open spec fn seq_eval(
    s: Seq<NodeModel>,
    d: MarketData,
    mode: SequenceMode,
    i: int,
    acc: Seq<Action>,
) -> (Result<Seq<Action>, EvalErr>, Seq<NodeModel>)
    decreases s, s.len() - i,
{
    if i < 0 || i >= s.len() {
        (Ok(acc), s)
    } else {
        let (r, n2) = node_eval(s[i], d);
        match r {
            Err(e) => (Err(e), s.update(i, n2)),
            Ok(act) => {
                if act != Action::Hold && (mode == SequenceMode::First || mode
                    == SequenceMode::Any) {
                    (Ok(acc.push(act)), s.update(i, n2))
                } else {
                    let acc2 = if act != Action::Hold {
                        acc.push(act)
                    } else {
                        acc
                    };
                    let (r2, s2) = seq_eval(s, d, mode, i + 1, acc2);
                    (r2, s2.update(i, n2))
                }
            },
        }
    }
}

/// What one update pass guarantees over a tree, node by node: the
/// structure, actions, modes and cooldown counters are untouched and every
/// condition is updated under `upd_rel`.
pub open spec fn node_upd_rel(a: NodeModel, b: NodeModel, d: MarketData) -> bool
    decreases a, 0int,
{
    match (a, b) {
        (NodeModel::Preprocess(p1), NodeModel::Preprocess(p2)) => p1 == p2,
        (NodeModel::Action(a1), NodeModel::Action(a2)) => a1 == a2,
        (
            NodeModel::If { condition: c1, then_branch: t1, else_branch: e1 },
            NodeModel::If { condition: c2, then_branch: t2, else_branch: e2 },
        ) => upd_rel(c1, c2, d) && node_upd_rel(*t1, *t2, d) && match (e1, e2) {
            (None, None) => true,
            (Some(x), Some(y)) => node_upd_rel(*x, *y, d),
            _ => false,
        },
        (
            NodeModel::Timeout { cooldown: cd1, remaining: r1, action: a1 },
            NodeModel::Timeout { cooldown: cd2, remaining: r2, action: a2 },
        ) => cd1 == cd2 && r1 == r2 && node_upd_rel(*a1, *a2, d),
        (
            NodeModel::Sequence { mode: m1, nodes: n1 },
            NodeModel::Sequence { mode: m2, nodes: n2 },
        ) => m1 == m2 && n1.len() == n2.len() && node_upd_rel_list(n1, n2, d, 0),
        _ => false,
    }
}

/// `node_upd_rel`, pointwise over two lists from `i` on.
pub open spec fn node_upd_rel_list(
    s1: Seq<NodeModel>,
    s2: Seq<NodeModel>,
    d: MarketData,
    i: int,
) -> bool
    decreases s1, s1.len() - i,
{
    if i < 0 || i >= s1.len() || i >= s2.len() {
        true
    } else {
        node_upd_rel(s1[i], s2[i], d) && node_upd_rel_list(s1, s2, d, i + 1)
    }
}

/// What one reset pass guarantees over a tree, node by node: the structure,
/// actions and modes are untouched, cooldown counters return to zero and
/// every condition is reset under `reset_rel`.
pub open spec fn node_reset_rel(a: NodeModel, b: NodeModel) -> bool
    decreases a, 0int,
{
    match (a, b) {
        (NodeModel::Preprocess(p1), NodeModel::Preprocess(p2)) => p1 == p2,
        (NodeModel::Action(a1), NodeModel::Action(a2)) => a1 == a2,
        (
            NodeModel::If { condition: c1, then_branch: t1, else_branch: e1 },
            NodeModel::If { condition: c2, then_branch: t2, else_branch: e2 },
        ) => reset_rel(c1, c2) && node_reset_rel(*t1, *t2) && match (e1, e2) {
            (None, None) => true,
            (Some(x), Some(y)) => node_reset_rel(*x, *y),
            _ => false,
        },
        (
            NodeModel::Timeout { cooldown: cd1, remaining: r1, action: a1 },
            NodeModel::Timeout { cooldown: cd2, remaining: r2, action: a2 },
        ) => cd1 == cd2 && r2 == 0 && node_reset_rel(*a1, *a2),
        (
            NodeModel::Sequence { mode: m1, nodes: n1 },
            NodeModel::Sequence { mode: m2, nodes: n2 },
        ) => m1 == m2 && n1.len() == n2.len() && node_reset_rel_list(n1, n2, 0),
        _ => false,
    }
}

/// `node_reset_rel`, pointwise over two lists from `i` on.
pub open spec fn node_reset_rel_list(s1: Seq<NodeModel>, s2: Seq<NodeModel>, i: int) -> bool
    decreases s1, s1.len() - i,
{
    if i < 0 || i >= s1.len() || i >= s2.len() {
        true
    } else {
        node_reset_rel(s1[i], s2[i]) && node_reset_rel_list(s1, s2, i + 1)
    }
}

/// Pointwise well-formedness of a node list, stated over the nodes.
pub open spec fn node_wf_list_prefix(s: Seq<StrategyNode>, i: int) -> bool {
    forall|k: int| i <= k < s.len() ==> #[trigger] node_wf(node_view(s[k]))
}

/// A well-formed model list makes every node of the list well formed.
pub proof fn lemma_node_wf_list_elems(cs: Seq<StrategyNode>, i: int)
    requires
        0 <= i <= cs.len(),
        node_wf_list(node_views(cs, 0), i),
    ensures
        node_wf_list_prefix(cs, i),
    decreases cs.len() - i,
{
    lemma_node_views(cs, 0);
    if i < cs.len() {
        lemma_node_wf_list_elems(cs, i + 1);
    }
}

/// Pointwise well-formedness gives the list form.
pub proof fn lemma_node_wf_list_from_elems(cs: Seq<StrategyNode>, i: int)
    requires
        0 <= i <= cs.len(),
        node_wf_list_prefix(cs, i),
    ensures
        node_wf_list(node_views(cs, 0), i),
    decreases cs.len() - i,
{
    lemma_node_views(cs, 0);
    if i < cs.len() {
        lemma_node_wf_list_from_elems(cs, i + 1);
        assert(node_views(cs, 0)[i] == node_view(cs[0 + i]));
        assert(node_wf(node_view(cs[i])));
    }
}

/// The length of a sequence evaluation's resulting list.
pub proof fn lemma_seq_eval_len(
    s: Seq<NodeModel>,
    d: MarketData,
    mode: SequenceMode,
    i: int,
    acc: Seq<Action>,
)
    ensures
        seq_eval(s, d, mode, i, acc).1.len() == s.len(),
    decreases s.len() - i,
{
    if 0 <= i && i < s.len() {
        let (r, n2) = node_eval(s[i], d);
        match r {
            Err(_) => {},
            Ok(act) => {
                if !(act != Action::Hold && (mode == SequenceMode::First || mode
                    == SequenceMode::Any)) {
                    let acc2 = if act != Action::Hold {
                        acc.push(act)
                    } else {
                        acc
                    };
                    lemma_seq_eval_len(s, d, mode, i + 1, acc2);
                }
            },
        }
    }
}

/// Positions before `i` do not matter to a sequence evaluation from `i` on.
proof fn lemma_seq_eval_frame(
    s: Seq<NodeModel>,
    d: MarketData,
    mode: SequenceMode,
    i: int,
    acc: Seq<Action>,
    j: int,
    x: NodeModel,
)
    requires
        0 <= j < i,
        j < s.len(),
    ensures
        seq_eval(s.update(j, x), d, mode, i, acc).0 == seq_eval(s, d, mode, i, acc).0,
        seq_eval(s.update(j, x), d, mode, i, acc).1 == seq_eval(s, d, mode, i, acc).1.update(j, x),
    decreases s.len() - i,
{
    let su = s.update(j, x);
    if i < 0 || i >= s.len() {
    } else {
        assert(su[i] == s[i]);
        let (r, n2) = node_eval(s[i], d);
        match r {
            Err(e) => {
                assert(su.update(i, n2) =~= s.update(i, n2).update(j, x));
            },
            Ok(act) => {
                if act != Action::Hold && (mode == SequenceMode::First || mode
                    == SequenceMode::Any) {
                    assert(su.update(i, n2) =~= s.update(i, n2).update(j, x));
                } else {
                    let acc2 = if act != Action::Hold {
                        acc.push(act)
                    } else {
                        acc
                    };
                    lemma_seq_eval_frame(s, d, mode, i + 1, acc2, j, x);
                    lemma_seq_eval_len(s, d, mode, i + 1, acc2);
                    let (r2, s2) = seq_eval(s, d, mode, i + 1, acc2);
                    assert(s2.update(j, x).update(i, n2) =~= s2.update(i, n2).update(j, x));
                }
            },
        }
    }
}

impl StrategyNode {
    /// Every condition in the tree is well formed.
    pub open spec fn wf(&self) -> bool {
        node_wf(node_view(*self))
    }

    /// Validates the tree: every `If` carries a valid condition and an
    /// `else` branch, and every `Sequence` has at least one child.
    pub fn validate(&self) -> (r: TaResult<()>)
        requires
            self.wf(),
        ensures
            r is Ok <==> node_valid(node_view(*self)) is Ok,
            r matches Err(e) ==> match node_valid(node_view(*self)) {
                Err(NodeValidErr::MissingElse) => e == TaError::Strategy(
                    StrategyError::MissingElseBranch,
                ),
                Err(NodeValidErr::EmptySeq) => e == TaError::Strategy(
                    StrategyError::EmptySequence,
                ),
                Err(NodeValidErr::Cond(ValidErr::Period)) => e matches TaError::Strategy(
                    StrategyError::InvalidIndicatorPeriod { .. },
                ),
                Err(NodeValidErr::Cond(ValidErr::Shapes)) => e matches TaError::Strategy(
                    StrategyError::IncompatibleShapes { .. },
                ),
                Err(NodeValidErr::Cond(ValidErr::Out(oe))) => e == TaError::Cmp(oe),
                Ok(_) => false,
            },
        decreases node_depth(*self),
    {
        match self {
            StrategyNode::Preprocess(_) => Ok(()),
            StrategyNode::Action(_) => Ok(()),
            StrategyNode::If { condition, then_branch, else_branch } => {
                match condition.validate() {
                    Err(e) => {
                        return Err(e);
                    },
                    Ok(_) => {},
                }
                match then_branch.validate() {
                    Err(e) => {
                        return Err(e);
                    },
                    Ok(_) => {},
                }
                match else_branch {
                    Some(else_node) => else_node.validate(),
                    None => Err(TaError::Strategy(StrategyError::MissingElseBranch)),
                }
            },
            StrategyNode::Timeout { action, .. } => action.validate(),
            StrategyNode::Sequence { nodes, .. } => {
                proof {
                    lemma_node_views(nodes@, 0);
                }
                if nodes.len() == 0 {
                    return Err(TaError::Strategy(StrategyError::EmptySequence));
                }
                proof {
                    lemma_node_wf_list_elems(nodes@, 0);
                }
                Self::validate_list(nodes, 0)
            },
        }
    }

    /// Validates the nodes of a list, from `i` on.
    fn validate_list(ns: &Vec<StrategyNode>, i: usize) -> (r: TaResult<()>)
        requires
            node_wf_list_prefix(ns@, i as int),
        ensures
            r is Ok <==> node_valid_list(node_views(ns@, 0), i as int) is Ok,
            r matches Err(e) ==> match node_valid_list(node_views(ns@, 0), i as int) {
                Err(NodeValidErr::MissingElse) => e == TaError::Strategy(
                    StrategyError::MissingElseBranch,
                ),
                Err(NodeValidErr::EmptySeq) => e == TaError::Strategy(
                    StrategyError::EmptySequence,
                ),
                Err(NodeValidErr::Cond(ValidErr::Period)) => e matches TaError::Strategy(
                    StrategyError::InvalidIndicatorPeriod { .. },
                ),
                Err(NodeValidErr::Cond(ValidErr::Shapes)) => e matches TaError::Strategy(
                    StrategyError::IncompatibleShapes { .. },
                ),
                Err(NodeValidErr::Cond(ValidErr::Out(oe))) => e == TaError::Cmp(oe),
                Ok(_) => false,
            },
        decreases node_depth_list(ns@, i as int),
    {
        proof {
            lemma_node_views(ns@, 0);
            if (i as int) < ns@.len() {
                lemma_node_depth_elem(ns@, i as int, i as int);
            }
        }
        if i >= ns.len() {
            Ok(())
        } else {
            match ns[i].validate() {
                Err(e) => Err(e),
                Ok(_) => Self::validate_list(ns, i + 1),
            }
        }
    }

    /// The largest indicator period reachable in the tree, or `None`
    /// without any indicator.
    pub fn max_period(&self) -> (r: Option<usize>)
        requires
            self.wf(),
        ensures
            match r {
                Some(p) => node_max_period(node_view(*self)) == Some(p as int),
                None => node_max_period(node_view(*self)) is None,
            },
        decreases node_depth(*self),
    {
        match self {
            StrategyNode::Preprocess(_) => None,
            StrategyNode::Action(_) => None,
            StrategyNode::If { condition, then_branch, else_branch } => {
                let c = condition.max_period();
                let t = then_branch.max_period();
                let e: Option<usize> = match else_branch {
                    Some(n) => n.max_period(),
                    None => None,
                };
                Self::opt_max_exec(Self::opt_max_exec(c, t), e)
            },
            StrategyNode::Timeout { action, .. } => action.max_period(),
            StrategyNode::Sequence { nodes, .. } => {
                proof {
                    lemma_node_wf_list_elems(nodes@, 0);
                }
                Self::max_period_list(nodes, 0)
            },
        }
    }

    /// The larger of two optional periods.
    fn opt_max_exec(a: Option<usize>, b: Option<usize>) -> (r: Option<usize>)
        ensures
            ({
                let am: Option<int> = match a {
                    Some(p) => Some(p as int),
                    None => None,
                };
                let bm: Option<int> = match b {
                    Some(p) => Some(p as int),
                    None => None,
                };
                match r {
                    Some(p) => opt_max(am, bm) == Some(p as int),
                    None => opt_max(am, bm) is None,
                }
            }),
    {
        match (a, b) {
            (None, x) => x,
            (x, None) => x,
            (Some(p), Some(q)) => if p >= q {
                Some(p)
            } else {
                Some(q)
            },
        }
    }

    /// The largest period among a list of nodes, from `i` on.
    fn max_period_list(ns: &Vec<StrategyNode>, i: usize) -> (r: Option<usize>)
        requires
            node_wf_list_prefix(ns@, i as int),
        ensures
            match r {
                Some(p) => node_max_period_list(node_views(ns@, 0), i as int) == Some(p as int),
                None => node_max_period_list(node_views(ns@, 0), i as int) is None,
            },
        decreases node_depth_list(ns@, i as int),
    {
        proof {
            lemma_node_views(ns@, 0);
            if (i as int) < ns@.len() {
                lemma_node_depth_elem(ns@, i as int, i as int);
            }
        }
        if i >= ns.len() {
            None
        } else {
            let head = ns[i].max_period();
            let rest = Self::max_period_list(ns, i + 1);
            Self::opt_max_exec(head, rest)
        }
    }

    /// Advances every indicator in the tree exactly once over the bar.
    pub fn update(&mut self, data: &MarketData) -> (r: TaResult<()>)
        requires
            old(self).wf(),
        ensures
            final(self).wf(),
            r is Ok,
            node_depth(*final(self)) == node_depth(*old(self)),
            node_upd_rel(node_view(*old(self)), node_view(*final(self)), *data),
        decreases node_depth(*old(self)),
    {
        match self {
            StrategyNode::Preprocess(_) => Ok(()),
            StrategyNode::Action(_) => Ok(()),
            StrategyNode::If { condition, then_branch, else_branch } => {
                let _ = condition.update(data);
                let _ = then_branch.update(data);
                match else_branch {
                    Some(else_node) => {
                        let _ = else_node.update(data);
                    },
                    None => {},
                }
                Ok(())
            },
            StrategyNode::Timeout { action, .. } => action.update(data),
            StrategyNode::Sequence { nodes, .. } => {
                let ghost ns0 = nodes@;
                proof {
                    lemma_node_wf_list_elems(nodes@, 0);
                }
                Self::update_list(nodes, data, 0);
                proof {
                    lemma_node_wf_list_from_elems(nodes@, 0);
                    lemma_node_upd_rel_list_from_elems(ns0, nodes@, *data, 0);
                    lemma_node_depth_list_eq(ns0, nodes@, 0);
                    lemma_node_views(ns0, 0);
                    lemma_node_views(nodes@, 0);
                }
                Ok(())
            },
        }
    }

    /// Updates the nodes of a list, from `i` on.
    fn update_list(ns: &mut Vec<StrategyNode>, data: &MarketData, i: usize)
        requires
            node_wf_list_prefix(old(ns)@, i as int),
        ensures
            final(ns)@.len() == old(ns)@.len(),
            forall|k: int| 0 <= k < i ==> final(ns)@[k] == old(ns)@[k],
            forall|k: int|
                i <= k < old(ns)@.len() ==> node_depth(#[trigger] final(ns)@[k]) == node_depth(
                    old(ns)@[k],
                ) && node_wf(node_view(final(ns)@[k])) && node_upd_rel(
                    node_view(old(ns)@[k]),
                    node_view(final(ns)@[k]),
                    *data,
                ),
        decreases node_depth_list(ns@, i as int),
    {
        proof {
            if (i as int) < ns@.len() {
                lemma_node_depth_elem(ns@, i as int, i as int);
            }
        }
        if i >= ns.len() {
            return ;
        }
        let n: &mut StrategyNode = &mut ns[i];
        let _ = n.update(data);
        proof {
            lemma_node_depth_frame(old(ns)@, i as int + 1, i as int, ns@[i as int]);
        }
        Self::update_list(ns, data, i + 1);
    }

    /// Evaluates the tree over the cached outputs and returns the action.
    pub fn evaluate(&mut self, data: &MarketData) -> (r: TaResult<Action>)
        requires
            old(self).wf(),
        ensures
            final(self).wf(),
            node_depth(*final(self)) == node_depth(*old(self)),
            node_view(*final(self)) == node_eval(node_view(*old(self)), *data).1,
            match node_eval(node_view(*old(self)), *data).0 {
                Ok(a) => r == Ok::<Action, TaError>(a),
                Err(EvalErr::Cmp(e)) => r == Err::<Action, TaError>(TaError::Cmp(e)),
                Err(EvalErr::NotReady) => r is Err && r->Err_0 is NotInitialized,
            },
        decreases node_depth(*old(self)),
    {
        match self {
            StrategyNode::Preprocess(step) => {
                let _ = step.apply(data);
                Ok(Action::Hold)
            },
            StrategyNode::Action(a) => Ok(*a),
            StrategyNode::If { condition, then_branch, else_branch } => {
                let c = match condition.evaluate(data) {
                    Ok(b) => b,
                    Err(e) => {
                        return Err(e);
                    },
                };
                if c {
                    then_branch.evaluate(data)
                } else {
                    match else_branch {
                        Some(else_node) => else_node.evaluate(data),
                        None => Ok(Action::Hold),
                    }
                }
            },
            StrategyNode::Timeout { cooldown, remaining, action } => {
                if *remaining > 0 {
                    *remaining = *remaining - 1;
                    Ok(Action::Hold)
                } else {
                    let result = match action.evaluate(data) {
                        Ok(a) => a,
                        Err(e) => {
                            return Err(e);
                        },
                    };
                    if result != Action::Hold {
                        *remaining = *cooldown;
                    }
                    Ok(result)
                }
            },
            StrategyNode::Sequence { mode, nodes } => {
                proof {
                    lemma_node_wf_list_elems(nodes@, 0);
                }
                let ghost ns0 = nodes@;
                let mode_c = *mode;
                let mut acc: Vec<Action> = Vec::new();
                let r = Self::eval_seq_list(nodes, data, mode_c, 0, &mut acc);
                proof {
                    lemma_node_wf_list_from_elems(nodes@, 0);
                    lemma_node_depth_list_eq(ns0, nodes@, 0);
                }
                match r {
                    Err(e) => Err(e),
                    Ok(_) => Ok(Self::aggregate_exec(mode_c, &acc)),
                }
            },
        }
    }

    /// Evaluates a sequence's children from `i` on, pushing the collected
    /// actions onto `acc`.
    fn eval_seq_list(
        ns: &mut Vec<StrategyNode>,
        data: &MarketData,
        mode: SequenceMode,
        i: usize,
        acc: &mut Vec<Action>,
    ) -> (r: TaResult<()>)
        requires
            node_wf_list_prefix(old(ns)@, i as int),
        ensures
            final(ns)@.len() == old(ns)@.len(),
            forall|k: int| 0 <= k < i ==> final(ns)@[k] == old(ns)@[k],
            forall|k: int|
                i <= k < old(ns)@.len() ==> node_depth(#[trigger] final(ns)@[k]) == node_depth(
                    old(ns)@[k],
                ) && node_wf(node_view(final(ns)@[k])),
            node_views(final(ns)@, 0) == seq_eval(
                node_views(old(ns)@, 0),
                *data,
                mode,
                i as int,
                old(acc)@,
            ).1,
            match seq_eval(node_views(old(ns)@, 0), *data, mode, i as int, old(acc)@).0 {
                Ok(a2) => r is Ok && final(acc)@ == a2,
                Err(EvalErr::Cmp(e)) => r == Err::<(), TaError>(TaError::Cmp(e)),
                Err(EvalErr::NotReady) => r is Err && r->Err_0 is NotInitialized,
            },
        decreases node_depth_list(ns@, i as int),
    {
        proof {
            lemma_node_views(ns@, 0);
            if (i as int) < ns@.len() {
                lemma_node_depth_elem(ns@, i as int, i as int);
            }
        }
        if i >= ns.len() {
            return Ok(());
        }
        let ghost views0 = node_views(ns@, 0);
        let ghost acc0 = acc@;
        let n: &mut StrategyNode = &mut ns[i];
        let res = n.evaluate(data);
        proof {
            lemma_node_depth_frame(old(ns)@, i as int + 1, i as int, ns@[i as int]);
            lemma_node_views(ns@, 0);
            assert(node_views(ns@, 0) =~= views0.update(
                i as int,
                node_eval(views0[i as int], *data).1,
            ));
        }
        let act = match res {
            Ok(a) => a,
            Err(e) => {
                return Err(e);
            },
        };
        let stop: bool = act != Action::Hold && (mode == SequenceMode::First || mode
            == SequenceMode::Any);
        if act != Action::Hold {
            acc.push(act);
        }
        if stop {
            return Ok(());
        }
        let r2 = Self::eval_seq_list(ns, data, mode, i + 1, acc);
        proof {
            let acc1 = if act != Action::Hold {
                acc0.push(act)
            } else {
                acc0
            };
            lemma_seq_eval_frame(
                views0,
                *data,
                mode,
                i as int + 1,
                acc1,
                i as int,
                node_eval(views0[i as int], *data).1,
            );
        }
        r2
    }

    /// Aggregates the collected actions under the mode.
    fn aggregate_exec(mode: SequenceMode, acc: &Vec<Action>) -> (r: Action)
        ensures
            r == aggregate(mode, acc@),
    {
        match mode {
            SequenceMode::First => if acc.len() > 0 {
                acc[0]
            } else {
                Action::Hold
            },
            SequenceMode::Any => if acc.len() > 0 {
                acc[0]
            } else {
                Action::Hold
            },
            SequenceMode::All => {
                if acc.len() == 0 {
                    return Action::Hold;
                }
                let first = acc[0];
                let mut i: usize = 1;
                let mut same: bool = true;
                while i < acc.len()
                    invariant
                        1 <= i <= acc@.len(),
                        acc@.len() > 0,
                        first == acc@[0],
                        same == forall|k: int| 0 <= k < i ==> #[trigger] acc@[k] == acc@[0],
                    decreases acc@.len() - i,
                {
                    if acc[i] != first {
                        same = false;
                    }
                    i = i + 1;
                }
                if same {
                    first
                } else {
                    Action::Hold
                }
            },
            SequenceMode::Majority => {
                let sb = Self::count_exec(acc, Action::StrongBuy);
                let b = Self::count_exec(acc, Action::Buy);
                let sl = Self::count_exec(acc, Action::Sell);
                let ss = Self::count_exec(acc, Action::StrongSell);
                if sb > b && sb > sl && sb > ss {
                    Action::StrongBuy
                } else if b > sb && b > sl && b > ss {
                    Action::Buy
                } else if sl > sb && sl > b && sl > ss {
                    Action::Sell
                } else if ss > sb && ss > b && ss > sl {
                    Action::StrongSell
                } else {
                    Action::Hold
                }
            },
            SequenceMode::Percentage(p) => {
                let total = acc.len();
                if total == 0 {
                    return Action::Hold;
                }
                let t128 = total as u128;
                let p128 = p as u128;
                if (Self::count_exec(acc, Action::StrongBuy) as u128) * 100 / t128 >= p128 {
                    Action::StrongBuy
                } else if (Self::count_exec(acc, Action::Buy) as u128) * 100 / t128 >= p128 {
                    Action::Buy
                } else if (Self::count_exec(acc, Action::Sell) as u128) * 100 / t128 >= p128 {
                    Action::Sell
                } else if (Self::count_exec(acc, Action::StrongSell) as u128) * 100 / t128
                    >= p128 {
                    Action::StrongSell
                } else {
                    Action::Hold
                }
            },
        }
    }

    /// Counts the occurrences of `a` in the collected actions.
    fn count_exec(acc: &Vec<Action>, a: Action) -> (r: usize)
        ensures
            r == count_action(acc@, a),
            r <= acc@.len(),
    {
        let mut i: usize = 0;
        let mut n: usize = 0;
        while i < acc.len()
            invariant
                i <= acc@.len(),
                n == count_action(acc@.subrange(0, i as int), a),
                n <= i,
            decreases acc@.len() - i,
        {
            proof {
                assert(acc@.subrange(0, i + 1).drop_last() =~= acc@.subrange(0, i as int));
                assert(acc@.subrange(0, i + 1).last() == acc@[i as int]);
            }
            if acc[i] == a {
                n = n + 1;
            }
            i = i + 1;
        }
        proof {
            assert(acc@.subrange(0, acc@.len() as int) =~= acc@);
        }
        n
    }

    /// Returns every condition, indicator and cooldown in the tree to its
    /// freshly constructed state.
    pub fn reset(&mut self)
        requires
            old(self).wf(),
        ensures
            final(self).wf(),
            node_depth(*final(self)) == node_depth(*old(self)),
            node_reset_rel(node_view(*old(self)), node_view(*final(self))),
        decreases node_depth(*old(self)),
    {
        match self {
            StrategyNode::Preprocess(step) => {
                step.reset();
            },
            StrategyNode::Action(_) => {},
            StrategyNode::If { condition, then_branch, else_branch } => {
                then_branch.reset();
                match else_branch {
                    Some(else_node) => {
                        else_node.reset();
                    },
                    None => {},
                }
                condition.reset();
            },
            StrategyNode::Timeout { remaining, action, .. } => {
                action.reset();
                *remaining = 0;
            },
            StrategyNode::Sequence { nodes, .. } => {
                let ghost ns0 = nodes@;
                proof {
                    lemma_node_wf_list_elems(nodes@, 0);
                }
                Self::reset_list(nodes, 0);
                proof {
                    lemma_node_wf_list_from_elems(nodes@, 0);
                    lemma_node_reset_rel_list_from_elems(ns0, nodes@, 0);
                    lemma_node_depth_list_eq(ns0, nodes@, 0);
                    lemma_node_views(ns0, 0);
                    lemma_node_views(nodes@, 0);
                }
            },
        }
    }

    /// Resets the nodes of a list, from `i` on.
    fn reset_list(ns: &mut Vec<StrategyNode>, i: usize)
        requires
            node_wf_list_prefix(old(ns)@, i as int),
        ensures
            final(ns)@.len() == old(ns)@.len(),
            forall|k: int| 0 <= k < i ==> final(ns)@[k] == old(ns)@[k],
            forall|k: int|
                i <= k < old(ns)@.len() ==> node_depth(#[trigger] final(ns)@[k]) == node_depth(
                    old(ns)@[k],
                ) && node_wf(node_view(final(ns)@[k])) && node_reset_rel(
                    node_view(old(ns)@[k]),
                    node_view(final(ns)@[k]),
                ),
        decreases node_depth_list(ns@, i as int),
    {
        proof {
            if (i as int) < ns@.len() {
                lemma_node_depth_elem(ns@, i as int, i as int);
            }
        }
        if i >= ns.len() {
            return ;
        }
        let n: &mut StrategyNode = &mut ns[i];
        n.reset();
        proof {
            lemma_node_depth_frame(old(ns)@, i as int + 1, i as int, ns@[i as int]);
        }
        Self::reset_list(ns, i + 1);
    }

    /// The largest indicator period, defaulting to zero where the tree
    /// holds no indicator.
    pub fn period(&self) -> (r: usize)
        requires
            self.wf(),
        ensures
            match node_max_period(node_view(*self)) {
                Some(p) => r == p,
                None => r == 0,
            },
    {
        match self.max_period() {
            Some(p) => p,
            None => 0,
        }
    }
}

/// Pointwise update relations give the list form.
pub proof fn lemma_node_upd_rel_list_from_elems(
    a: Seq<StrategyNode>,
    b: Seq<StrategyNode>,
    d: MarketData,
    i: int,
)
    requires
        0 <= i <= a.len(),
        a.len() == b.len(),
        forall|k: int|
            0 <= k < a.len() ==> node_upd_rel(node_view(a[k]), #[trigger] node_view(b[k]), d),
    ensures
        node_upd_rel_list(node_views(a, 0), node_views(b, 0), d, i),
    decreases a.len() - i,
{
    lemma_node_views(a, 0);
    lemma_node_views(b, 0);
    if i < a.len() {
        lemma_node_upd_rel_list_from_elems(a, b, d, i + 1);
    }
}

/// Pointwise reset relations give the list form.
pub proof fn lemma_node_reset_rel_list_from_elems(a: Seq<StrategyNode>, b: Seq<StrategyNode>, i: int)
    requires
        0 <= i <= a.len(),
        a.len() == b.len(),
        forall|k: int|
            0 <= k < a.len() ==> node_reset_rel(node_view(a[k]), #[trigger] node_view(b[k])),
    ensures
        node_reset_rel_list(node_views(a, 0), node_views(b, 0), i),
    decreases a.len() - i,
{
    lemma_node_views(a, 0);
    lemma_node_views(b, 0);
    if i < a.len() {
        lemma_node_reset_rel_list_from_elems(a, b, i + 1);
    }
}

/// An update pass does not change the tree's largest period.
pub proof fn lemma_node_max_period_upd(a: NodeModel, b: NodeModel, d: MarketData)
    requires
        node_upd_rel(a, b, d),
    ensures
        node_max_period(b) == node_max_period(a),
    decreases a, 0int,
{
    match (a, b) {
        (
            NodeModel::If { condition: c1, then_branch: t1, else_branch: e1 },
            NodeModel::If { condition: c2, then_branch: t2, else_branch: e2 },
        ) => {
            crate::strategy::condition::lemma_cond_max_period_upd(c1, c2, d);
            lemma_node_max_period_upd(*t1, *t2, d);
            match (e1, e2) {
                (Some(x), Some(y)) => {
                    lemma_node_max_period_upd(*x, *y, d);
                },
                _ => {},
            }
        },
        (NodeModel::Timeout { action: a1, .. }, NodeModel::Timeout { action: a2, .. }) => {
            lemma_node_max_period_upd(*a1, *a2, d);
        },
        (
            NodeModel::Sequence { nodes: n1, .. },
            NodeModel::Sequence { nodes: n2, .. },
        ) => {
            lemma_node_max_period_upd_list(n1, n2, d, 0);
        },
        _ => {},
    }
}

/// `lemma_node_max_period_upd`, over two lists from `i` on.
pub proof fn lemma_node_max_period_upd_list(
    s1: Seq<NodeModel>,
    s2: Seq<NodeModel>,
    d: MarketData,
    i: int,
)
    requires
        s1.len() == s2.len(),
        node_upd_rel_list(s1, s2, d, i),
    ensures
        node_max_period_list(s2, i) == node_max_period_list(s1, i),
    decreases s1, s1.len() - i,
{
    if 0 <= i && i < s1.len() {
        lemma_node_max_period_upd(s1[i], s2[i], d);
        lemma_node_max_period_upd_list(s1, s2, d, i + 1);
    }
}

/// An evaluation pass does not change the tree's largest period.
pub proof fn lemma_node_max_period_eval(m: NodeModel, d: MarketData)
    ensures
        node_max_period(node_eval(m, d).1) == node_max_period(m),
    decreases m, 0int,
{
    match m {
        NodeModel::If { condition, then_branch, else_branch } => {
            crate::strategy::condition::lemma_cond_max_period_eval(condition, d);
            lemma_node_max_period_eval(*then_branch, d);
            match else_branch {
                Some(e) => {
                    lemma_node_max_period_eval(*e, d);
                },
                None => {},
            }
        },
        NodeModel::Timeout { action, .. } => {
            lemma_node_max_period_eval(*action, d);
        },
        NodeModel::Sequence { mode, nodes } => {
            lemma_node_max_period_seq_eval(nodes, d, mode, 0, Seq::empty());
        },
        _ => {},
    }
}

/// Pointwise equal periods give equal list periods.
pub proof fn lemma_node_max_period_list_eq_all(a: Seq<NodeModel>, b: Seq<NodeModel>, i: int)
    requires
        a.len() == b.len(),
        forall|k: int|
            0 <= k < a.len() ==> node_max_period(#[trigger] b[k]) == node_max_period(a[k]),
    ensures
        node_max_period_list(b, i) == node_max_period_list(a, i),
    decreases a.len() - i,
{
    if 0 <= i && i < a.len() {
        lemma_node_max_period_list_eq_all(a, b, i + 1);
    }
}

/// The largest period of a list is unchanged by updating one element with
/// an equal-period one.
pub proof fn lemma_node_max_period_list_update(s: Seq<NodeModel>, i: int, k: int, c: NodeModel)
    requires
        0 <= k < s.len(),
        node_max_period(c) == node_max_period(s[k]),
    ensures
        node_max_period_list(s.update(k, c), i) == node_max_period_list(s, i),
    decreases s.len() - i,
{
    if 0 <= i && i < s.len() {
        lemma_node_max_period_list_update(s, i + 1, k, c);
        if i != k {
            assert(s.update(k, c)[i] == s[i]);
        }
    }
}

/// `lemma_node_max_period_eval` for a sequence's children.
pub proof fn lemma_node_max_period_seq_eval(
    s: Seq<NodeModel>,
    d: MarketData,
    mode: SequenceMode,
    i: int,
    acc: Seq<Action>,
)
    ensures
        node_max_period_list(seq_eval(s, d, mode, i, acc).1, i) == node_max_period_list(s, i),
        seq_eval(s, d, mode, i, acc).1.len() == s.len(),
        forall|k: int|
            0 <= k < s.len() ==> node_max_period(
                #[trigger] seq_eval(s, d, mode, i, acc).1[k],
            ) == node_max_period(s[k]),
    decreases s, s.len() - i,
{
    if 0 <= i && i < s.len() {
        let (r, n2) = node_eval(s[i], d);
        lemma_node_max_period_eval(s[i], d);
        match r {
            Err(_) => {
                lemma_node_max_period_list_update(s, i, i, n2);
                lemma_node_max_period_list_eq_all(s, s.update(i, n2), i);
            },
            Ok(act) => {
                if act != Action::Hold && (mode == SequenceMode::First || mode
                    == SequenceMode::Any) {
                    lemma_node_max_period_list_update(s, i, i, n2);
                    lemma_node_max_period_list_eq_all(s, s.update(i, n2), i);
                } else {
                    let acc2 = if act != Action::Hold {
                        acc.push(act)
                    } else {
                        acc
                    };
                    lemma_node_max_period_seq_eval(s, d, mode, i + 1, acc2);
                    let (r2, s2) = seq_eval(s, d, mode, i + 1, acc2);
                    lemma_node_max_period_list_update(s2, i, i, n2);
                    lemma_node_max_period_list_eq_all(s, s2.update(i, n2), i);
                }
            },
        }
    }
}

} // verus!
