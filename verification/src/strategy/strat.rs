//! The top-level strategy: a node tree behind a warm-up state machine.

use vstd::prelude::*;

use crate::error::{TaError, TaResult};
use crate::strategy::action::Action;
use crate::strategy::condition::EvalErr;
use crate::strategy::market_data::MarketData;
use crate::strategy::node::{
    node_eval, node_max_period, node_reset_rel, node_upd_rel, node_view, StrategyNode,
};

verus! {

/// The warm-up state: counting bars, or ready to decide.
#[derive(Debug, Clone, Copy, PartialEq, Eq, Structural)]
pub enum State {
    /// Still accumulating history; the payload counts the bars seen.
    Progress(usize),
    /// Fully warmed up; every later bar yields a decision.
    Ready,
}

/// A strategy: a node tree and its warm-up state. While warming up, each
/// bar only advances the indicators; once the tree's largest period is
/// covered, each bar yields an action.
#[derive(Debug)]
pub struct Strategy {
    pub nodes: StrategyNode,
    pub state: State,
}

/// The tree's warm-up bound: its largest indicator period, or zero with no
/// indicator.
pub open spec fn strategy_period(s: Strategy) -> int {
    match node_max_period(node_view(s.nodes)) {
        Some(p) => p,
        None => 0,
    }
}

impl Strategy {
    /// The tree is well formed and the warm-up counter in range.
    pub open spec fn wf(&self) -> bool {
        self.nodes.wf()
    }

    /// A fresh strategy at the start of its warm-up.
    pub fn new(nodes: StrategyNode) -> (r: Strategy)
        ensures
            r.nodes == nodes,
            r.state == State::Progress(0usize),
    {
        Strategy { nodes, state: State::Progress(0) }
    }

    /// Feeds one bar. For the first `p` bars, where `p` is the tree's
    /// largest period, the indicators advance and no decision is made; from
    /// bar `p + 1` on, every bar yields an action. The boundary is exact.
    pub fn evaluate(&mut self, data: &MarketData) -> (r: TaResult<Option<Action>>)
        requires
            old(self).wf(),
            strategy_period(*old(self)) < usize::MAX,
        ensures
            final(self).wf(),
            final(self).nodes.wf(),
            strategy_period(*final(self)) == strategy_period(*old(self)),
            ({
                let warming = match old(self).state {
                    State::Progress(n) => (n as int) < strategy_period(*old(self)),
                    State::Ready => false,
                };
                if warming {
                    &&& final(self).state == match old(self).state {
                        State::Progress(n) => State::Progress((n + 1) as usize),
                        State::Ready => State::Ready,
                    }
                    &&& r == Ok::<Option<Action>, TaError>(None)
                    &&& node_upd_rel(
                        node_view(old(self).nodes),
                        node_view(final(self).nodes),
                        *data,
                    )
                } else {
                    &&& final(self).state == State::Ready
                    &&& node_view(final(self).nodes) == node_eval(
                        node_view(old(self).nodes),
                        *data,
                    ).1
                    &&& match node_eval(node_view(old(self).nodes), *data).0 {
                        Ok(a) => r == Ok::<Option<Action>, TaError>(Some(a)),
                        Err(EvalErr::Cmp(e)) => r == Err::<Option<Action>, TaError>(
                            TaError::Cmp(e),
                        ),
                        Err(EvalErr::NotReady) => r is Err && r->Err_0 is NotInitialized,
                    }
                }
            }),
    {
        proof {
            let w = node_view(old(self).nodes);
            crate::strategy::node::lemma_node_max_period_eval(w, *data);
        }
        self.next();
        match self.state {
            State::Progress(_) => {
                let r = self.nodes.update(data);
                proof {
                    crate::strategy::node::lemma_node_max_period_upd(
                        node_view(old(self).nodes),
                        node_view(self.nodes),
                        *data,
                    );
                }
                match r {
                    Ok(_) => Ok(None),
                    Err(e) => Err(e),
                }
            },
            State::Ready => {
                match self.nodes.evaluate(data) {
                    Ok(a) => Ok(Some(a)),
                    Err(e) => Err(e),
                }
            },
        }
    }

    /// Advances the warm-up counter: while it is below the tree's largest
    /// period it counts the bar, otherwise the strategy becomes ready.
    fn next(&mut self)
        requires
            old(self).wf(),
            strategy_period(*old(self)) < usize::MAX,
        ensures
            final(self).nodes == old(self).nodes,
            final(self).wf(),
            match old(self).state {
                State::Progress(n) => if (n as int) < strategy_period(*old(self)) {
                    final(self).state == State::Progress((n + 1) as usize)
                } else {
                    final(self).state == State::Ready
                },
                State::Ready => final(self).state == State::Ready,
            },
    {
        if let State::Progress(index) = self.state {
            if index < self.nodes.period() {
                self.state = State::Progress(index + 1);
            } else {
                self.state = State::Ready;
            }
        }
    }

    /// The tree's warm-up bound.
    pub fn period(&self) -> (r: usize)
        requires
            self.wf(),
        ensures
            r == strategy_period(*self),
    {
        self.nodes.period()
    }

    /// Returns the strategy to the start of its warm-up with every
    /// indicator, cache and cooldown freshly constructed: fed the same bars
    /// again, it behaves exactly like a newly built strategy of the same
    /// tree.
    pub fn reset(&mut self)
        requires
            old(self).wf(),
        ensures
            final(self).wf(),
            final(self).state == State::Progress(0usize),
            node_reset_rel(node_view(old(self).nodes), node_view(final(self).nodes)),
    {
        self.state = State::Progress(0);
        self.nodes.reset();
    }
}

/// The warm-up law: starting from a fresh strategy over a tree of largest
/// period `p`, the bars numbered `1` to `p` yield no decision and bar
/// `p + 1` yields one, whatever the tree decides.
pub proof fn lemma_warmup_gate(s: Strategy, d: MarketData, n: usize)
    requires
        s.state == State::Progress(n),
        strategy_period(s) < usize::MAX,
    ensures
        (n as int) < strategy_period(s) ==> !decides(s),
        (n as int) >= strategy_period(s) ==> decides(s),
{
}

/// The strategy decides on the next bar: its warm-up counter has covered
/// the tree's largest period.
pub open spec fn decides(s: Strategy) -> bool {
    match s.state {
        State::Progress(n) => (n as int) >= strategy_period(s),
        State::Ready => true,
    }
}

} // verus!
