use vstd::prelude::*;
use crate::tree::{Node, Tree, well_linked, path_from_root, lemma_path_shape};

verus! {

/// Why a planning call produced no path.
#[derive(Clone, Copy, Debug, PartialEq, Eq, Structural)]
pub enum PlanError {
    /// The request is malformed; no search is attempted.
    InvalidConfiguration,
    /// The whole iteration budget was spent without reaching the goal.
    PlanningExhausted,
}

/// Where the search stands.
#[derive(Clone, Copy, Debug, PartialEq, Eq, Structural)]
pub enum Status {
    Searching,
    /// The goal is reachable from the node with this index.
    Reached(usize),
    Exhausted,
}

/// What the caller found in one iteration: the node nearest to the sampled
/// pose, the sampled pose, whether a feasible collision-free curve joins them,
/// and whether one joins the sampled pose to the goal.
pub struct Trial<P> {
    pub parent: usize,
    pub pose: P,
    pub edge_clear: bool,
    pub goal_clear: bool,
}

/// Abstract state of a search: the tree, the iterations spent, the budget and
/// the status.
pub struct PlanModel<P> {
    pub nodes: Seq<Node<P>>,
    pub iter: nat,
    pub budget: nat,
    pub status: Status,
}

pub open spec fn model_wf<P>(m: PlanModel<P>) -> bool {
    &&& well_linked(m.nodes)
    &&& 0 < m.budget <= usize::MAX
    &&& m.iter <= m.budget
    &&& m.nodes.len() <= m.iter + 1
    &&& (m.status == Status::Searching ==> m.iter < m.budget)
    &&& (m.status == Status::Exhausted ==> m.iter == m.budget)
    &&& (m.status matches Status::Reached(k) ==> k < m.nodes.len())
}

pub open spec fn initial_model<P>(start: P, budget: nat) -> PlanModel<P> {
    PlanModel {
        nodes: seq![Node { pose: start, parent: None }],
        iter: 0,
        budget,
        status: Status::Searching,
    }
}

/// One iteration: a clear edge from an existing node adds the sampled pose as
/// a leaf below it; a clear goal connection from that leaf ends the search;
/// spending the last iteration otherwise exhausts it. A finished search stays
/// as it is.
pub open spec fn step_model<P>(m: PlanModel<P>, t: Trial<P>) -> PlanModel<P> {
    if m.status != Status::Searching {
        m
    } else {
        let grow = t.edge_clear && (t.parent as int) < m.nodes.len();
        let iter = m.iter + 1;
        PlanModel {
            nodes: if grow {
                m.nodes.push(Node { pose: t.pose, parent: Some(t.parent) })
            } else {
                m.nodes
            },
            iter,
            budget: m.budget,
            status: if grow && t.goal_clear {
                Status::Reached(m.nodes.len() as usize)
            } else if iter >= m.budget {
                Status::Exhausted
            } else {
                Status::Searching
            },
        }
    }
}

/// The state after a sequence of iterations.
pub open spec fn replay<P>(m: PlanModel<P>, evs: Seq<Trial<P>>) -> PlanModel<P>
    decreases evs.len(),
{
    if evs.len() == 0 {
        m
    } else {
        replay(step_model(m, evs[0]), evs.drop_first())
    }
}

pub proof fn lemma_step_wf<P>(m: PlanModel<P>, t: Trial<P>)
    requires
        model_wf(m),
    ensures
        model_wf(step_model(m, t)),
{
    let n = step_model(m, t);
    if m.status == Status::Searching && t.edge_clear && (t.parent as int) < m.nodes.len() {
        assert(forall|i: int| 0 <= i < m.nodes.len() ==> n.nodes[i] == m.nodes[i]);
        assert(n.nodes[m.nodes.len() as int].parent == Some(t.parent));
    }
}

/// A search never spends more than its budget, and once its remaining budget
/// of iterations has been played it has finished, reaching the goal or
/// exhausting the budget.
pub proof fn lemma_search_terminates<P>(m: PlanModel<P>, evs: Seq<Trial<P>>)
    requires
        model_wf(m),
    ensures
        model_wf(replay(m, evs)),
        replay(m, evs).iter <= m.budget,
        replay(m, evs).budget == m.budget,
        evs.len() >= m.budget - m.iter ==> replay(m, evs).status != Status::Searching,
        m.status != Status::Searching ==> replay(m, evs) == m,
    decreases evs.len(),
{
    if evs.len() > 0 {
        lemma_step_wf(m, evs[0]);
        lemma_search_terminates(step_model(m, evs[0]), evs.drop_first());
    }
}

/// The tree only grows: every node present before a sequence of iterations is
/// still there afterwards, at the same index and unchanged.
pub proof fn lemma_tree_append_only<P>(m: PlanModel<P>, evs: Seq<Trial<P>>)
    ensures
        m.nodes.len() <= replay(m, evs).nodes.len(),
        replay(m, evs).nodes.subrange(0, m.nodes.len() as int) == m.nodes,
    decreases evs.len(),
{
    if evs.len() > 0 {
        let n = step_model(m, evs[0]);
        lemma_tree_append_only(n, evs.drop_first());
        assert(n.nodes.subrange(0, m.nodes.len() as int) =~= m.nodes);
        assert(replay(m, evs).nodes.subrange(0, m.nodes.len() as int) =~= n.nodes.subrange(
            0,
            n.nodes.len() as int,
        ).subrange(0, m.nodes.len() as int));
    }
}

/// Two searches from the same state fed the same iteration results grow the
/// same tree and end in the same state.
pub proof fn lemma_search_deterministic<P>(
    m1: PlanModel<P>,
    m2: PlanModel<P>,
    e1: Seq<Trial<P>>,
    e2: Seq<Trial<P>>,
)
    requires
        m1 == m2,
        e1 == e2,
    ensures
        forall|k: int|
            0 <= k <= e1.len() ==> #[trigger] replay(m1, e1.take(k)) == replay(m2, e2.take(k)),
{
}

/// A search with a fixed start pose and iteration budget, advanced one
/// iteration at a time by the caller.
pub struct Planner<P> {
    tree: Tree<P>,
    iter: usize,
    budget: usize,
    status: Status,
}

impl<P> View for Planner<P> {
    type V = PlanModel<P>;

    closed spec fn view(&self) -> PlanModel<P> {
        PlanModel {
            nodes: self.tree@,
            iter: self.iter as nat,
            budget: self.budget as nat,
            status: self.status,
        }
    }
}

impl<P> Planner<P> {
    pub closed spec fn wf(&self) -> bool {
        &&& model_wf(self@)
        &&& self.tree.wf()
    }

    /// A search rooted at `start` that may spend `max_iter` iterations; a zero
    /// budget is rejected.
    pub fn new(start: P, max_iter: usize) -> (r: Result<Planner<P>, PlanError>)
        ensures
            match r {
                Ok(p) => max_iter > 0 && p.wf() && p@ == initial_model(start, max_iter as nat),
                Err(e) => max_iter == 0 && e == PlanError::InvalidConfiguration,
            },
    {
        if max_iter == 0 {
            return Err(PlanError::InvalidConfiguration);
        }
        let tree = Tree::new(start);
        Ok(Planner { tree, iter: 0, budget: max_iter, status: Status::Searching })
    }

    pub fn status(&self) -> (r: Status)
        ensures
            r == self@.status,
    {
        self.status
    }

    pub fn iterations(&self) -> (r: usize)
        ensures
            r == self@.iter,
    {
        self.iter
    }

    pub fn tree(&self) -> (r: &Tree<P>)
        requires
            self.wf(),
        ensures
            r.wf(),
            r@ == self@.nodes,
    {
        &self.tree
    }

    /// Plays one iteration. A trial whose parent is not a node of the tree
    /// counts as a blocked edge.
    pub fn step(&mut self, t: Trial<P>)
        requires
            old(self).wf(),
        ensures
            final(self).wf(),
            final(self)@ == step_model(old(self)@, t),
    {
        proof {
            lemma_step_wf(self@, t);
        }
        if self.status != Status::Searching {
            return;
        }
        let Trial { parent, pose, edge_clear, goal_clear } = t;
        self.iter = self.iter + 1;
        if edge_clear && parent < self.tree.len() {
            let k = self.tree.add(pose, parent);
            if goal_clear {
                self.status = Status::Reached(k);
                return;
            }
        }
        if self.iter >= self.budget {
            self.status = Status::Exhausted;
        }
    }

    /// The result of a finished search: the node indices from the root (the
    /// start pose) to the node from which the goal is reachable, or
    /// `PlanningExhausted`.
    pub fn outcome(&self) -> (r: Result<Vec<usize>, PlanError>)
        requires
            self.wf(),
            self@.status != Status::Searching,
        ensures
            match self@.status {
                Status::Reached(k) => r matches Ok(v) && v@ == path_from_root(self@.nodes, k as int)
                    && v@.len() > 0 && v@[0] == 0 && v@.last() == k,
                _ => r == Err::<Vec<usize>, PlanError>(PlanError::PlanningExhausted),
            },
    {
        match self.status {
            Status::Reached(k) => {
                // The tree's length fits a usize.
                let _len = self.tree.len();
                proof {
                    lemma_path_shape(self@.nodes, k as int);
                }
                Ok(self.tree.path_to(k))
            },
            _ => Err(PlanError::PlanningExhausted),
        }
    }
}

} // verus!
