//! The graph executor: which node runs next, when a run stops, and how it ends.
//!
//! The caller drives the loop: it asks [`GraphRun::next_node`] which node to run, runs it,
//! and hands the node's outcome to [`GraphRun::after_node`]; [`GraphExecutor::finish`]
//! settles the final state.

use vstd::prelude::*;
use crate::parse::same_text;
use crate::router::{node_from_name, node_of_name};
use crate::types::{AgentStatus, AgentType, GraphState};

verus! {

/// Settings of the graph executor.
#[derive(Clone, Copy, Debug, PartialEq, Eq, Structural)]
pub struct AgentConfig {
    /// The run may dispatch at most twice this many nodes.
    pub max_steps: usize,
}

/// What a node hands back: the updated state and the next node's name (`None` ends the run).
pub struct NodeResult {
    pub state: GraphState,
    pub next_node: Option<String>,
}

/// Runs the fixed agent graph under an iteration budget, with cooperative cancellation.
pub struct GraphExecutor {
    pub config: AgentConfig,
    pub aborted: bool,
}

/// The progress of one run through the graph.
pub struct GraphRun {
    pub current_node: String,
    pub iterations: usize,
    pub max_iterations: usize,
    /// A node ended the run, or the run stopped on an error status.
    pub ended: bool,
}

impl GraphRun {
    /// The iteration counter never passes the budget.
    pub open spec fn wf(&self) -> bool {
        self.iterations <= self.max_iterations
    }

    /// The node to run next: `Ok(None)` once the run has ended, was cancelled, or has used
    /// its budget; an error for a name that is no node. The counter is checked and counted
    /// before each dispatch.
    pub fn next_node(&mut self, aborted: bool) -> (r: Result<Option<AgentType>, String>)
        requires
            old(self).wf(),
        ensures
            final(self).wf(),
            final(self).max_iterations == old(self).max_iterations,
            final(self).ended == old(self).ended,
            final(self).current_node == old(self).current_node,
            (old(self).ended || aborted || old(self).iterations >= old(self).max_iterations) ==> (
            r matches Ok(None) && final(self).iterations == old(self).iterations),
            !(old(self).ended || aborted || old(self).iterations >= old(self).max_iterations) ==> {
                &&& final(self).iterations == old(self).iterations + 1
                &&& match node_of_name(old(self).current_node@) {
                    Some(a) => r == Ok::<Option<AgentType>, String>(Some(a)),
                    None => r matches Err(e) && e@ == "Unknown node: "@
                        + old(self).current_node@,
                }
            },
    {
        if self.ended || aborted || self.iterations >= self.max_iterations {
            return Ok(None);
        }
        self.iterations = self.iterations + 1;
        match node_from_name(self.current_node.as_str()) {
            Some(a) => Ok(Some(a)),
            None => Err(String::from_str("Unknown node: ").concat(self.current_node.as_str())),
        }
    }

    /// Takes in what a node returned: its next node, or the end of the run when it names
    /// none, names `end`, or leaves the state in error.
    pub fn after_node(&mut self, state: &GraphState, next_node: &Option<String>)
        ensures
            final(self).iterations == old(self).iterations,
            final(self).max_iterations == old(self).max_iterations,
            final(self).ended == (old(self).ended || state.status == AgentStatus::Error
                || match next_node {
                Some(n) => n@ == "end"@,
                None => true,
            }),
            match next_node {
                Some(n) => n@ != "end"@ ==> final(self).current_node@ == n@,
                None => final(self).current_node == old(self).current_node,
            },
    {
        match next_node {
            Some(n) => {
                if same_text(n.as_str(), "end") {
                    self.ended = true;
                } else {
                    self.current_node = String::from_str(n.as_str());
                }
            },
            None => {
                self.ended = true;
            },
        }
        if state.status == AgentStatus::Error {
            self.ended = true;
        }
    }
}

/// Each run in `runs` is the one before it after one more dispatch.
pub open spec fn dispatch_chain(runs: Seq<GraphRun>) -> bool {
    forall|k: int|
        0 <= k < runs.len() - 1 ==> (#[trigger] runs[k + 1]).iterations == runs[k].iterations + 1
            && runs[k + 1].max_iterations == runs[k].max_iterations
}

proof fn lemma_chain_counts(runs: Seq<GraphRun>, k: int)
    requires
        dispatch_chain(runs),
        0 <= k < runs.len(),
    ensures
        runs[k].iterations == runs[0].iterations + k,
        runs[k].max_iterations == runs[0].max_iterations,
    decreases k,
{
    if k > 0 {
        lemma_chain_counts(runs, k - 1);
        assert(runs[(k - 1) + 1].iterations == runs[k - 1].iterations + 1);
    }
}

/// However the nodes route, a fresh run dispatches at most its budget of nodes: along any
/// chain of dispatches from a run with a zero counter, in which every run keeps the counter
/// within the budget (as [`GraphRun::next_node`] guarantees), the number of dispatches is at
/// most `max_iterations`, which [`GraphExecutor::start`] sets to twice `max_steps`.
pub proof fn lemma_dispatch_budget(runs: Seq<GraphRun>)
    requires
        runs.len() > 0,
        runs[0].iterations == 0,
        dispatch_chain(runs),
        forall|k: int| 0 <= k < runs.len() ==> (#[trigger] runs[k]).wf(),
    ensures
        runs.len() - 1 <= runs[0].max_iterations,
{
    let last = runs.len() - 1;
    lemma_chain_counts(runs, last);
    assert(runs[last].wf());
}

impl GraphExecutor {
    /// An executor with the given settings, not cancelled.
    pub fn new(config: AgentConfig) -> (r: GraphExecutor)
        ensures
            r.config == config,
            !r.aborted,
    {
        GraphExecutor { config, aborted: false }
    }

    /// Asks the running graph to stop; it ends at the next iteration boundary with the
    /// aborted status.
    pub fn abort(&mut self)
        ensures
            final(self).aborted,
            final(self).config == old(self).config,
    {
        self.aborted = true;
    }

    /// A fresh run: it starts at the coordinator, with a budget of twice `max_steps`.
    pub fn start(&self) -> (r: GraphRun)
        requires
            self.config.max_steps <= usize::MAX / 2,
        ensures
            r.wf(),
            r.current_node@ == "coordinator"@,
            r.iterations == 0,
            r.max_iterations == 2 * self.config.max_steps,
            !r.ended,
    {
        GraphRun {
            current_node: String::from_str("coordinator"),
            iterations: 0,
            max_iterations: self.config.max_steps * 2,
            ended: false,
        }
    }

    /// The state a run ends with: a cancelled run is marked aborted; one that used its
    /// budget without ending is marked in error with a fixed message; any other is kept.
    pub fn finish(&self, run: &GraphRun, state: GraphState) -> (r: GraphState)
        ensures
            (!run.ended && self.aborted) ==> r.status == AgentStatus::Aborted && r.error
                == state.error,
            (!run.ended && !self.aborted && run.iterations >= run.max_iterations) ==> (
            r.status == AgentStatus::Error && (r.error matches Some(e) && e@
                == "Max iterations reached"@)),
            (run.ended || (!self.aborted && run.iterations < run.max_iterations)) ==> r == state,
            r.observations == state.observations,
            r.final_result == state.final_result,
    {
        let mut state = state;
        if !run.ended && self.aborted {
            state.status = AgentStatus::Aborted;
        } else if !run.ended && run.iterations >= run.max_iterations {
            state.status = AgentStatus::Error;
            state.error = Some(String::from_str("Max iterations reached"));
        }
        state
    }
}

} // verus!
