//! Node names of the agent graph and routing on them.

use vstd::prelude::*;
use crate::parse::same_text;
use crate::types::{AgentType, GraphState};

verus! {

/// The name of a graph node.
pub open spec fn node_name(a: AgentType) -> Seq<char> {
    match a {
        AgentType::Coordinator => "coordinator"@,
        AgentType::Planner => "planner"@,
        AgentType::Executor => "executor"@,
        AgentType::Editor => "editor"@,
        AgentType::Researcher => "researcher"@,
        AgentType::Writer => "writer"@,
        AgentType::Organizer => "organizer"@,
        AgentType::Reporter => "reporter"@,
    }
}

/// The node whose name is `s`, if any.
pub open spec fn node_of_name(s: Seq<char>) -> Option<AgentType> {
    if s == "coordinator"@ {
        Some(AgentType::Coordinator)
    } else if s == "planner"@ {
        Some(AgentType::Planner)
    } else if s == "executor"@ {
        Some(AgentType::Executor)
    } else if s == "editor"@ {
        Some(AgentType::Editor)
    } else if s == "researcher"@ {
        Some(AgentType::Researcher)
    } else if s == "writer"@ {
        Some(AgentType::Writer)
    } else if s == "organizer"@ {
        Some(AgentType::Organizer)
    } else if s == "reporter"@ {
        Some(AgentType::Reporter)
    } else {
        None
    }
}

/// The name of node `a`.
pub fn name_of_node(a: AgentType) -> (r: &'static str)
    ensures
        r@ == node_name(a),
{
    match a {
        AgentType::Coordinator => "coordinator",
        AgentType::Planner => "planner",
        AgentType::Executor => "executor",
        AgentType::Editor => "editor",
        AgentType::Researcher => "researcher",
        AgentType::Writer => "writer",
        AgentType::Organizer => "organizer",
        AgentType::Reporter => "reporter",
    }
}

/// The node named `s`, if any.
pub fn node_from_name(s: &str) -> (r: Option<AgentType>)
    ensures
        r == node_of_name(s@),
{
    if same_text(s, "coordinator") {
        Some(AgentType::Coordinator)
    } else if same_text(s, "planner") {
        Some(AgentType::Planner)
    } else if same_text(s, "executor") {
        Some(AgentType::Executor)
    } else if same_text(s, "editor") {
        Some(AgentType::Editor)
    } else if same_text(s, "researcher") {
        Some(AgentType::Researcher)
    } else if same_text(s, "writer") {
        Some(AgentType::Writer)
    } else if same_text(s, "organizer") {
        Some(AgentType::Organizer)
    } else if same_text(s, "reporter") {
        Some(AgentType::Reporter)
    } else {
        None
    }
}

/// The node that the state's `goto` names, unless it is empty or the terminal `end`.
pub fn route(state: &GraphState) -> (r: Option<String>)
    ensures
        r is Some <==> (state.goto@.len() != 0 && state.goto@ != "end"@),
        r matches Some(n) ==> n@ == state.goto@,
{
    if state.goto.as_str().unicode_len() != 0 && !same_text(state.goto.as_str(), "end") {
        Some(String::from_str(state.goto.as_str()))
    } else {
        None
    }
}

/// The names of every node of the graph, in a fixed order.
pub fn get_node_names() -> (r: Vec<&'static str>)
    ensures
        r@.len() == 8,
        r@[0]@ == "coordinator"@,
        r@[1]@ == "planner"@,
        r@[2]@ == "executor"@,
        r@[3]@ == "editor"@,
        r@[4]@ == "researcher"@,
        r@[5]@ == "writer"@,
        r@[6]@ == "organizer"@,
        r@[7]@ == "reporter"@,
{
    let mut r: Vec<&'static str> = Vec::new();
    r.push("coordinator");
    r.push("planner");
    r.push("executor");
    r.push("editor");
    r.push("researcher");
    r.push("writer");
    r.push("organizer");
    r.push("reporter");
    r
}

} // verus!
