//! Data shared by the graph, its nodes, the parsers and the tool registry.

use vstd::prelude::*;

verus! {

/// Coarse classification of a user task; selects the first route.
#[derive(Clone, Copy, Debug, PartialEq, Eq, Structural)]
pub enum TaskIntent {
    Chat,
    Edit,
    Create,
    Organize,
    Search,
    Complex,
}

/// The roles of the agent graph.
#[derive(Clone, Copy, Debug, PartialEq, Eq, Structural)]
pub enum AgentType {
    Coordinator,
    Planner,
    Executor,
    Editor,
    Researcher,
    Writer,
    Organizer,
    Reporter,
}

/// Status of a run.
#[derive(Clone, Copy, Debug, PartialEq, Eq, Structural)]
pub enum AgentStatus {
    Idle,
    Running,
    Completed,
    Error,
    Aborted,
}

/// One role-tagged step of a plan.
#[derive(Clone, Debug, PartialEq, Eq)]
pub struct PlanStep {
    pub id: String,
    pub description: String,
    pub agent: AgentType,
    pub completed: bool,
    pub result: Option<String>,
}

/// An ordered decomposition of a complex task.
#[derive(Clone, Debug, PartialEq, Eq)]
pub struct Plan {
    pub steps: Vec<PlanStep>,
    pub current_step: usize,
}

/// One member of an object-valued parameter.
#[derive(Clone, Debug, PartialEq, Eq)]
pub struct FieldValue {
    pub key: String,
    /// The member's text: a string's own text, or the JSON text of any other value.
    pub text: String,
    /// The member is a JSON string.
    pub is_string: bool,
}

/// The value of one tool parameter.
#[derive(Clone, Debug, PartialEq, Eq)]
pub enum ParamValue {
    Text(String),
    Bool(bool),
    Int(i64),
    Fields(Vec<FieldValue>),
}

/// A named tool parameter.
#[derive(Clone, Debug, PartialEq, Eq)]
pub struct ToolParam {
    pub key: String,
    pub value: ParamValue,
}

/// A structured invocation of a workspace tool.
#[derive(Clone, Debug, PartialEq, Eq)]
pub struct ToolCall {
    pub id: String,
    pub name: String,
    pub params: Vec<ToolParam>,
}

/// The outcome of a tool call; `error` is set exactly when `success` is false.
#[derive(Clone, Debug, PartialEq, Eq)]
pub struct ToolResult {
    pub tool_call_id: String,
    pub success: bool,
    pub content: String,
    pub error: Option<String>,
}

/// A retrieved note used as extra context.
#[derive(Clone, Debug, PartialEq, Eq)]
pub struct RagResult {
    pub file_path: String,
    pub content: String,
}

/// The context threaded through a whole run.
#[derive(Clone, Debug, PartialEq, Eq)]
pub struct GraphState {
    pub workspace_path: String,
    pub active_note_path: Option<String>,
    pub active_note_content: Option<String>,
    pub user_task: String,
    pub intent: TaskIntent,
    pub goto: String,
    pub current_plan: Option<Plan>,
    pub current_step_index: usize,
    pub plan_iterations: usize,
    pub observations: Vec<String>,
    pub rag_results: Vec<RagResult>,
    pub final_result: Option<String>,
    pub status: AgentStatus,
    pub error: Option<String>,
}

/// The value of the first parameter named `key`.
pub open spec fn param_lookup(ps: Seq<ToolParam>, key: Seq<char>) -> Option<ParamValue>
    decreases ps.len(),
{
    if ps.len() == 0 {
        None
    } else if ps[0].key@ == key {
        Some(ps[0].value)
    } else {
        param_lookup(ps.drop_first(), key)
    }
}

/// The text of parameter `key`, when its first occurrence holds text.
pub open spec fn text_param_of(ps: Seq<ToolParam>, key: Seq<char>) -> Option<Seq<char>> {
    match param_lookup(ps, key) {
        Some(ParamValue::Text(s)) => Some(s@),
        _ => None,
    }
}

/// The flag of parameter `key`, when its first occurrence holds a flag.
pub open spec fn bool_param_of(ps: Seq<ToolParam>, key: Seq<char>) -> Option<bool> {
    match param_lookup(ps, key) {
        Some(ParamValue::Bool(b)) => Some(b),
        _ => None,
    }
}

/// The integer of parameter `key`, when its first occurrence holds an integer.
pub open spec fn int_param_of(ps: Seq<ToolParam>, key: Seq<char>) -> Option<i64> {
    match param_lookup(ps, key) {
        Some(ParamValue::Int(n)) => Some(n),
        _ => None,
    }
}

/// The members of parameter `key`, when its first occurrence is an object.
pub open spec fn fields_param_of(ps: Seq<ToolParam>, key: Seq<char>) -> Option<Seq<FieldValue>> {
    match param_lookup(ps, key) {
        Some(ParamValue::Fields(f)) => Some(f@),
        _ => None,
    }
}

impl ToolCall {
    /// The members of object parameter `key`.
    pub fn fields_param(&self, key: &str) -> (r: Option<&Vec<FieldValue>>)
        ensures
            match fields_param_of(self.params@, key@) {
                Some(f) => r matches Some(v) && v@ == f,
                None => r is None,
            },
    {
        match self.find_param(key) {
            Some(i) => match &self.params[i].value {
                ParamValue::Fields(f) => Some(f),
                _ => None,
            },
            None => None,
        }
    }

    /// The position of the first parameter named `key`.
    pub fn find_param(&self, key: &str) -> (r: Option<usize>)
        ensures
            match r {
                Some(i) => i < self.params@.len() && param_lookup(self.params@, key@) == Some(
                    self.params@[i as int].value,
                ),
                None => param_lookup(self.params@, key@) is None,
            },
    {
        let mut i: usize = 0;
        assert(self.params@.subrange(0, self.params@.len() as int) =~= self.params@);
        while i < self.params.len()
            invariant
                i <= self.params@.len(),
                param_lookup(self.params@, key@) == param_lookup(
                    self.params@.subrange(i as int, self.params@.len() as int),
                    key@,
                ),
            decreases self.params@.len() - i,
        {
            let ghost rest = self.params@.subrange(i as int, self.params@.len() as int);
            assert(rest.drop_first() =~= self.params@.subrange(i + 1, self.params@.len() as int));
            if String::from_str(self.params[i].key.as_str()) == String::from_str(key) {
                return Some(i);
            }
            i = i + 1;
        }
        None
    }

    /// The text of parameter `key`.
    pub fn text_param(&self, key: &str) -> (r: Option<String>)
        ensures
            match text_param_of(self.params@, key@) {
                Some(s) => r matches Some(t) && t@ == s,
                None => r is None,
            },
    {
        match self.find_param(key) {
            Some(i) => match &self.params[i].value {
                ParamValue::Text(s) => Some(String::from_str(s.as_str())),
                _ => None,
            },
            None => None,
        }
    }

    /// The flag of parameter `key`.
    pub fn bool_param(&self, key: &str) -> (r: Option<bool>)
        ensures
            r == bool_param_of(self.params@, key@),
    {
        match self.find_param(key) {
            Some(i) => match &self.params[i].value {
                ParamValue::Bool(b) => Some(*b),
                _ => None,
            },
            None => None,
        }
    }

    /// The integer of parameter `key`.
    pub fn int_param(&self, key: &str) -> (r: Option<i64>)
        ensures
            r == int_param_of(self.params@, key@),
    {
        match self.find_param(key) {
            Some(i) => match &self.params[i].value {
                ParamValue::Int(n) => Some(*n),
                _ => None,
            },
            None => None,
        }
    }
}

impl GraphState {
    /// The step index never passes the end of the plan.
    pub open spec fn wf(&self) -> bool {
        match self.current_plan {
            Some(p) => self.current_step_index <= p.steps@.len(),
            None => true,
        }
    }
}

impl ToolResult {
    /// A successful result carrying `content`.
    pub fn ok(id: String, content: String) -> (r: ToolResult)
        ensures
            r.tool_call_id == id,
            r.success,
            r.content == content,
            r.error.is_none(),
    {
        ToolResult { tool_call_id: id, success: true, content, error: None }
    }

    /// A failed result carrying the message `e`.
    pub fn err(id: String, e: String) -> (r: ToolResult)
        ensures
            r.tool_call_id == id,
            !r.success,
            r.content@.len() == 0,
            r.error == Some(e),
    {
        ToolResult { tool_call_id: id, success: false, content: String::new(), error: Some(e) }
    }
}

} // verus!
