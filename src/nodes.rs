//! The graph's node handlers. Each takes the run state (and, where the node consults the
//! model, the model's reply) and returns the updated state with the next node's name.

use vstd::prelude::*;
use crate::executor::NodeResult;
use crate::parse::{
    intent_of, lower_of, parse_intent, parse_plan, parse_tool_calls, parsed_calls, plan_of_fields,
    reply_has_plan, reply_step_fields, same_text,
};
use crate::prompts::{
    CHAT_HEAD, CHAT_MID, CHAT_TAIL, COORDINATOR_HEAD, COORDINATOR_MID, COORDINATOR_TAIL, PLANNER_HEAD,
    PLANNER_MID, PLANNER_TAIL, REPORT_HEAD, REPORT_MID, REPORT_TAIL, WORKER_AFTER_CONTEXT,
    WORKER_AFTER_ROLE, WORKER_AFTER_WORKSPACE, WORKER_TAIL,
};
use crate::router::{name_of_node, node_name};
use crate::text::{join_seqs, join_strings, views};
use crate::types::{
    AgentType, GraphState, Plan, RagResult, TaskIntent, ToolCall, ToolResult, text_param_of,
};

verus! {

/// Who speaks in a message to the model.
#[derive(Clone, Copy, Debug, PartialEq, Eq, Structural)]
pub enum MessageRole {
    System,
    User,
    Assistant,
    Tool,
}

/// One message of a conversation with the model.
#[derive(Clone, Debug, PartialEq, Eq)]
pub struct Message {
    pub role: MessageRole,
    pub content: String,
    pub name: Option<String>,
    pub tool_call_id: Option<String>,
}

/// A message without a name or tool call id.
pub fn message(role: MessageRole, content: String) -> (r: Message)
    ensures
        r.role == role,
        r.content == content,
        r.name is None,
        r.tool_call_id is None,
{
    Message { role, content, name: None, tool_call_id: None }
}

/// The fields that a node leaves as they were.
pub open spec fn keeps_context(a: GraphState, b: GraphState) -> bool {
    &&& a.workspace_path == b.workspace_path
    &&& a.active_note_path == b.active_note_path
    &&& a.active_note_content == b.active_note_content
    &&& a.user_task == b.user_task
    &&& a.rag_results == b.rag_results
    &&& a.status == b.status
    &&& a.error == b.error
}

/// The node that an intent routes to.
pub open spec fn intent_route(i: TaskIntent) -> AgentType {
    match i {
        TaskIntent::Chat => AgentType::Reporter,
        TaskIntent::Edit => AgentType::Editor,
        TaskIntent::Create => AgentType::Writer,
        TaskIntent::Organize => AgentType::Organizer,
        TaskIntent::Search => AgentType::Researcher,
        TaskIntent::Complex => AgentType::Planner,
    }
}

/// The node that an intent routes to.
pub fn route_for_intent(i: TaskIntent) -> (r: AgentType)
    ensures
        r == intent_route(i),
{
    match i {
        TaskIntent::Chat => AgentType::Reporter,
        TaskIntent::Edit => AgentType::Editor,
        TaskIntent::Create => AgentType::Writer,
        TaskIntent::Organize => AgentType::Organizer,
        TaskIntent::Search => AgentType::Researcher,
        TaskIntent::Complex => AgentType::Planner,
    }
}

/// The name of an intent as notifications show it.
pub open spec fn intent_label(i: TaskIntent) -> Seq<char> {
    match i {
        TaskIntent::Chat => "Chat"@,
        TaskIntent::Edit => "Edit"@,
        TaskIntent::Create => "Create"@,
        TaskIntent::Organize => "Organize"@,
        TaskIntent::Search => "Search"@,
        TaskIntent::Complex => "Complex"@,
    }
}

/// How a notification describes the route an intent takes.
pub open spec fn route_label(i: TaskIntent) -> Seq<char> {
    match i {
        TaskIntent::Chat => "reporter（直接回复）"@,
        TaskIntent::Edit => "editor（编辑笔记）"@,
        TaskIntent::Create => "writer（创建笔记）"@,
        TaskIntent::Organize => "organizer（整理文件）"@,
        TaskIntent::Search => "researcher（搜索研究）"@,
        TaskIntent::Complex => "planner（复杂任务规划）"@,
    }
}

/// The message announcing the classified intent and its route.
pub fn intent_message(i: TaskIntent) -> (r: String)
    ensures
        r@ == "🎯 意图分析："@ + intent_label(i) + "\n📍 路由到："@ + route_label(i),
{
    let (label, route): (&'static str, &'static str) = match i {
        TaskIntent::Chat => ("Chat", "reporter（直接回复）"),
        TaskIntent::Edit => ("Edit", "editor（编辑笔记）"),
        TaskIntent::Create => ("Create", "writer（创建笔记）"),
        TaskIntent::Organize => ("Organize", "organizer（整理文件）"),
        TaskIntent::Search => ("Search", "researcher（搜索研究）"),
        TaskIntent::Complex => ("Complex", "planner（复杂任务规划）"),
    };
    String::from_str("🎯 意图分析：").concat(label).concat("\n📍 路由到：").concat(route)
}

/// The active note's path, or a placeholder when there is none.
pub open spec fn note_or_none(p: Option<String>) -> Seq<char> {
    match p {
        Some(s) => s@,
        None => "无"@,
    }
}

fn active_note_text(p: &Option<String>) -> (r: String)
    ensures
        r@ == note_or_none(*p),
{
    match p {
        Some(s) => String::from_str(s.as_str()),
        None => String::from_str("无"),
    }
}

/// The classifier's system prompt.
pub fn coordinator_prompt(state: &GraphState) -> (r: String)
    ensures
        r@ == COORDINATOR_HEAD@ + state.workspace_path@ + COORDINATOR_MID@ + note_or_none(
            state.active_note_path,
        ) + COORDINATOR_TAIL@,
{
    let note = active_note_text(&state.active_note_path);
    String::from_str(COORDINATOR_HEAD).concat(state.workspace_path.as_str()).concat(
        COORDINATOR_MID,
    ).concat(note.as_str()).concat(COORDINATOR_TAIL)
}

/// The conversation sent to the classifier: its system prompt, then the task.
pub fn coordinator_messages(state: &GraphState) -> (r: Vec<Message>)
    ensures
        r@.len() == 2,
        r@[0].role == MessageRole::System,
        r@[0].content@ == coordinator_prompt_spec(*state),
        r@[1].role == MessageRole::User,
        r@[1].content@ == state.user_task@,
{
    let mut r: Vec<Message> = Vec::new();
    r.push(message(MessageRole::System, coordinator_prompt(state)));
    r.push(message(MessageRole::User, String::from_str(state.user_task.as_str())));
    r
}

pub open spec fn coordinator_prompt_spec(state: GraphState) -> Seq<char> {
    COORDINATOR_HEAD@ + state.workspace_path@ + COORDINATOR_MID@ + note_or_none(
        state.active_note_path,
    ) + COORDINATOR_TAIL@
}

/// Classifies the task from the model's reply and routes by the intent.
pub fn coordinator_node(state: GraphState, reply: &str) -> (r: NodeResult)
    ensures
        state.wf() ==> r.state.wf(),
        keeps_context(r.state, state),
        r.state.intent == intent_of(lower_of(reply@)),
        r.state.goto@ == node_name(intent_route(r.state.intent)),
        r.next_node matches Some(n) && n@ == node_name(intent_route(r.state.intent)),
        r.state.observations == state.observations,
        r.state.current_plan == state.current_plan,
        r.state.final_result == state.final_result,
{
    let mut state = state;
    let intent = parse_intent(reply);
    state.intent = intent;
    let next = name_of_node(route_for_intent(intent));
    state.goto = String::from_str(next);
    NodeResult { state, next_node: Some(String::from_str(next)) }
}

/// The planner's system prompt.
pub fn planner_prompt(state: &GraphState) -> (r: String)
    ensures
        r@ == PLANNER_HEAD@ + state.user_task@ + PLANNER_MID@ + state.workspace_path@
            + PLANNER_TAIL@,
{
    String::from_str(PLANNER_HEAD).concat(state.user_task.as_str()).concat(PLANNER_MID).concat(
        state.workspace_path.as_str(),
    ).concat(PLANNER_TAIL)
}

/// Stores the plan found in the model's reply and moves on to the step dispatcher, or
/// hands over to the reporter, leaving the state's plan as it was, when the reply holds no
/// usable plan.
pub fn planner_node(state: GraphState, reply: &str) -> (r: NodeResult)
    requires
        state.plan_iterations < usize::MAX,
    ensures
        state.wf() ==> r.state.wf(),
        keeps_context(r.state, state),
        r.state.intent == state.intent,
        r.state.plan_iterations == state.plan_iterations + 1,
        r.state.observations == state.observations,
        r.state.final_result == state.final_result,
        r.next_node matches Some(n) && n@ == r.state.goto@,
        reply_has_plan(reply@) ==> {
            &&& r.state.current_plan is Some
            &&& plan_of_fields(r.state.current_plan, reply_step_fields(reply@))
            &&& r.state.current_step_index == 0
            &&& r.state.goto@ == "executor"@
        },
        !reply_has_plan(reply@) ==> {
            &&& r.state.current_plan == state.current_plan
            &&& r.state.current_step_index == state.current_step_index
            &&& r.state.goto@ == "reporter"@
        },
{
    let mut state = state;
    match parse_plan(reply) {
        Some(p) => {
            state.current_plan = Some(p);
            state.current_step_index = 0;
            state.goto = String::from_str("executor");
        },
        None => {
            state.goto = String::from_str("reporter");
        },
    }
    state.plan_iterations = state.plan_iterations + 1;
    let next = String::from_str(state.goto.as_str());
    NodeResult { state, next_node: Some(next) }
}

/// The worker node that runs a step assigned to `a`; other roles go to the reporter.
pub open spec fn step_route(a: AgentType) -> AgentType {
    match a {
        AgentType::Editor => AgentType::Editor,
        AgentType::Researcher => AgentType::Researcher,
        AgentType::Writer => AgentType::Writer,
        AgentType::Organizer => AgentType::Organizer,
        _ => AgentType::Reporter,
    }
}

/// Dispatches the plan's current step to its worker; once every step has run, hands over
/// to the reporter. Without a plan the run cannot go on.
pub fn executor_node(state: GraphState) -> (r: Result<NodeResult, String>)
    ensures
        r matches Ok(nr) ==> (state.wf() ==> nr.state.wf()),
        state.current_plan is None <==> r is Err,
        r matches Err(e) ==> e@ == "No plan found"@,
        r matches Ok(nr) ==> {
            &&& keeps_context(nr.state, state)
            &&& nr.state.intent == state.intent
            &&& nr.state.final_result == state.final_result
            &&& nr.state.plan_iterations == state.plan_iterations
            &&& nr.state.current_plan == state.current_plan
            &&& nr.state.current_step_index == state.current_step_index
            &&& nr.state.observations == state.observations
            &&& nr.next_node matches Some(n) && n@ == nr.state.goto@
            &&& state.current_plan matches Some(p) && (if state.current_step_index
                >= p.steps@.len() {
                nr.state.goto@ == "reporter"@
            } else {
                nr.state.goto@ == node_name(
                    step_route(p.steps@[state.current_step_index as int].agent),
                )
            })
        },
{
    let mut state = state;
    let next: &'static str = match &state.current_plan {
        None => {
            return Err(String::from_str("No plan found"));
        },
        Some(p) => {
            if state.current_step_index >= p.steps.len() {
                "reporter"
            } else {
                let a = p.steps[state.current_step_index].agent;
                let n = match a {
                    AgentType::Editor => AgentType::Editor,
                    AgentType::Researcher => AgentType::Researcher,
                    AgentType::Writer => AgentType::Writer,
                    AgentType::Organizer => AgentType::Organizer,
                    _ => AgentType::Reporter,
                };
                name_of_node(n)
            }
        },
    };
    state.goto = String::from_str(next);
    Ok(NodeResult { state, next_node: Some(String::from_str(next)) })
}

/// The role description that opens a worker's prompt.
pub open spec fn role_description(name: Seq<char>) -> Seq<char> {
    if name == "editor"@ {
        "你是 Lumina 的笔记编辑专家，擅长精确编辑和优化笔记内容。"@
    } else if name == "researcher"@ {
        "你是 Lumina 的研究专家，擅长深度搜索和分析笔记库中的信息。"@
    } else if name == "writer"@ {
        "你是 Lumina 的写作专家，擅长创建高质量、结构清晰的笔记内容。"@
    } else if name == "organizer"@ {
        "你是 Lumina 的文件整理专家，擅长组织目录结构和管理笔记文件。"@
    } else {
        "你是 Lumina 智能笔记助手。"@
    }
}

/// The tools that a worker's prompt offers it.
pub open spec fn role_tools(name: Seq<char>) -> Seq<char> {
    if name == "editor"@ {
        "read_note, edit_note, search_notes, grep_search, semantic_search, attempt_completion"@
    } else if name == "researcher"@ {
        "read_note, list_notes, search_notes, grep_search, semantic_search, get_backlinks, attempt_completion"@
    } else if name == "writer"@ {
        "read_note, create_note, edit_note, list_notes, search_notes, attempt_completion"@
    } else if name == "organizer"@ {
        "list_notes, move_note, delete_note, create_note, read_note, attempt_completion"@
    } else {
        "read_note, edit_note, create_note, list_notes, search_notes, attempt_completion"@
    }
}

/// The context shown to a worker, or a placeholder when there is none.
pub open spec fn context_or_none(c: Seq<char>) -> Seq<char> {
    if c.len() == 0 {
        "(无上下文)"@
    } else {
        c
    }
}

/// The system prompt of the worker role `agent_name`.
pub open spec fn agent_prompt(agent_name: Seq<char>, workspace: Seq<char>, context: Seq<char>) -> Seq<
    char,
> {
    role_description(agent_name) + WORKER_AFTER_ROLE@ + workspace + WORKER_AFTER_WORKSPACE@
        + context_or_none(context) + WORKER_AFTER_CONTEXT@ + role_tools(agent_name)
        + WORKER_TAIL@
}

fn role_description_text(name: &str) -> (r: &'static str)
    ensures
        r@ == role_description(name@),
{
    if same_text(name, "editor") {
        "你是 Lumina 的笔记编辑专家，擅长精确编辑和优化笔记内容。"
    } else if same_text(name, "researcher") {
        "你是 Lumina 的研究专家，擅长深度搜索和分析笔记库中的信息。"
    } else if same_text(name, "writer") {
        "你是 Lumina 的写作专家，擅长创建高质量、结构清晰的笔记内容。"
    } else if same_text(name, "organizer") {
        "你是 Lumina 的文件整理专家，擅长组织目录结构和管理笔记文件。"
    } else {
        "你是 Lumina 智能笔记助手。"
    }
}

fn role_tools_text(name: &str) -> (r: &'static str)
    ensures
        r@ == role_tools(name@),
{
    if same_text(name, "editor") {
        "read_note, edit_note, search_notes, grep_search, semantic_search, attempt_completion"
    } else if same_text(name, "researcher") {
        "read_note, list_notes, search_notes, grep_search, semantic_search, get_backlinks, attempt_completion"
    } else if same_text(name, "writer") {
        "read_note, create_note, edit_note, list_notes, search_notes, attempt_completion"
    } else if same_text(name, "organizer") {
        "list_notes, move_note, delete_note, create_note, read_note, attempt_completion"
    } else {
        "read_note, edit_note, create_note, list_notes, search_notes, attempt_completion"
    }
}

/// The system prompt of a worker role: its description, the workspace, the context, the
/// tool grammar and rules, and the tools it may use.
pub fn build_agent_prompt(agent_name: &str, workspace: &str, context: &str) -> (r: String)
    ensures
        r@ == agent_prompt(agent_name@, workspace@, context@),
{
    let ctx: String = if context.unicode_len() == 0 {
        String::from_str("(无上下文)")
    } else {
        String::from_str(context)
    };
    String::from_str(role_description_text(agent_name)).concat(WORKER_AFTER_ROLE).concat(
        workspace,
    ).concat(WORKER_AFTER_WORKSPACE).concat(ctx.as_str()).concat(WORKER_AFTER_CONTEXT).concat(
        role_tools_text(agent_name),
    ).concat(WORKER_TAIL)
}

/// How one retrieved note is shown to a worker.
pub open spec fn rag_entry(r: RagResult) -> Seq<char> {
    "文件: "@ + r.file_path@ + "\n"@ + r.content@
}

/// The context parts shown to a worker: the active note's content, then the retrieved notes.
pub open spec fn context_parts(state: GraphState) -> Seq<Seq<char>> {
    let note = match state.active_note_content {
        Some(c) => seq!["当前笔记内容:\n"@ + c@],
        None => seq![],
    };
    let rag = if state.rag_results@.len() == 0 {
        seq![]
    } else {
        seq![
            "相关笔记:\n"@ + join_seqs(
                state.rag_results@.map_values(|r: RagResult| rag_entry(r)),
                "\n---\n"@,
            ),
        ]
    };
    note + rag
}

/// The context shown to a worker, its parts separated by blank lines.
pub fn worker_context(state: &GraphState) -> (r: String)
    ensures
        r@ == join_seqs(context_parts(*state), "\n\n"@),
{
    let mut parts: Vec<String> = Vec::new();
    if let Some(c) = &state.active_note_content {
        parts.push(String::from_str("当前笔记内容:\n").concat(c.as_str()));
    }
    if state.rag_results.len() > 0 {
        let mut entries: Vec<String> = Vec::new();
        let mut i: usize = 0;
        while i < state.rag_results.len()
            invariant
                i <= state.rag_results@.len(),
                entries@.len() == i,
                forall|j: int|
                    0 <= j < i ==> (#[trigger] entries@[j])@ == rag_entry(state.rag_results@[j]),
            decreases state.rag_results@.len() - i,
        {
            let r = &state.rag_results[i];
            entries.push(
                String::from_str("文件: ").concat(r.file_path.as_str()).concat("\n").concat(
                    r.content.as_str(),
                ),
            );
            i = i + 1;
        }
        assert(views(entries@) =~= state.rag_results@.map_values(|r: RagResult| rag_entry(r)));
        let joined = join_strings(&entries, "\n---\n");
        parts.push(String::from_str("相关笔记:\n").concat(joined.as_str()));
    }
    assert(views(parts@) =~= context_parts(*state));
    join_strings(&parts, "\n\n")
}

/// The bound on model rounds in one worker turn.
pub const MAX_TOOL_ROUNDS: usize = 10;

/// The observation noted when a worker turn runs out of rounds.
pub const ROUNDS_EXHAUSTED: &'static str = "[系统] 达到最大工具调用次数，自动结束";

/// What a tool result tells: its content, or its error.
pub open spec fn result_text(r: ToolResult) -> Seq<char> {
    if r.success {
        r.content@
    } else {
        match r.error {
            Some(e) => e@,
            None => "Unknown error"@,
        }
    }
}

/// The observation recorded for a tool call and its result.
pub open spec fn observation_of(call: ToolCall, r: ToolResult) -> Seq<char> {
    "["@ + call.name@ + "] "@ + result_text(r)
}

/// The message that feeds a tool result back to the model.
pub open spec fn feedback_of(call: ToolCall, r: ToolResult) -> Seq<char> {
    "工具 "@ + call.name@ + " 执行结果：\n"@ + result_text(r)
}

/// A completion call with a usable result text ends the whole run.
pub open spec fn completion_text(call: ToolCall) -> Option<Seq<char>> {
    if call.name@ == "attempt_completion"@ {
        text_param_of(call.params@, "result"@)
    } else {
        None
    }
}

fn result_string(r: &ToolResult) -> (s: String)
    ensures
        s@ == result_text(*r),
{
    if r.success {
        String::from_str(r.content.as_str())
    } else {
        match &r.error {
            Some(e) => String::from_str(e.as_str()),
            None => String::from_str("Unknown error"),
        }
    }
}

/// One worker turn: the conversation so far and the state of its bounded tool loop.
pub struct WorkerSession {
    pub agent: AgentType,
    pub messages: Vec<Message>,
    pub rounds: usize,
    pub should_complete: bool,
    pub finished: bool,
}

/// Opens a worker turn for role `agent`: the role's system prompt, the task, then every
/// observation made so far.
pub fn worker_start(state: &GraphState, agent: AgentType) -> (r: WorkerSession)
    ensures
        r.agent == agent,
        r.rounds == 0,
        !r.should_complete,
        !r.finished,
        r.messages@.len() == 2 + state.observations@.len(),
        r.messages@[0].role == MessageRole::System,
        r.messages@[0].content@ == agent_prompt(
            node_name(agent),
            state.workspace_path@,
            join_seqs(context_parts(*state), "\n\n"@),
        ),
        r.messages@[1].role == MessageRole::User,
        r.messages@[1].content@ == state.user_task@,
        forall|i: int|
            0 <= i < state.observations@.len() ==> {
                &&& (#[trigger] r.messages@[2 + i]).role == MessageRole::Tool
                &&& r.messages@[2 + i].content@ == state.observations@[i]@
                &&& r.messages@[2 + i].tool_call_id matches Some(t) && t@ == "prev"@
            },
{
    let context = worker_context(state);
    let prompt = build_agent_prompt(name_of_node(agent), state.workspace_path.as_str(), context.as_str());
    let mut messages: Vec<Message> = Vec::new();
    messages.push(message(MessageRole::System, prompt));
    messages.push(message(MessageRole::User, String::from_str(state.user_task.as_str())));
    let mut i: usize = 0;
    while i < state.observations.len()
        invariant
            i <= state.observations@.len(),
            messages@.len() == 2 + i,
            messages@[0].role == MessageRole::System,
            messages@[0].content@ == agent_prompt(
                node_name(agent),
                state.workspace_path@,
                join_seqs(context_parts(*state), "\n\n"@),
            ),
            messages@[1].role == MessageRole::User,
            messages@[1].content@ == state.user_task@,
            forall|j: int|
                0 <= j < i ==> {
                    &&& (#[trigger] messages@[2 + j]).role == MessageRole::Tool
                    &&& messages@[2 + j].content@ == state.observations@[j]@
                    &&& messages@[2 + j].tool_call_id matches Some(t) && t@ == "prev"@
                },
        decreases state.observations@.len() - i,
    {
        messages.push(
            Message {
                role: MessageRole::Tool,
                content: String::from_str(state.observations[i].as_str()),
                name: None,
                tool_call_id: Some(String::from_str("prev")),
            },
        );
        i = i + 1;
    }
    WorkerSession { agent, messages, rounds: 0, should_complete: false, finished: false }
}

/// Opens an editor turn.
pub fn editor_node(state: &GraphState) -> (r: WorkerSession)
    ensures
        r.agent == AgentType::Editor,
        r.rounds == 0,
        !r.finished,
        r.messages@.len() == 2 + state.observations@.len(),
{
    worker_start(state, AgentType::Editor)
}

/// Opens a researcher turn.
pub fn researcher_node(state: &GraphState) -> (r: WorkerSession)
    ensures
        r.agent == AgentType::Researcher,
        r.rounds == 0,
        !r.finished,
        r.messages@.len() == 2 + state.observations@.len(),
{
    worker_start(state, AgentType::Researcher)
}

/// Opens a writer turn.
pub fn writer_node(state: &GraphState) -> (r: WorkerSession)
    ensures
        r.agent == AgentType::Writer,
        r.rounds == 0,
        !r.finished,
        r.messages@.len() == 2 + state.observations@.len(),
{
    worker_start(state, AgentType::Writer)
}

/// Opens an organizer turn.
pub fn organizer_node(state: &GraphState) -> (r: WorkerSession)
    ensures
        r.agent == AgentType::Organizer,
        r.rounds == 0,
        !r.finished,
        r.messages@.len() == 2 + state.observations@.len(),
{
    worker_start(state, AgentType::Organizer)
}

impl WorkerSession {
    /// The round counter never passes the bound.
    pub open spec fn wf(&self) -> bool {
        self.rounds <= MAX_TOOL_ROUNDS
    }

    /// Whether the model is to be called once more; counts the round. A cancelled run ends
    /// the turn at once. Once the bound is used up, notes that among the observations and
    /// ends the turn.
    pub fn begin_round(&mut self, state: &mut GraphState, aborted: bool) -> (r: bool)
        requires
            old(self).wf(),
        ensures
            final(self).wf(),
            final(self).messages == old(self).messages,
            final(self).agent == old(self).agent,
            final(self).should_complete == old(self).should_complete,
            old(self).finished ==> !r && *final(self) == *old(self) && *final(state) == *old(
                state,
            ),
            (!old(self).finished && aborted) ==> !r && final(self).finished && final(self).rounds
                == old(self).rounds && *final(state) == *old(state),
            (!old(self).finished && !aborted && old(self).rounds < MAX_TOOL_ROUNDS) ==> r
                && final(self).rounds == old(self).rounds + 1 && !final(self).finished
                && *final(state) == *old(state),
            (!old(self).finished && !aborted && old(self).rounds >= MAX_TOOL_ROUNDS) ==> !r
                && final(self).finished && final(self).rounds == old(self).rounds && keeps_context(
                *final(state),
                *old(state),
            ) && views(final(state).observations@) == views(old(state).observations@).push(
                ROUNDS_EXHAUSTED@,
            ) && final(state).final_result == old(state).final_result,
            final(state).current_plan == old(state).current_plan,
            final(state).current_step_index == old(state).current_step_index,
            final(state).goto == old(state).goto,
    {
        if self.finished {
            return false;
        }
        if aborted {
            self.finished = true;
            return false;
        }
        if self.rounds >= MAX_TOOL_ROUNDS {
            state.observations.push(String::from_str(ROUNDS_EXHAUSTED));
            self.finished = true;
            assert(views(state.observations@) =~= views(old(state).observations@).push(
                ROUNDS_EXHAUSTED@,
            ));
            return false;
        }
        self.rounds = self.rounds + 1;
        true
    }

    /// The tool calls in the model's reply, in the grammar's order. A reply without any
    /// ends the turn: the model is taken to be done.
    pub fn take_reply(&mut self, reply: &str) -> (r: Vec<ToolCall>)
        ensures
            final(self).rounds == old(self).rounds,
            final(self).agent == old(self).agent,
            final(self).messages == old(self).messages,
            !final(self).should_complete,
            final(self).finished == (old(self).finished || parsed_calls(reply@).len() == 0),
            r@.len() == parsed_calls(reply@).len(),
            forall|i: int|
                0 <= i < r@.len() ==> crate::parse::call_agrees(
                    #[trigger] r@[i],
                    i,
                    parsed_calls(reply@)[i],
                ),
    {
        self.should_complete = false;
        match parse_tool_calls(reply) {
            Some(calls) => calls,
            None => {
                self.finished = true;
                Vec::new()
            },
        }
    }

    /// Takes in one executed call. A completion call with a result text stores it as the
    /// run's final result and ends the run (`true`); any other call is noted among the
    /// observations and fed back to the model, and a completion call without a text ends
    /// the turn after this batch.
    pub fn record(&mut self, state: &mut GraphState, call: &ToolCall, result: &ToolResult) -> (done:
        bool)
        ensures
            final(self).rounds == old(self).rounds,
            final(self).agent == old(self).agent,
            final(self).finished == old(self).finished,
            keeps_context(*final(state), *old(state)),
            final(state).current_plan == old(state).current_plan,
            final(state).current_step_index == old(state).current_step_index,
            done == completion_text(*call) is Some,
            completion_text(*call) matches Some(t) ==> {
                &&& final(state).final_result matches Some(f) && f@ == t
                &&& final(state).goto@ == "end"@
                &&& final(state).observations == old(state).observations
                &&& final(self).messages == old(self).messages
            },
            completion_text(*call) is None ==> {
                &&& views(final(state).observations@) == views(old(state).observations@).push(
                    observation_of(*call, *result),
                )
                &&& final(state).final_result == old(state).final_result
                &&& final(state).goto == old(state).goto
                &&& final(self).messages@.len() == old(self).messages@.len() + 1
                &&& final(self).messages@.drop_last() == old(self).messages@
                &&& final(self).messages@.last().role == MessageRole::User
                &&& final(self).messages@.last().content@ == feedback_of(*call, *result)
                &&& final(self).should_complete == (old(self).should_complete || call.name@
                    == "attempt_completion"@)
            },
    {
        let is_completion = same_text(call.name.as_str(), "attempt_completion");
        if is_completion {
            if let Some(t) = call.text_param("result") {
                state.final_result = Some(t);
                state.goto = String::from_str("end");
                return true;
            }
            self.should_complete = true;
        }
        let text = result_string(result);
        let obs = String::from_str("[").concat(call.name.as_str()).concat("] ").concat(
            text.as_str(),
        );
        state.observations.push(obs);
        let feedback = String::from_str("工具 ").concat(call.name.as_str()).concat(
            " 执行结果：\n",
        ).concat(text.as_str());
        self.messages.push(message(MessageRole::User, feedback));
        assert(views(state.observations@) =~= views(old(state).observations@).push(
            observation_of(*call, *result),
        ));
        assert(self.messages@.drop_last() =~= old(self).messages@);
        false
    }

    /// Whether the next tool call of a batch may run: a cancelled run ends the turn
    /// before it.
    pub fn before_call(&mut self, aborted: bool) -> (go: bool)
        ensures
            go == !aborted,
            final(self).finished == (old(self).finished || aborted),
            final(self).rounds == old(self).rounds,
            final(self).agent == old(self).agent,
            final(self).messages == old(self).messages,
            final(self).should_complete == old(self).should_complete,
    {
        if aborted {
            self.finished = true;
        }
        !aborted
    }

    /// Closes a batch of calls: a completion call without a text ends the turn.
    pub fn end_batch(&mut self)
        ensures
            final(self).finished == (old(self).finished || old(self).should_complete),
            final(self).rounds == old(self).rounds,
            final(self).agent == old(self).agent,
            final(self).messages == old(self).messages,
    {
        if self.should_complete {
            self.finished = true;
        }
    }
}

/// The end of a turn that a completion call cut short: the run ends here.
pub fn worker_completed(state: GraphState) -> (r: NodeResult)
    ensures
        r.state == state,
        r.next_node is None,
{
    NodeResult { state, next_node: None }
}

/// The end of a worker turn: with a plan, the step index advances (never past the plan's
/// end) and the step dispatcher runs next; without one, the reporter does.
pub fn worker_finish(state: GraphState) -> (r: NodeResult)
    ensures
        state.wf() ==> r.state.wf(),
        keeps_context(r.state, state),
        r.state.observations == state.observations,
        r.state.current_plan == state.current_plan,
        r.state.final_result == state.final_result,
        r.next_node matches Some(n) && n@ == r.state.goto@,
        match state.current_plan {
            Some(p) => r.state.goto@ == "executor"@ && r.state.current_step_index == (if
            state.current_step_index < p.steps@.len() {
                state.current_step_index + 1
            } else {
                state.current_step_index as int
            }),
            None => r.state.goto@ == "reporter"@ && r.state.current_step_index
                == state.current_step_index,
        },
{
    let mut state = state;
    let has_plan = match &state.current_plan {
        Some(p) => {
            if state.current_step_index < p.steps.len() {
                state.current_step_index = state.current_step_index + 1;
            }
            true
        },
        None => false,
    };
    if has_plan {
        state.goto = String::from_str("executor");
    } else {
        state.goto = String::from_str("reporter");
    }
    let next = String::from_str(state.goto.as_str());
    NodeResult { state, next_node: Some(next) }
}

/// The reporter answers conversationally when the task was a chat and nothing was observed.
pub open spec fn uses_chat_style(state: GraphState) -> bool {
    state.intent == TaskIntent::Chat && state.observations@.len() == 0
}

/// The reporter's system prompt.
pub open spec fn reporter_prompt_spec(state: GraphState) -> Seq<char> {
    if uses_chat_style(state) {
        CHAT_HEAD@ + state.workspace_path@ + CHAT_MID@ + note_or_none(state.active_note_path)
            + CHAT_TAIL@
    } else {
        REPORT_HEAD@ + state.user_task@ + REPORT_MID@ + join_seqs(
            views(state.observations@),
            "\n"@,
        ) + REPORT_TAIL@
    }
}

/// The reporter's system prompt: conversational for a plain chat, otherwise a summary of
/// the task over the observation log.
pub fn reporter_prompt(state: &GraphState) -> (r: String)
    ensures
        r@ == reporter_prompt_spec(*state),
{
    if state.intent == TaskIntent::Chat && state.observations.len() == 0 {
        let note = active_note_text(&state.active_note_path);
        String::from_str(CHAT_HEAD).concat(state.workspace_path.as_str()).concat(CHAT_MID).concat(
            note.as_str(),
        ).concat(CHAT_TAIL)
    } else {
        let log = join_strings(&state.observations, "\n");
        String::from_str(REPORT_HEAD).concat(state.user_task.as_str()).concat(REPORT_MID).concat(
            log.as_str(),
        ).concat(REPORT_TAIL)
    }
}

/// The conversation the reporter sends to the model, or `None` when the run already has
/// its final result and no call is needed.
pub fn reporter_messages(state: &GraphState) -> (r: Option<Vec<Message>>)
    ensures
        state.final_result is Some <==> r is None,
        r matches Some(m) ==> {
            &&& m@.len() == (if state.intent == TaskIntent::Chat {
                2int
            } else {
                1int
            })
            &&& m@[0].role == MessageRole::System
            &&& m@[0].content@ == reporter_prompt_spec(*state)
            &&& state.intent == TaskIntent::Chat ==> m@[1].role == MessageRole::User
                && m@[1].content@ == state.user_task@
        },
{
    if state.final_result.is_some() {
        return None;
    }
    let mut m: Vec<Message> = Vec::new();
    m.push(message(MessageRole::System, reporter_prompt(state)));
    if state.intent == TaskIntent::Chat {
        m.push(message(MessageRole::User, String::from_str(state.user_task.as_str())));
    }
    Some(m)
}

/// Ends the run with the final result: the one already set, or else the model's reply.
pub fn reporter_node(state: GraphState, reply: String) -> (r: NodeResult)
    ensures
        state.wf() ==> r.state.wf(),
        r.next_node is None,
        state.final_result is Some ==> r.state == state,
        state.final_result is None ==> keeps_context(r.state, state) && r.state.final_result
            == Some(reply) && r.state.observations == state.observations && r.state.goto
            == state.goto,
{
    let mut state = state;
    if state.final_result.is_none() {
        state.final_result = Some(reply);
    }
    NodeResult { state, next_node: None }
}

} // verus!
