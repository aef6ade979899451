use lumina_agent::executor::{AgentConfig, GraphExecutor, GraphRun, NodeResult};
use lumina_agent::nodes::{
    build_agent_prompt, coordinator_node, coordinator_prompt, executor_node, planner_node,
    reporter_messages, reporter_node, worker_completed, worker_finish, worker_start, MessageRole,
};
use lumina_agent::registry::{ToolOp, ToolRegistry, ToolStep};
use lumina_agent::router::{get_node_names, route};
use lumina_agent::types::{
    AgentStatus, AgentType, GraphState, ParamValue, Plan, PlanStep, TaskIntent, ToolCall, ToolResult,
};

fn state(task: &str) -> GraphState {
    GraphState {
        workspace_path: "/ws".to_string(),
        active_note_path: None,
        active_note_content: None,
        user_task: task.to_string(),
        intent: TaskIntent::Chat,
        goto: String::new(),
        current_plan: None,
        current_step_index: 0,
        plan_iterations: 0,
        observations: vec![],
        rag_results: vec![],
        final_result: None,
        status: AgentStatus::Running,
        error: None,
    }
}

fn step(agent: AgentType) -> PlanStep {
    PlanStep { id: "1".to_string(), description: "d".to_string(), agent, completed: false, result: None }
}

#[test]
fn node_names_and_route() {
    assert_eq!(get_node_names(), vec!["coordinator", "planner", "executor", "editor", "researcher", "writer", "organizer", "reporter"]);
    let mut s = state("t");
    assert_eq!(route(&s), None);
    s.goto = "end".to_string();
    assert_eq!(route(&s), None);
    s.goto = "planner".to_string();
    assert_eq!(route(&s), Some("planner".to_string()));
}

#[test]
fn coordinator_routes_by_intent() {
    let r = coordinator_node(state("t"), "{\"intent\": \"organize\"}");
    assert_eq!(r.state.intent, TaskIntent::Organize);
    assert_eq!(r.state.goto, "organizer");
    assert_eq!(r.next_node, Some("organizer".to_string()));
    let r = coordinator_node(state("t"), "hello");
    assert_eq!(r.next_node, Some("reporter".to_string()));
    let r = coordinator_node(state("t"), "{\"intent\": \"complex\"}");
    assert_eq!(r.next_node, Some("planner".to_string()));
    let p = coordinator_prompt(&state("t"));
    assert!(p.contains("当前工作区：/ws\n当前笔记：无"));
}

#[test]
fn planner_stores_plan_or_degrades() {
    let r = planner_node(state("t"), "{\"steps\":[{\"description\":\"find budget notes\",\"agent\":\"researcher\"}]}");
    assert_eq!(r.next_node, Some("executor".to_string()));
    let plan = r.state.current_plan.clone().unwrap();
    assert_eq!(plan.steps[0].id, "1");
    assert_eq!(plan.steps[0].agent, AgentType::Researcher);
    assert_eq!(r.state.plan_iterations, 1);
    let r = planner_node(state("t"), "I cannot plan this");
    assert_eq!(r.next_node, Some("reporter".to_string()));
    assert!(r.state.current_plan.is_none());
    assert_eq!(r.state.plan_iterations, 1);
}

#[test]
fn executor_node_dispatches_steps() {
    assert_eq!(executor_node(state("t")).err(), Some("No plan found".to_string()));
    let mut s = state("t");
    s.current_plan = Some(Plan { steps: vec![step(AgentType::Writer), step(AgentType::Reporter)], current_step: 0 });
    let r = executor_node(s.clone()).unwrap();
    assert_eq!(r.next_node, Some("writer".to_string()));
    s.current_step_index = 1;
    assert_eq!(executor_node(s.clone()).unwrap().next_node, Some("reporter".to_string()));
    s.current_step_index = 2;
    assert_eq!(executor_node(s).unwrap().next_node, Some("reporter".to_string()));
}

#[test]
fn worker_turn_records_and_completes() {
    let mut s = state("rename");
    s.observations.push("[read_note] x".to_string());
    let mut w = worker_start(&s, AgentType::Organizer);
    assert_eq!(w.messages.len(), 3);
    assert_eq!(w.messages[2].role, MessageRole::Tool);
    assert!(w.messages[0].content.contains("list_notes, move_note, delete_note"));
    assert!(w.begin_round(&mut s, false));
    let calls = w.take_reply("<move_note><from_path>a.md</from_path><to_path>b.md</to_path></move_note>");
    assert_eq!(calls.len(), 1);
    let res = ToolResult { tool_call_id: "call_0".to_string(), success: true, content: "ok".to_string(), error: None };
    assert!(!w.record(&mut s, &calls[0], &res));
    assert_eq!(s.observations.last().unwrap(), "[move_note] ok");
    assert_eq!(w.messages.last().unwrap().content, "工具 move_note 执行结果：\nok");
    let calls = w.take_reply("<attempt_completion><result>done</result></attempt_completion>");
    assert!(w.record(&mut s, &calls[0], &res));
    assert_eq!(s.final_result, Some("done".to_string()));
    assert_eq!(s.goto, "end");
    assert_eq!(worker_completed(s).next_node, None);
}

#[test]
fn worker_round_bound() {
    let mut s = state("t");
    let mut w = worker_start(&s, AgentType::Editor);
    for _ in 0..10 {
        assert!(w.begin_round(&mut s, false));
    }
    assert!(!w.begin_round(&mut s, false));
    assert!(w.finished);
    assert_eq!(s.observations, vec!["[系统] 达到最大工具调用次数，自动结束".to_string()]);
    let empty = w.take_reply("nothing to do");
    assert!(empty.is_empty());
    let mut t = state("t");
    let mut v = worker_start(&t, AgentType::Writer);
    assert!(!v.begin_round(&mut t, true));
    assert!(v.finished);
    assert!(t.observations.is_empty());
}

#[test]
fn worker_finish_advances_plan() {
    let mut s = state("t");
    assert_eq!(worker_finish(s.clone()).next_node, Some("reporter".to_string()));
    s.current_plan = Some(Plan { steps: vec![step(AgentType::Editor)], current_step: 0 });
    let r = worker_finish(s);
    assert_eq!(r.next_node, Some("executor".to_string()));
    assert_eq!(r.state.current_step_index, 1);
    let r = worker_finish(r.state);
    assert_eq!(r.state.current_step_index, 1);
}

#[test]
fn agent_prompt_uses_placeholder_context() {
    let p = build_agent_prompt("writer", "/ws", "");
    assert!(p.starts_with("你是 Lumina 的写作专家"));
    assert!(p.contains("工作区路径：/ws\n\n(无上下文)"));
    assert!(p.contains("read_note, create_note, edit_note, list_notes, search_notes, attempt_completion"));
    let q = build_agent_prompt("other", "/ws", "ctx");
    assert!(q.starts_with("你是 Lumina 智能笔记助手。"));
    assert!(q.contains("\n\nctx\n\n"));
}

#[test]
fn reporter_styles() {
    let s = state("hi");
    let m = reporter_messages(&s).unwrap();
    assert_eq!(m.len(), 2);
    assert!(m[0].content.starts_with("你是 Lumina，一个友好的笔记助手"));
    let mut t = state("task");
    t.intent = TaskIntent::Edit;
    t.observations = vec!["a".to_string(), "b".to_string()];
    let m = reporter_messages(&t).unwrap();
    assert_eq!(m.len(), 1);
    assert!(m[0].content.contains("用户任务：task\n\n执行结果：\na\nb\n"));
    t.final_result = Some("x".to_string());
    assert!(reporter_messages(&t).is_none());
    let r = reporter_node(t, "ignored".to_string());
    assert_eq!(r.state.final_result, Some("x".to_string()));
    let r = reporter_node(state("hi"), "hello!".to_string());
    assert_eq!(r.state.final_result, Some("hello!".to_string()));
    assert_eq!(r.next_node, None);
}

fn drive(run: &mut GraphRun, ex: &GraphExecutor, next: &str) -> usize {
    let s = state("t");
    let mut dispatched = 0;
    while let Ok(Some(_)) = run.next_node(ex.aborted) {
        dispatched += 1;
        run.after_node(&s, &Some(next.to_string()));
    }
    dispatched
}

#[test]
fn executor_budget_bounds_dispatches() {
    let ex = GraphExecutor::new(AgentConfig { max_steps: 3 });
    let mut run = ex.start();
    assert_eq!(run.current_node, "coordinator");
    assert_eq!(drive(&mut run, &ex, "planner"), 6);
    let out = ex.finish(&run, state("t"));
    assert_eq!(out.status, AgentStatus::Error);
    assert_eq!(out.error, Some("Max iterations reached".to_string()));
}

#[test]
fn executor_ends_and_rejects_unknown_nodes() {
    let ex = GraphExecutor::new(AgentConfig { max_steps: 5 });
    let mut run = ex.start();
    assert_eq!(run.next_node(false), Ok(Some(AgentType::Coordinator)));
    run.after_node(&state("t"), &Some("end".to_string()));
    assert_eq!(run.next_node(false), Ok(None));
    assert_eq!(ex.finish(&run, state("t")).status, AgentStatus::Running);
    let mut run = ex.start();
    run.next_node(false).unwrap();
    run.after_node(&state("t"), &Some("nowhere".to_string()));
    assert_eq!(run.next_node(false), Err("Unknown node: nowhere".to_string()));
    let mut run = ex.start();
    let mut err = state("t");
    err.status = AgentStatus::Error;
    run.next_node(false).unwrap();
    run.after_node(&err, &Some("planner".to_string()));
    assert_eq!(run.next_node(false), Ok(None));
}

#[test]
fn executor_abort_is_observed() {
    let mut ex = GraphExecutor::new(AgentConfig { max_steps: 5 });
    let mut run = ex.start();
    run.next_node(ex.aborted).unwrap();
    ex.abort();
    assert_eq!(run.next_node(ex.aborted), Ok(None));
    assert_eq!(ex.finish(&run, state("t")).status, AgentStatus::Aborted);
}

#[test]
fn rename_scenario_end_to_end() {
    let ex = GraphExecutor::new(AgentConfig { max_steps: 5 });
    let mut run = ex.start();
    let s = state("rename my grocery list to shopping list");
    assert_eq!(run.next_node(false), Ok(Some(AgentType::Coordinator)));
    let NodeResult { state: mut s, next_node } = coordinator_node(s, "{\"intent\": \"organize\", \"reason\": \"rename\"}");
    assert_eq!(s.intent, TaskIntent::Organize);
    run.after_node(&s, &next_node);
    assert_eq!(run.next_node(false), Ok(Some(AgentType::Organizer)));
    let registry = ToolRegistry::new(s.workspace_path.clone());
    let mut w = worker_start(&s, AgentType::Organizer);
    assert!(w.begin_round(&mut s, false));
    let calls = w.take_reply("<move_note>\n<from_path>grocery.md</from_path>\n<to_path>shopping.md</to_path>\n</move_note>");
    assert_eq!(calls.len(), 1);
    let res = match registry.execute(&calls[0]) {
        ToolStep::Io(ToolOp::MoveNote { from_path, to_path, .. }) => {
            assert_eq!(from_path, "grocery.md");
            assert_eq!(to_path, "shopping.md");
            ToolRegistry::complete(&calls[0], Ok(lumina_agent::notes::moved_message(&from_path, &to_path)))
        }
        _ => panic!("expected a move"),
    };
    assert!(res.success);
    assert!(!w.record(&mut s, &calls[0], &res));
    w.end_batch();
    assert!(w.begin_round(&mut s, false));
    let calls = w.take_reply("<attempt_completion><result>Renamed grocery.md to shopping.md</result></attempt_completion>");
    let res = match registry.execute(&calls[0]) {
        ToolStep::Done(r) => r,
        _ => panic!("completion needs no I/O"),
    };
    assert_eq!(res.content, "[TASK_COMPLETED] Renamed grocery.md to shopping.md");
    assert!(w.record(&mut s, &calls[0], &res));
    let out = worker_completed(s);
    assert_eq!(out.next_node, None);
    run.after_node(&out.state, &out.next_node);
    assert_eq!(run.next_node(false), Ok(None));
    assert!(reporter_messages(&out.state).is_none());
    let fin = reporter_node(out.state, String::new());
    assert_eq!(fin.state.final_result, Some("Renamed grocery.md to shopping.md".to_string()));
}

#[test]
fn unknown_tool_is_an_error() {
    let registry = ToolRegistry::new("/ws".to_string());
    let call = ToolCall { id: "c1".to_string(), name: "format_disk".to_string(), params: vec![] };
    match registry.execute(&call) {
        ToolStep::Done(r) => {
            assert!(!r.success);
            assert_eq!(r.error, Some("Unknown tool: format_disk".to_string()));
            assert_eq!(r.tool_call_id, "c1");
        }
        _ => panic!("unknown tools need no I/O"),
    }
    let _ = ParamValue::Bool(true);
}

#[test]
fn planner_keeps_plan_when_reply_has_none() {
    let mut s = state("t");
    s.current_plan = Some(Plan { steps: vec![step(AgentType::Writer)], current_step: 0 });
    s.current_step_index = 1;
    let r = planner_node(s, "{\"steps\": [{\"id\": \"2\"}]}");
    assert_eq!(r.next_node, Some("reporter".to_string()));
    assert_eq!(r.state.current_plan.unwrap().steps[0].agent, AgentType::Writer);
    assert_eq!(r.state.current_step_index, 1);
}

#[test]
fn worker_checks_abort_before_each_call() {
    let s = state("t");
    let mut w = worker_start(&s, AgentType::Editor);
    assert!(w.before_call(false));
    assert!(!w.finished);
    assert!(!w.before_call(true));
    assert!(w.finished);
}
