use lumina_agent::parse::{parse_intent, parse_plan, parse_tool_calls, plan_from_fields, StepFields};
use lumina_agent::types::{AgentType, ParamValue, TaskIntent};

#[test]
fn intent_without_marker_is_chat() {
    assert_eq!(parse_intent("I think this is an edit task"), TaskIntent::Chat);
    assert_eq!(parse_intent("{\"kind\": \"edit\"}"), TaskIntent::Chat);
    assert_eq!(parse_intent(""), TaskIntent::Chat);
}

#[test]
fn intent_priority_order() {
    assert_eq!(parse_intent("{\"intent\": \"search\", \"reason\": \"x\"}"), TaskIntent::Search);
    assert_eq!(parse_intent("{\"intent\": \"complex\"} \"create\""), TaskIntent::Create);
    assert_eq!(parse_intent("Sure! {\"INTENT\": \"ORGANIZE\"}"), TaskIntent::Organize);
    assert_eq!(parse_intent("{\"intent\": \"unknown\"}"), TaskIntent::Chat);
    assert_eq!(parse_intent("{\"intent\": \"edit\"}"), TaskIntent::Edit);
}

#[test]
fn tool_call_single_read_note() {
    let calls = parse_tool_calls("please <read_note><path>a.md</path></read_note> thanks").unwrap();
    assert_eq!(calls.len(), 1);
    assert_eq!(calls[0].name, "read_note");
    assert_eq!(calls[0].id, "call_0");
    assert_eq!(calls[0].params.len(), 1);
    assert_eq!(calls[0].params[0].key, "path");
    assert_eq!(calls[0].params[0].value, ParamValue::Text("a.md".to_string()));
}

#[test]
fn tool_calls_grouped_by_name_order() {
    let text = "<move_note><from_path>grocery.md</from_path><to_path>shopping.md</to_path></move_note>\n<read_note><path>x.md</path></read_note><read_note><path>y.md</path><path>z.md</path></read_note>";
    let calls = parse_tool_calls(text).unwrap();
    assert_eq!(calls.len(), 3);
    assert_eq!(calls[0].name, "read_note");
    assert_eq!(calls[0].params[0].value, ParamValue::Text("x.md".to_string()));
    assert_eq!(calls[1].name, "read_note");
    assert_eq!(calls[1].id, "call_1");
    assert_eq!(calls[1].params.len(), 1);
    assert_eq!(calls[1].params[0].value, ParamValue::Text("y.md".to_string()));
    assert_eq!(calls[2].name, "move_note");
    assert_eq!(calls[2].params[0].key, "from_path");
    assert_eq!(calls[2].params[1].key, "to_path");
    assert_eq!(calls[2].params[1].value, ParamValue::Text("shopping.md".to_string()));
}

#[test]
fn tool_calls_fixed_parameter_order_and_unclosed() {
    let calls = parse_tool_calls("<edit_note><new_string>B</new_string><path>p.md</path><old_string>A</old_string></edit_note><create_note><path>q.md</path>").unwrap();
    assert_eq!(calls.len(), 1);
    let keys: Vec<&str> = calls[0].params.iter().map(|p| p.key.as_str()).collect();
    assert_eq!(keys, vec!["path", "old_string", "new_string"]);
    assert!(parse_tool_calls("no tags here <unknown>x</unknown>").is_none());
}

#[test]
fn plan_scenario_defaults() {
    let plan = parse_plan("{\"steps\":[{\"description\":\"find budget notes\",\"agent\":\"researcher\"}]}").unwrap();
    assert_eq!(plan.steps.len(), 1);
    assert_eq!(plan.steps[0].id, "1");
    assert_eq!(plan.steps[0].description, "find budget notes");
    assert_eq!(plan.steps[0].agent, AgentType::Researcher);
    assert!(!plan.steps[0].completed);
    assert_eq!(plan.current_step, 0);
}

#[test]
fn plan_drops_steps_without_description() {
    let plan = parse_plan("{\"steps\":[{\"id\":\"7\",\"agent\":\"writer\"},{\"id\":\"8\",\"description\":\"d\",\"agent\":\"bogus\"}]}").unwrap();
    assert_eq!(plan.steps.len(), 1);
    assert_eq!(plan.steps[0].id, "8");
    assert_eq!(plan.steps[0].agent, AgentType::Editor);
    assert!(parse_plan("not json").is_none());
    assert!(parse_plan("{\"steps\": []}").is_none());
    assert!(parse_plan("{\"steps\": 3}").is_none());
    assert!(parse_plan("{\"steps\":[{\"id\":\"1\"}]}").is_none());
}

#[test]
fn plan_from_fields_applies_defaults() {
    let fields = vec![
        StepFields { id: None, description: Some("a".to_string()), agent: None },
        StepFields { id: Some("2".to_string()), description: None, agent: Some("writer".to_string()) },
        StepFields { id: Some("3".to_string()), description: Some("c".to_string()), agent: Some("organizer".to_string()) },
    ];
    let plan = plan_from_fields(&fields).unwrap();
    assert_eq!(plan.steps.len(), 2);
    assert_eq!(plan.steps[0].id, "1");
    assert_eq!(plan.steps[0].agent, AgentType::Editor);
    assert_eq!(plan.steps[1].id, "3");
    assert_eq!(plan.steps[1].agent, AgentType::Organizer);
    assert!(plan_from_fields(&vec![]).is_none());
}
