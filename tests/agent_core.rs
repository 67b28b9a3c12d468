use workbench_agent::action::{validate_action, ActionError, ActionKind, ActionProposal};
use workbench_agent::batch::{agent_execute_action, agent_execute_actions_atomic};
use workbench_agent::events::{EventMeta, RequestTrace, Stage};
use workbench_agent::json::{JsonNumber, JsonValue};
use workbench_agent::normalize::{extract_json_block, parse_llm_response, NormalizeError};
use workbench_agent::workbench::{plan_action, Mutation, Workbench};

fn to_model(v: serde_json::Value) -> JsonValue {
    match v {
        serde_json::Value::Null => JsonValue::Null,
        serde_json::Value::Bool(b) => JsonValue::Bool(b),
        serde_json::Value::Number(n) => JsonValue::Number(JsonNumber { int_value: n.as_i64(), text: n.to_string() }),
        serde_json::Value::String(s) => JsonValue::Str(s),
        serde_json::Value::Array(a) => JsonValue::Array(a.into_iter().map(to_model).collect()),
        serde_json::Value::Object(m) => JsonValue::Object(m.into_iter().map(|(k, x)| (k, to_model(x))).collect()),
    }
}

fn payload(text: &str) -> JsonValue {
    to_model(serde_json::from_str(text).expect("test payload is JSON"))
}

fn proposal(id: &str, kind: &str, body: &str) -> ActionProposal {
    ActionProposal {
        id: id.to_string(),
        action_type: kind.to_string(),
        title: String::new(),
        reason: String::new(),
        payload: payload(body),
        requires_approval: false,
    }
}

fn trace_for(id: &str) -> RequestTrace {
    RequestTrace::new(id.to_string())
}

#[test]
fn fenced_json_inside_prose_is_extracted() {
    let raw = "Sure, here is the plan.\n```json\n{\"reply\":\"ok\",\"actions\":[]}\n```\nAnything else?";
    let r = parse_llm_response(raw).expect("normalises");
    assert_eq!(r.reply, "ok");
    assert!(r.actions.is_empty());
}

#[test]
fn plain_prose_becomes_the_reply() {
    let r = parse_llm_response("  Take a break after lunch.  \n").expect("normalises");
    assert_eq!(r.reply, "Take a break after lunch.");
    assert!(r.actions.is_empty());
}

#[test]
fn empty_and_whitespace_output_is_empty_output() {
    assert_eq!(parse_llm_response("").err(), Some(NormalizeError::EmptyOutput));
    assert_eq!(parse_llm_response(" \n\t  ").err(), Some(NormalizeError::EmptyOutput));
}

#[test]
fn malformed_action_fails_the_whole_parse() {
    let raw = "{\"reply\":\"x\",\"actions\":[{\"id\":\"a1\"}]}";
    assert_eq!(parse_llm_response(raw).err(), Some(NormalizeError::MalformedActions));
    let not_a_list = "{\"reply\":\"x\",\"actions\":{}}";
    assert_eq!(parse_llm_response(not_a_list).err(), Some(NormalizeError::MalformedActions));
}

#[test]
fn well_formed_actions_are_kept_in_order() {
    let raw = "prefix {\"reply\":\"done\",\"actions\":[{\"id\":\"a1\",\"type\":\"todo.create\",\"title\":\"t\",\"reason\":\"r\",\"payload\":{\"title\":\"Buy milk\"},\"requiresApproval\":true},{\"id\":\"a2\",\"type\":\"query.snapshot\",\"title\":\"s\",\"reason\":\"q\",\"payload\":{},\"requiresApproval\":false}]} suffix";
    let r = parse_llm_response(raw).expect("normalises");
    assert_eq!(r.reply, "done");
    assert_eq!(r.actions.len(), 2);
    assert_eq!(r.actions[0].id, "a1");
    assert_eq!(r.actions[0].action_type, "todo.create");
    assert!(r.actions[0].requires_approval);
    assert_eq!(r.actions[1].action_type, "query.snapshot");
    assert!(!r.actions[1].requires_approval);
}

#[test]
fn missing_reply_gets_the_default() {
    let r = parse_llm_response("{\"actions\":[]}").expect("normalises");
    assert_eq!(r.reply, "已生成建议。");
}

#[test]
fn json_span_rules() {
    assert_eq!(extract_json_block("a {\"k\":1} b }"), "{\"k\":1} b }");
    assert_eq!(extract_json_block("x ```json\n  {\"a\":2}  \n``` y"), "{\"a\":2}");
    assert_eq!(extract_json_block("  no braces here "), "no braces here");
    assert_eq!(extract_json_block("} before {"), "} before {");
}

#[test]
fn validation_errors() {
    let obj = payload("{}");
    assert!(matches!(validate_action("todo.create", &obj), Ok(ActionKind::TodoCreate)));
    match validate_action("todo.archive", &obj) {
        Err(e) => assert_eq!(e.message(), "Action is not allowed: todo.archive"),
        Ok(_) => panic!("unsupported type accepted"),
    }
    let list = payload("[1,2]");
    match validate_action("todo.create", &list) {
        Err(ActionError::MalformedPayload) => {}
        _ => panic!("non-object payload accepted"),
    }
}

#[test]
fn planning_reads_typed_fields() {
    let p = payload("{\"id\":\"p1\",\"progress\":42}");
    match plan_action(ActionKind::ProjectUpdateProgress, &p) {
        Ok(Mutation::UpdateProject(q)) => {
            assert_eq!(q.id, "p1");
            assert_eq!(q.progress, Some(42));
        }
        _ => panic!("expected a project update"),
    }
    let missing = payload("{\"id\":\"p1\"}");
    match plan_action(ActionKind::ProjectUpdateProgress, &missing) {
        Err(e) => assert_eq!(e.message(), "Missing required field: progress"),
        Ok(_) => panic!("missing progress accepted"),
    }
    let blank = payload("{\"title\":\"   \"}");
    match plan_action(ActionKind::TodoCreate, &blank) {
        Err(e) => assert_eq!(e.message(), "Missing required field: title"),
        Ok(_) => panic!("blank title accepted"),
    }
    let nothing = payload("{\"id\":\"t1\"}");
    match plan_action(ActionKind::TodoUpdate, &nothing) {
        Err(e) => assert_eq!(e.message(), "todo.update 缺少可更新字段"),
        Ok(_) => panic!("empty update accepted"),
    }
}

#[test]
fn single_action_execution() {
    let mut store = Workbench::new();
    let a = proposal("a1", "todo.create", "{\"id\":\"t1\",\"title\":\"Write report\"}");
    let r = agent_execute_action(&mut store, &a, "gen", "2024-01-01T00:00:00Z").expect("runs");
    assert!(r.success);
    assert_eq!(r.message, "待办已创建");
    assert_eq!(store.todos.len(), 1);
    assert_eq!(store.todos[0].priority, "normal");
    let again = agent_execute_action(&mut store, &a, "gen", "2024-01-01T00:00:00Z");
    assert_eq!(again.err(), Some("Duplicate id: t1".to_string()));
    assert_eq!(store.todos.len(), 1);
}

#[test]
fn batch_without_failure_applies_everything() {
    let mut store = Workbench::new();
    let mut trace = trace_for("req-1");
    let actions = vec![
        proposal("a1", "todo.create", "{\"id\":\"t1\",\"title\":\"Plan week\",\"priority\":\"high\"}"),
        proposal("a2", "project.create", "{\"title\":\"Launch\",\"deadline\":\"2024-02-01\"}"),
        proposal("a3", "todo.update", "{\"id\":\"t1\",\"completed\":true}"),
        proposal("a4", "query.snapshot", "{}"),
    ];
    let r = agent_execute_actions_atomic(&mut store, &mut trace, actions, "batch-9".to_string(), "seed", "now");
    assert!(r.success);
    assert_eq!(r.batch_id, "batch-9");
    assert_eq!(r.records.len(), 4);
    assert!(r.records.iter().all(|x| x.success && x.error.is_none()));
    assert_eq!(r.records[1].action_id, "a2");
    assert_eq!(store.todos.len(), 1);
    assert!(store.todos[0].completed);
    assert_eq!(store.todos[0].priority, "high");
    assert_eq!(store.projects.len(), 1);
    assert_eq!(store.projects[0].id, "seed-a2");
    assert_eq!(store.projects[0].status, "active");
    assert_eq!(trace.events.len(), 5);
}

#[test]
fn batch_failure_rolls_back_and_records_one_failure() {
    let mut store = Workbench::new();
    let seed = vec![proposal("s1", "event.create", "{\"id\":\"e1\",\"title\":\"Standup\",\"date\":\"2024-01-02\"}")];
    let mut trace = trace_for("req-0");
    assert!(agent_execute_actions_atomic(&mut store, &mut trace, seed, "b0".to_string(), "x", "now").success);
    assert_eq!(store.events[0].color, "blue");

    let mut trace = trace_for("req-2");
    let actions = vec![
        proposal("a1", "event.delete", "{\"id\":\"e1\"}"),
        proposal("a2", "todo.create", "{\"priority\":\"low\"}"),
        proposal("a3", "todo.create", "{\"title\":\"never reached\"}"),
    ];
    let r = agent_execute_actions_atomic(&mut store, &mut trace, actions, "batch-10".to_string(), "seed", "now");
    assert!(!r.success);
    assert_eq!(r.records.len(), 1);
    assert_eq!(r.records[0].action_id, "a2");
    assert!(!r.records[0].success);
    assert_eq!(r.message, "Missing required field: title");
    assert_eq!(r.records[0].error.as_deref(), Some("Missing required field: title"));
    assert_eq!(store.events.len(), 1);
    assert!(store.todos.is_empty());
    assert_eq!(trace.events.last().map(|e| e.stage), Some(Stage::Error));
}

#[test]
fn trace_keeps_stages_in_order() {
    let mut trace = trace_for("req-7");
    assert!(trace.emit(Stage::RuntimeDetect, "a", EventMeta::Nothing, "t"));
    assert!(trace.emit(Stage::Planning, "b", EventMeta::Nothing, "t"));
    assert!(!trace.emit(Stage::McpConnect, "late", EventMeta::Nothing, "t"));
    assert!(trace.emit(Stage::Completed, "c", EventMeta::Nothing, "t"));
    assert_eq!(trace.events.len(), 3);
    for (i, e) in trace.events.iter().enumerate() {
        assert_eq!(e.request_id, "req-7");
        assert_eq!(e.sequence, i);
    }
    assert_eq!(trace.events[1].stage.name(), "planning");
}
