use workbench_agent::chat::{
    agent_chat, begin_agent_chat, build_system_prompt, conversation, decimal, local_fallback_response,
    new_batch_id, new_request_id, signed_decimal, snapshot_counts, SnapshotCounts,
};
use workbench_agent::events::Stage;
use workbench_agent::normalize::AgentChatResponse;
use workbench_agent::router::{
    anthropic_version, check_credential, default_anthropic_provider, default_minimax_provider,
    default_openai_provider, endpoint_url, provider_messages, provider_reply_from_body,
    select_provider, AgentChatRequest, AgentMessage, AgentSettings, ProviderError, ProviderKind,
};
use workbench_agent::runtime::{
    TemplateMarkers,
    agent_codex_health, default_codex_exec_args, default_template_markers, is_generic_reply, effective_timeout_ms, exec_invocation_args,
    extract_codex_last_message, interpret_exec_outcome, is_generic_identity_reply,
    normalize_runtime_reply, probe_args, AgentCodexConfig, LocalRuntimeSession, ProbeChannel,
    RunOutcome, RuntimeError, RuntimeReply, RuntimeStep,
};
use workbench_agent::workbench::Workbench;

fn msg(role: &str, content: &str) -> AgentMessage {
    AgentMessage { role: role.to_string(), content: content.to_string() }
}

fn settings(provider: &str) -> AgentSettings {
    AgentSettings {
        provider: provider.to_string(),
        openai: default_openai_provider(),
        anthropic: default_anthropic_provider(),
        minimax: default_minimax_provider(),
        codex: AgentCodexConfig::default(),
    }
}

#[test]
fn timeout_outcome_is_runtime_timeout() {
    match interpret_exec_outcome(RunOutcome::TimedOut) {
        Err(e) => {
            assert!(matches!(e, RuntimeError::Timeout));
            assert_eq!(e.message(), "Codex exec timed out");
        }
        Ok(_) => panic!("a timed-out run gave output"),
    }
    assert_eq!(effective_timeout_ms(10), 1000);
    assert_eq!(effective_timeout_ms(120_000), 120_000);
}

#[test]
fn exit_outcomes() {
    let failed = RunOutcome::Exited {
        success: false,
        status: "exit status: 2".to_string(),
        stdout: String::new(),
        stderr: "  \n".to_string(),
    };
    match interpret_exec_outcome(failed) {
        Err(e) => assert_eq!(e.message(), "Codex exec failed (status exit status: 2): no stderr"),
        Ok(_) => panic!("failed exit accepted"),
    }
    let blank = RunOutcome::Exited {
        success: true,
        status: "exit status: 0".to_string(),
        stdout: " \n ".to_string(),
        stderr: String::new(),
    };
    assert!(matches!(interpret_exec_outcome(blank), Err(RuntimeError::EmptyOutput)));
}

#[test]
fn output_framing_prefers_payload_records() {
    let out = "log line\n{\"item\":{\"type\":\"agent_message\",\"text\":\"first\"}}\n{\"payload\":{\"reply\":\"structured\",\"actions\":[]}}\n{\"item\":{\"type\":\"agent_message\",\"text\":\"later\"}}";
    match extract_codex_last_message(out) {
        RuntimeReply::Structured { reply, actions } => {
            assert_eq!(reply, "structured");
            assert!(actions.is_some());
        }
        RuntimeReply::Text(_) => panic!("structured record ignored"),
    }
    let messages = "{\"item\":{\"type\":\"agent_message\",\"text\":\"one\"}}\r\n  {\"item\":{\"type\":\"agent_message\",\"text\":\"two\"}}  \n{\"item\":{\"type\":\"reasoning\",\"text\":\"no\"}}";
    match extract_codex_last_message(messages) {
        RuntimeReply::Text(t) => assert_eq!(t, "two"),
        _ => panic!("expected text"),
    }
    match extract_codex_last_message("plain answer") {
        RuntimeReply::Text(t) => assert_eq!(t, "plain answer"),
        _ => panic!("expected text"),
    }
}

#[test]
fn structured_runtime_reply_is_normalised() {
    let ok = RunOutcome::Exited {
        success: true,
        status: "exit status: 0".to_string(),
        stdout: "{\"payload\":{\"reply\":\"hi\"}}\n".to_string(),
        stderr: String::new(),
    };
    let reply = interpret_exec_outcome(ok).ok().expect("output");
    let r = normalize_runtime_reply(reply).expect("normalises");
    assert_eq!(r.reply, "hi");
    assert!(r.actions.is_empty());
}

#[test]
fn generic_reply_detection_folds_case() {
    assert!(is_generic_identity_reply("  I am GPT-5, how can I help?  "));
    assert!(is_generic_identity_reply("我是基于 Codex 的助手"));
    assert!(!is_generic_identity_reply("明天 9 点开会"));
}

#[test]
fn configured_markers_replace_the_defaults() {
    let markers = TemplateMarkers {
        fragments: vec!["as an assistant".to_string()],
        whole: vec!["hello!".to_string()],
    };
    assert!(is_generic_reply(" HELLO! ", &markers));
    assert!(is_generic_reply("As An Assistant, I ...", &markers));
    assert!(!is_generic_reply("gpt-5", &markers));
}

#[test]
fn one_reinforced_retry_at_most() {
    let generic = || AgentChatResponse { reply: "gpt-5 here".to_string(), actions: vec![] };
    let (mut session, first) = LocalRuntimeSession::start("prompt".to_string(), default_template_markers());
    assert_eq!(first, "prompt");
    match session.on_result(Ok(generic())) {
        RuntimeStep::Invoke(p) => {
            assert!(p.starts_with("prompt\n\n请注意："));
        }
        RuntimeStep::Finish(_) => panic!("no retry after a generic reply"),
    }
    match session.on_result(Ok(generic())) {
        RuntimeStep::Finish(Ok(r)) => assert_eq!(r.reply, "gpt-5 here"),
        _ => panic!("a second retry was asked for"),
    }
    assert_eq!(session.invocations, 2);
}

#[test]
fn invocation_arguments() {
    let mut config = AgentCodexConfig::default();
    let args = exec_invocation_args(&config, "hello");
    assert_eq!(args, vec!["exec", "--json", "--skip-git-repo-check", "hello"]);
    config.exec_args = vec![];
    assert_eq!(exec_invocation_args(&config, "p").len(), 4);
    assert_eq!(probe_args(&config, ProbeChannel::Mcp), vec!["mcp-server", "--help"]);
    assert_eq!(default_codex_exec_args().len(), 3);
}

#[test]
fn health_report() {
    let h = agent_codex_health(None, true, true);
    assert!(!h.found && !h.mcp_available);
    assert_eq!(h.message, "未找到 codex 可执行文件");
    let h = agent_codex_health(Some("/usr/bin/codex".to_string()), false, true);
    assert!(h.found && h.exec_available && !h.mcp_available);
    assert_eq!(h.message, "Codex 本地运行时可用");
}

#[test]
fn provider_selection_and_credentials() {
    assert!(matches!(select_provider("anthropic"), Ok(ProviderKind::Anthropic)));
    assert!(matches!(select_provider("codex_local"), Ok(ProviderKind::LocalRuntime)));
    match select_provider("gemini") {
        Err(e) => assert_eq!(e.message(), "Unsupported provider: gemini"),
        Ok(_) => panic!("unknown provider accepted"),
    }
    let mut cfg = default_openai_provider();
    match check_credential(ProviderKind::OpenAi, &cfg) {
        Err(e) => assert_eq!(e.message(), "OpenAI API key is empty"),
        Ok(_) => panic!("empty key accepted"),
    }
    cfg.api_key = "  SECRET-REDACTED  ".to_string();
    assert_eq!(check_credential(ProviderKind::OpenAi, &cfg).ok().as_deref(), Some("SECRET-REDACTED"));
    assert_eq!(anthropic_version(&default_anthropic_provider()), "2023-06-01");
}

#[test]
fn endpoints_and_roles() {
    assert_eq!(endpoint_url(ProviderKind::OpenAi, "https://api.openai.com/v1//"), "https://api.openai.com/v1/chat/completions");
    assert_eq!(endpoint_url(ProviderKind::Anthropic, "https://x/v1"), "https://x/v1/messages");
    assert_eq!(endpoint_url(ProviderKind::MiniMax, "https://m/v1/"), "https://m/v1/text/chatcompletion_v2");
    let msgs = vec![msg("system", "s"), msg("user", "u"), msg("assistant", "a"), msg("tool", "t")];
    let anthropic = provider_messages(ProviderKind::Anthropic, &msgs);
    let roles: Vec<&str> = anthropic.iter().map(|m| m.role.as_str()).collect();
    assert_eq!(roles, vec!["user", "user", "assistant"]);
    let openai = provider_messages(ProviderKind::OpenAi, &msgs);
    assert_eq!(openai.len(), 4);
    assert_eq!(openai[3].role, "user");
}

#[test]
fn provider_bodies() {
    let body = "{\"choices\":[{\"message\":{\"content\":\"{\\\"reply\\\":\\\"fine\\\",\\\"actions\\\":[]}\"}}]}";
    let r = provider_reply_from_body(ProviderKind::OpenAi, body).ok().expect("reply");
    assert_eq!(r.reply, "fine");
    let anthropic = "{\"content\":[{\"type\":\"text\",\"text\":\"just text\"}]}";
    let r = provider_reply_from_body(ProviderKind::Anthropic, anthropic).ok().expect("reply");
    assert_eq!(r.reply, "just text");
    match provider_reply_from_body(ProviderKind::Anthropic, "{\"content\":[]}") {
        Err(e) => assert_eq!(e.message(), "Anthropic response missing text"),
        Ok(_) => panic!("missing content accepted"),
    }
    assert!(matches!(provider_reply_from_body(ProviderKind::MiniMax, "not json"), Err(ProviderError::BodyNotJson(ProviderKind::MiniMax))));
}

#[test]
fn fallback_reply_when_every_provider_fails() {
    let mut store = Workbench::new();
    let request = AgentChatRequest {
        request_id: Some("req-42".to_string()),
        messages: vec![msg("user", "安排一下今天"), msg("assistant", "好的")],
        settings: settings("openai"),
    };
    let counts = snapshot_counts(&store, "2024-01-01");
    let mut trace = begin_agent_chat("req-42".to_string(), "t0");
    let failure = check_credential(ProviderKind::OpenAi, &request.settings.openai).err().expect("empty key").message();
    let turn = agent_chat(&mut store, &mut trace, &request, Err(failure), &counts, "batch-1".to_string(), "seed", "snapshot-1".to_string(), "t1");
    assert_eq!(turn.response.actions.len(), 1);
    assert_eq!(turn.response.actions[0].action_type, "query.snapshot");
    assert!(turn.response.actions[0].requires_approval);
    assert_eq!(
        turn.response.reply,
        "我已读取当前工作台数据。你刚才说的是“安排一下今天”。当前未完成待办 0 项、今日日程 0 项。 模型服务暂不可用（OpenAI API key is empty），已切换为本地建议模式。"
    );
    assert_eq!(turn.session.user_message.as_deref(), Some("安排一下今天"));
    let stages: Vec<Stage> = trace.events.iter().map(|e| e.stage).collect();
    assert_eq!(stages, vec![Stage::RuntimeDetect, Stage::Error, Stage::Fallback, Stage::Completed]);
}

#[test]
fn actions_in_a_reply_are_executed() {
    let mut store = Workbench::new();
    let request = AgentChatRequest { request_id: None, messages: vec![msg("user", "add it")], settings: settings("openai") };
    let reply = "{\"reply\":\"added\",\"actions\":[{\"id\":\"a1\",\"type\":\"todo.create\",\"title\":\"t\",\"reason\":\"r\",\"payload\":{\"title\":\"Call mom\"},\"requiresApproval\":false}]}";
    let parsed = workbench_agent::normalize::parse_llm_response(reply).expect("normalises");
    let counts = SnapshotCounts { pending_todos: 0, today_events: 0 };
    let mut trace = begin_agent_chat("req-5".to_string(), "t0");
    let turn = agent_chat(&mut store, &mut trace, &request, Ok(parsed), &counts, "batch-5".to_string(), "gen", "snap".to_string(), "t1");
    assert_eq!(turn.response.reply, "added\n\n已自动执行 1 条动作（batch: batch-5）。");
    assert!(turn.response.actions.is_empty());
    assert_eq!(store.todos.len(), 1);
    assert_eq!(store.todos[0].id, "gen-a1");
    assert_eq!(trace.events.last().map(|e| e.stage), Some(Stage::Completed));
}

#[test]
fn fallback_counts_and_default_message() {
    let counts = SnapshotCounts { pending_todos: 3, today_events: 10 };
    let r = local_fallback_response(&vec![msg("assistant", "x")], &counts, None, "s1".to_string());
    assert_eq!(r.reply, "我已读取当前工作台数据。你刚才说的是“请根据当前工作台数据给出建议”。当前未完成待办 3 项、今日日程 10 项。");
    assert!(matches!(r.actions[0].payload, workbench_agent::json::JsonValue::Object(ref f) if f.is_empty()));
}

#[test]
fn numbers_and_ids() {
    assert_eq!(decimal(0), "0");
    assert_eq!(decimal(1203), "1203");
    assert_eq!(signed_decimal(-45), "-45");
    assert_eq!(new_request_id(Some("given".to_string())), "given");
    assert!(new_request_id(None).starts_with("req-"));
    assert!(new_batch_id().starts_with("batch-"));
}

#[test]
fn prompts() {
    let p = build_system_prompt("{}");
    assert!(p.starts_with("你是 ZhaoXi Workbench Agent。"));
    assert!(p.ends_with("当前上下文: {}"));
    assert_eq!(conversation(&vec![msg("user", "a"), msg("assistant", "b")]), "user: a\nassistant: b");
}
