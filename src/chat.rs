//! The chat flow around a provider's outcome: prompts, the context counts,
//! the deterministic fallback reply, and what follows a provider's reply.
use vstd::prelude::*;
use vstd::string::StringExecFns;
use crate::action::ActionProposal;
use crate::action::failure_text;
use crate::batch::{agent_execute_actions_atomic, run_batch, AgentExecutionAuditRecord};
use crate::events::{RequestTrace, Stage, EventMeta};
use crate::json::JsonValue;
use crate::normalize::AgentChatResponse;
use crate::router::{AgentChatRequest, AgentMessage};
use crate::text::{chars_of, chars_equal};
use crate::store::opt_view;
use crate::workbench::{Workbench, TodoView, EventView, store_wf};

verus! {

/// The decimal digit `d`.
pub open spec fn digit_char(d: nat) -> char {
    if d == 0 { '0' } else if d == 1 { '1' } else if d == 2 { '2' } else if d == 3 { '3' }
    else if d == 4 { '4' } else if d == 5 { '5' } else if d == 6 { '6' } else if d == 7 { '7' }
    else if d == 8 { '8' } else { '9' }
}

/// The decimal text of `n`.
pub open spec fn decimal_text(n: nat) -> Seq<char>
    decreases n,
{
    if n < 10 {
        seq![digit_char(n)]
    } else {
        decimal_text(n / 10).push(digit_char(n % 10))
    }
}

fn digit(d: u64) -> (r: char)
    requires
        d < 10,
    ensures
        r == digit_char(d as nat),
{
    if d == 0 { '0' } else if d == 1 { '1' } else if d == 2 { '2' } else if d == 3 { '3' }
    else if d == 4 { '4' } else if d == 5 { '5' } else if d == 6 { '6' } else if d == 7 { '7' }
    else if d == 8 { '8' } else { '9' }
}

fn decimal_chars(n: u64) -> (r: Vec<char>)
    ensures
        r@ == decimal_text(n as nat),
    decreases n,
{
    if n < 10 {
        vec![digit(n)]
    } else {
        let mut v = decimal_chars(n / 10);
        v.push(digit(n % 10));
        v
    }
}

/// The decimal text of `n`.
pub fn decimal(n: u64) -> (r: String)
    ensures
        r@ == decimal_text(n as nat),
{
    let cs = decimal_chars(n);
    crate::text::string_from_chars(cs.as_slice())
}

/// The content of the last turn whose role is `user`.
pub open spec fn latest_user(msgs: Seq<AgentMessage>) -> Option<Seq<char>>
    decreases msgs.len(),
{
    if msgs.len() == 0 {
        None
    } else if msgs.last().role@ == "user"@ {
        Some(msgs.last().content@)
    } else {
        latest_user(msgs.drop_last())
    }
}

/// The content of the last turn whose role is `user`.
pub fn latest_user_message(messages: &Vec<AgentMessage>) -> (r: Option<String>)
    ensures
        match r {
            Some(s) => latest_user(messages@) == Some(s@),
            None => latest_user(messages@) is None,
        },
{
    let user = chars_of("user");
    let mut i = messages.len();
    assert(messages@.take(i as int) =~= messages@);
    while i > 0
        invariant
            i <= messages@.len(),
            user@ == "user"@,
            latest_user(messages@) == latest_user(messages@.take(i as int)),
        decreases i,
    {
        let ghost pre = messages@.take(i as int);
        assert(pre.drop_last() =~= messages@.take(i - 1));
        if chars_equal(&chars_of(messages[i - 1].role.as_str()), &user) {
            return Some(messages[i - 1].content.clone());
        }
        i -= 1;
    }
    None
}

/// The rules that every provider is told, followed by the context snapshot.
pub open spec fn system_prompt_text(snapshot: Seq<char>) -> Seq<char> {
    "你是 ZhaoXi Workbench Agent。你必须基于上下文数据给出清晰建议，并且仅输出 JSON，结构为: {\"reply\":\"string\",\"actions\":[{\"id\":\"string\",\"type\":\"string\",\"title\":\"string\",\"reason\":\"string\",\"payload\":{},\"requiresApproval\":false}]}。action type 只能使用: todo.create,todo.update,todo.delete,project.create,project.update_progress,project.delete,event.create,event.update,event.delete,personal.create,personal.update,personal.delete,query.snapshot。你必须直接回答用户问题，禁止固定自我介绍或与问题无关的模板句。如果不需要动作，actions 返回空数组。当前上下文: "@
        + snapshot
}

/// The system prompt for a context snapshot given as JSON text.
pub fn build_system_prompt(snapshot: &str) -> (r: String)
    ensures
        r@ == system_prompt_text(snapshot@),
{
    let mut s = String::from_str(
        "你是 ZhaoXi Workbench Agent。你必须基于上下文数据给出清晰建议，并且仅输出 JSON，结构为: {\"reply\":\"string\",\"actions\":[{\"id\":\"string\",\"type\":\"string\",\"title\":\"string\",\"reason\":\"string\",\"payload\":{},\"requiresApproval\":false}]}。action type 只能使用: todo.create,todo.update,todo.delete,project.create,project.update_progress,project.delete,event.create,event.update,event.delete,personal.create,personal.update,personal.delete,query.snapshot。你必须直接回答用户问题，禁止固定自我介绍或与问题无关的模板句。如果不需要动作，actions 返回空数组。当前上下文: ",
    );
    s.append(snapshot);
    s
}

/// The conversation as lines `role: content`, joined by line feeds.
pub open spec fn conversation_text(msgs: Seq<AgentMessage>) -> Seq<char>
    decreases msgs.len(),
{
    if msgs.len() == 0 {
        Seq::empty()
    } else if msgs.len() == 1 {
        msgs[0].role@ + ": "@ + msgs[0].content@
    } else {
        conversation_text(msgs.drop_last()) + "\n"@ + msgs.last().role@ + ": "@ + msgs.last().content@
    }
}

/// The conversation as lines `role: content`, joined by line feeds.
pub fn conversation(messages: &Vec<AgentMessage>) -> (r: String)
    ensures
        r@ == conversation_text(messages@),
{
    let mut s = String::new();
    let mut i: usize = 0;
    while i < messages.len()
        invariant
            i <= messages@.len(),
            s@ == conversation_text(messages@.take(i as int)),
        decreases messages.len() - i,
    {
        assert(messages@.take(i + 1).drop_last() =~= messages@.take(i as int));
        if i > 0 {
            s.append("\n");
        }
        s.append(messages[i].role.as_str());
        s.append(": ");
        s.append(messages[i].content.as_str());
        i += 1;
    }
    assert(messages@.take(i as int) =~= messages@);
    s
}

/// The prompt of the local runtime.
pub open spec fn codex_prompt_text(msgs: Seq<AgentMessage>, snapshot: Seq<char>) -> Seq<char> {
    system_prompt_text(snapshot) + "\n\n用户最后一条消息:\n"@ + (match latest_user(msgs) {
        Some(u) => u,
        None => "请根据当前工作台快照给出建议"@,
    }) + "\n\n上下文快照:\n"@ + snapshot + "\n\n历史消息:\n"@ + conversation_text(msgs)
        + "\n\n请严格按 JSON 返回，并且回复内容必须针对“用户最后一条消息”，禁止固定模板。"@
}

/// The prompt of the local runtime: the system prompt, the last user message,
/// the snapshot and the whole conversation.
pub fn build_codex_prompt(messages: &Vec<AgentMessage>, snapshot: &str) -> (r: String)
    ensures
        r@ == codex_prompt_text(messages@, snapshot@),
{
    let mut s = build_system_prompt(snapshot);
    s.append("\n\n用户最后一条消息:\n");
    match latest_user_message(messages) {
        Some(u) => s.append(u.as_str()),
        None => s.append("请根据当前工作台快照给出建议"),
    }
    s.append("\n\n上下文快照:\n");
    s.append(snapshot);
    s.append("\n\n历史消息:\n");
    let c = conversation(messages);
    s.append(c.as_str());
    s.append("\n\n请严格按 JSON 返回，并且回复内容必须针对“用户最后一条消息”，禁止固定模板。");
    s
}

/// How many todos are not completed.
pub open spec fn pending_count(todos: Seq<TodoView>) -> nat
    decreases todos.len(),
{
    if todos.len() == 0 {
        0
    } else {
        pending_count(todos.drop_last()) + if todos.last().completed { 0nat } else { 1nat }
    }
}

/// How many events fall on `today`.
pub open spec fn today_count(events: Seq<EventView>, today: Seq<char>) -> nat
    decreases events.len(),
{
    if events.len() == 0 {
        0
    } else {
        today_count(events.drop_last(), today) + if events.last().date == today { 1nat } else { 0nat }
    }
}

/// The smaller of `n` and `cap`.
pub open spec fn capped(n: nat, cap: nat) -> nat {
    if n < cap { n } else { cap }
}

/// The counts of the context snapshot.
pub struct SnapshotCounts {
    pub pending_todos: u64,
    pub today_events: u64,
}

/// The counts that the context snapshot shows: pending todos, at most eight,
/// and today's events, at most ten.
pub fn snapshot_counts(store: &Workbench, today: &str) -> (r: SnapshotCounts)
    ensures
        r.pending_todos as nat == capped(pending_count(store@.todos), 8),
        r.today_events as nat == capped(today_count(store@.events, today@), 10),
{
    let mut pending: u64 = 0;
    let mut i: usize = 0;
    while i < store.todos.len()
        invariant
            i <= store.todos@.len(),
            pending as nat == capped(pending_count(store@.todos.take(i as int)), 8),
        decreases store.todos.len() - i,
    {
        assert(store@.todos.take(i + 1).drop_last() =~= store@.todos.take(i as int));
        assert(store@.todos.take(i + 1).last() == store.todos@[i as int]@);
        if !store.todos[i].completed && pending < 8 {
            pending += 1;
        }
        i += 1;
    }
    assert(store@.todos.take(i as int) =~= store@.todos);
    let t = chars_of(today);
    let mut events: u64 = 0;
    let mut j: usize = 0;
    while j < store.events.len()
        invariant
            j <= store.events@.len(),
            t@ == today@,
            events as nat == capped(today_count(store@.events.take(j as int), today@), 10),
        decreases store.events.len() - j,
    {
        assert(store@.events.take(j + 1).drop_last() =~= store@.events.take(j as int));
        assert(store@.events.take(j + 1).last() == store.events@[j as int]@);
        if chars_equal(&chars_of(store.events[j].date.as_str()), &t) && events < 10 {
            events += 1;
        }
        j += 1;
    }
    assert(store@.events.take(j as int) =~= store@.events);
    SnapshotCounts { pending_todos: pending, today_events: events }
}

/// The reply of the fallback path.
pub open spec fn fallback_text(msgs: Seq<AgentMessage>, counts: SnapshotCounts, error: Option<Seq<char>>) -> Seq<char> {
    "我已读取当前工作台数据。你刚才说的是“"@ + (match latest_user(msgs) {
        Some(u) => u,
        None => "请根据当前工作台数据给出建议"@,
    }) + "”。当前未完成待办 "@ + decimal_text(counts.pending_todos as nat) + " 项、今日日程 "@
        + decimal_text(counts.today_events as nat) + " 项。"@ + (match error {
        Some(reason) => " 模型服务暂不可用（"@ + reason + "），已切换为本地建议模式。"@,
        None => Seq::empty(),
    })
}

/// The object `{}`.
pub open spec fn is_empty_object(v: JsonValue) -> bool {
    v is Object && v->Object_0@.len() == 0
}

/// The deterministic reply used when no provider answered: it restates the
/// last user message and the counts of the snapshot, gives the failure reason
/// where there is one, and proposes exactly one `query.snapshot` action that
/// needs approval.
pub fn local_fallback_response(messages: &Vec<AgentMessage>, counts: &SnapshotCounts, error: Option<String>, action_id: String) -> (r: AgentChatResponse)
    ensures
        r.reply@ == fallback_text(messages@, *counts, match error {
            Some(e) => Some(e@),
            None => None,
        }),
        r.actions@.len() == 1,
        r.actions@[0].id@ == action_id@,
        r.actions@[0].action_type@ == "query.snapshot"@,
        r.actions@[0].title@ == "生成当前快照"@,
        r.actions@[0].reason@ == "用于后续进一步规划和动作确认"@,
        is_empty_object(r.actions@[0].payload),
        r.actions@[0].requires_approval,
{
    let mut reply = String::from_str("我已读取当前工作台数据。你刚才说的是“");
    match latest_user_message(messages) {
        Some(u) => reply.append(u.as_str()),
        None => reply.append("请根据当前工作台数据给出建议"),
    }
    reply.append("”。当前未完成待办 ");
    reply.append(decimal(counts.pending_todos).as_str());
    reply.append(" 项、今日日程 ");
    reply.append(decimal(counts.today_events).as_str());
    reply.append(" 项。");
    if let Some(reason) = error {
        reply.append(" 模型服务暂不可用（");
        reply.append(reason.as_str());
        reply.append("），已切换为本地建议模式。");
    }
    let action = ActionProposal {
        id: action_id,
        action_type: String::from_str("query.snapshot"),
        title: String::from_str("生成当前快照"),
        reason: String::from_str("用于后续进一步规划和动作确认"),
        payload: JsonValue::Object(Vec::new()),
        requires_approval: true,
    };
    AgentChatResponse { reply, actions: vec![action] }
}

/// The decimal text of `n`, with a minus sign where it is negative.
pub open spec fn signed_decimal_text(n: int) -> Seq<char> {
    if n < 0 {
        "-"@ + decimal_text((-n) as nat)
    } else {
        decimal_text(n as nat)
    }
}

/// The decimal text of `n`, with a minus sign where it is negative.
pub fn signed_decimal(n: i64) -> (r: String)
    ensures
        r@ == signed_decimal_text(n as int),
{
    if n < 0 {
        let m = (-(n as i128)) as u64;
        let mut s = String::from_str("-");
        s.append(decimal(m).as_str());
        s
    } else {
        decimal(n as u64)
    }
}

/// Relies on `chrono::Utc::now` and `DateTime::timestamp_millis`: the current
/// time, in milliseconds since the epoch. Two calls may differ.
#[verifier::external_body]
fn now_millis() -> (r: i64) {
    chrono::Utc::now().timestamp_millis()
}

/// The request id given, else `req-` and the current time in milliseconds.
pub fn new_request_id(given: Option<String>) -> (r: String)
    ensures
        match given {
            Some(g) => r@ == g@,
            None => exists|t: int| r@ == "req-"@ + signed_decimal_text(t),
        },
{
    match given {
        Some(g) => g,
        None => {
            let t = now_millis();
            let mut s = String::from_str("req-");
            s.append(signed_decimal(t).as_str());
            s
        },
    }
}

/// A batch id: `batch-` and the current time in milliseconds.
pub fn new_batch_id() -> (r: String)
    ensures
        exists|t: int| r@ == "batch-"@ + signed_decimal_text(t),
{
    let t = now_millis();
    let mut s = String::from_str("batch-");
    s.append(signed_decimal(t).as_str());
    s
}

/// The chat turn as the session store keeps it.
pub struct SessionRecord {
    pub request_id: String,
    pub provider: String,
    pub user_message: Option<String>,
    pub reply: String,
}

/// The reply to a chat request, the turn to persist, and the audit records of
/// the actions that were executed, if any.
pub struct ChatTurn {
    pub response: AgentChatResponse,
    pub session: SessionRecord,
    pub records: Vec<AgentExecutionAuditRecord>,
}

/// The reply once the proposed actions all took effect.
pub open spec fn executed_reply(reply: Seq<char>, n: nat, batch_id: Seq<char>) -> Seq<char> {
    reply + "\n\n已自动执行 "@ + decimal_text(n) + " 条动作（batch: "@ + batch_id + "）。"@
}

/// The reply once the proposed actions failed and were rolled back.
pub open spec fn failed_reply(reply: Seq<char>, batch_id: Seq<char>, message: Seq<char>) -> Seq<char> {
    reply + "\n\n自动执行失败（batch: "@ + batch_id + "）："@ + message
}

/// Opens a chat request's trace with its `runtime_detect` event.
pub fn begin_agent_chat(request_id: String, now: &str) -> (r: RequestTrace)
    ensures
        r.wf(),
        r.request_id@ == request_id@,
        r.events@.len() == 1,
        r.events@[0].stage == Stage::RuntimeDetect,
{
    let mut trace = RequestTrace::new(request_id);
    trace.emit(Stage::RuntimeDetect, "正在选择 Agent 运行时", EventMeta::Nothing, now);
    trace
}

/// Finishes a chat request once its provider has answered with `outcome`.
///
/// A reply with actions has them executed at once as one batch, whose result
/// is appended to the reply; the actions then leave the reply. A failed
/// provider gives the fallback reply, with exactly one proposed
/// `query.snapshot` action that needs approval, and leaves the store alone.
/// Every path ends with a `completed` event and a session record.
pub fn agent_chat(
    store: &mut Workbench,
    trace: &mut RequestTrace,
    request: &AgentChatRequest,
    outcome: Result<AgentChatResponse, String>,
    counts: &SnapshotCounts,
    batch_id: String,
    id_seed: &str,
    fallback_action_id: String,
    now: &str,
) -> (r: ChatTurn)
    requires
        store_wf(old(store)@),
        old(trace).wf(),
        old(trace).accepts(Stage::Executing),
    ensures
        store_wf(final(store)@),
        final(trace).wf(),
        final(trace).request_id == old(trace).request_id,
        final(trace).events@.len() > old(trace).events@.len(),
        final(trace).events@.take(old(trace).events@.len() as int) == old(trace).events@,
        final(trace).events@.last().stage == Stage::Completed,
        r.session.request_id@ == old(trace).request_id@,
        r.session.provider@ == request.settings.provider@,
        opt_view(r.session.user_message) == latest_user(request.messages@),
        r.session.reply@ == r.response.reply@,
        match outcome {
            Err(reason) => {
                &&& *final(store) == *old(store)
                &&& r.records@.len() == 0
                &&& r.response.reply@ == fallback_text(request.messages@, *counts, Some(reason@))
                &&& r.response.actions@.len() == 1
                &&& r.response.actions@[0].id@ == fallback_action_id@
                &&& r.response.actions@[0].action_type@ == "query.snapshot"@
                &&& r.response.actions@[0].requires_approval
            },
            Ok(resp) => if resp.actions@.len() == 0 {
                &&& *final(store) == *old(store)
                &&& r.records@.len() == 0
                &&& r.response.reply@ == resp.reply@
                &&& r.response.actions@.len() == 0
            } else {
                &&& r.response.actions@.len() == 0
                &&& match run_batch(old(store)@, resp.actions@, id_seed@, now@) {
                    Ok(w) => final(store)@ == w && r.response.reply@ == executed_reply(
                        resp.reply@,
                        resp.actions@.len(),
                        batch_id@,
                    ) && r.records@.len() == resp.actions@.len() && forall|j: int|
                        0 <= j < r.records@.len() ==> (#[trigger] r.records@[j]).success,
                    Err((k, f)) => *final(store) == *old(store) && r.response.reply@ == failed_reply(
                        resp.reply@,
                        batch_id@,
                        failure_text(f),
                    ) && r.records@.len() == 1 && !r.records@[0].success
                        && r.records@[0].action_id@ == resp.actions@[k].id@,
                }
            },
        },
{
    let ghost t0 = trace.events@;
    let mut records: Vec<AgentExecutionAuditRecord> = Vec::new();
    let response = match outcome {
        Ok(resp) => {
            let AgentChatResponse { reply, actions } = resp;
            if actions.len() > 0 {
                let count = actions.len();
                let started = trace.emit(Stage::Executing, "已生成动作，开始自动执行", EventMeta::Count(count), now);
                assert(started);
                let ghost t1 = trace.events@;
                let execution = agent_execute_actions_atomic(
                    store,
                    trace,
                    actions,
                    batch_id,
                    id_seed,
                    now,
                );
                proof {
                    assert(trace.events@.take(t0.len() as int) =~= t0) by {
                        assert forall|k: int| 0 <= k < t0.len() implies trace.events@[k] == t0[k] by {
                            assert(trace.events@.take(t1.len() as int)[k] == t1[k]);
                            assert(t1.take(t0.len() as int)[k] == t0[k]);
                        }
                    }
                }
                let mut reply = reply;
                if execution.success {
                    reply.append("\n\n已自动执行 ");
                    reply.append(decimal(execution.records.len() as u64).as_str());
                    reply.append(" 条动作（batch: ");
                    reply.append(execution.batch_id.as_str());
                    reply.append("）。");
                } else {
                    reply.append("\n\n自动执行失败（batch: ");
                    reply.append(execution.batch_id.as_str());
                    reply.append("）：");
                    reply.append(execution.message.as_str());
                }
                records = execution.records;
                AgentChatResponse { reply, actions: Vec::new() }
            } else {
                AgentChatResponse { reply, actions }
            }
        },
        Err(error) => {
            trace.emit(
                Stage::Error,
                "模型服务调用失败，准备降级",
                EventMeta::Reason { reason: error.clone(), retryable: true },
                now,
            );
            trace.emit(Stage::Fallback, "已切换为本地建议模式", EventMeta::Nothing, now);
            local_fallback_response(&request.messages, counts, Some(error), fallback_action_id)
        },
    };
    let ghost t2 = trace.events@;
    let done = trace.emit(Stage::Completed, "已完成", EventMeta::Nothing, now);
    proof {
        assert(done);
        assert(trace.events@.take(t0.len() as int) =~= t0) by {
            assert forall|k: int| 0 <= k < t0.len() implies trace.events@[k] == t0[k] by {
                assert(trace.events@.take(t2.len() as int)[k] == t2[k]);
                assert(t2.take(t0.len() as int)[k] == t0[k]);
            }
        }
    }
    let session = SessionRecord {
        request_id: trace.request_id.clone(),
        provider: request.settings.provider.clone(),
        user_message: latest_user_message(&request.messages),
        reply: response.reply.clone(),
    };
    ChatTurn { response, session, records }
}

} // verus!
