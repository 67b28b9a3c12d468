//! Executing actions against the store: one at a time, or as a batch that is
//! applied whole or not at all, with one audit record per attempted action.
use vstd::prelude::*;
use vstd::string::StringExecFns;
use crate::action::{ActionKind, ActionError, ActionProposal, Failure, failure_text, kind_of_name,
    validate_action};
use crate::events::{RequestTrace, Stage, EventMeta, BatchCounters};
use crate::workbench::{Workbench, WorkbenchView, store_wf, plan_spec, apply_spec, plan_action};

verus! {

/// The confirmation that an action of type `k` took effect.
pub open spec fn success_text(k: ActionKind) -> Seq<char> {
    match k {
        ActionKind::TodoCreate => "待办已创建"@,
        ActionKind::TodoUpdate => "待办已更新"@,
        ActionKind::TodoDelete => "待办已删除"@,
        ActionKind::ProjectCreate => "项目已创建"@,
        ActionKind::ProjectUpdateProgress => "项目进度已更新"@,
        ActionKind::ProjectDelete => "项目已删除"@,
        ActionKind::EventCreate => "日程已创建"@,
        ActionKind::EventUpdate => "日程已更新"@,
        ActionKind::EventDelete => "日程已删除"@,
        ActionKind::PersonalCreate => "个人事务已创建"@,
        ActionKind::PersonalUpdate => "个人事务已更新"@,
        ActionKind::PersonalDelete => "个人事务已删除"@,
        ActionKind::QuerySnapshot => "当前快照已生成"@,
    }
}

/// The confirmation that an action of type `k` took effect.
pub fn success_message(k: ActionKind) -> (r: String)
    ensures
        r@ == success_text(k),
{
    String::from_str(
        match k {
            ActionKind::TodoCreate => "待办已创建",
            ActionKind::TodoUpdate => "待办已更新",
            ActionKind::TodoDelete => "待办已删除",
            ActionKind::ProjectCreate => "项目已创建",
            ActionKind::ProjectUpdateProgress => "项目进度已更新",
            ActionKind::ProjectDelete => "项目已删除",
            ActionKind::EventCreate => "日程已创建",
            ActionKind::EventUpdate => "日程已更新",
            ActionKind::EventDelete => "日程已删除",
            ActionKind::PersonalCreate => "个人事务已创建",
            ActionKind::PersonalUpdate => "个人事务已更新",
            ActionKind::PersonalDelete => "个人事务已删除",
            ActionKind::QuerySnapshot => "当前快照已生成",
        },
    )
}

/// The store after one action: its type is checked against the vocabulary, its
/// payload must be an object, the payload becomes a typed change, and the
/// change is applied. The first check that fails gives the error.
pub open spec fn action_outcome(w: WorkbenchView, a: ActionProposal, fresh_id: Seq<char>, now: Seq<char>) -> Result<WorkbenchView, Failure> {
    match kind_of_name(a.action_type@) {
        None => Err(Failure::Unsupported(a.action_type@)),
        Some(k) => if !a.payload.is_object_value() {
            Err(Failure::Malformed)
        } else {
            match plan_spec(k, a.payload) {
                Err(f) => Err(f),
                Ok(c) => apply_spec(w, c, fresh_id, now),
            }
        },
    }
}

/// The reply to a single action.
pub struct AgentExecuteResponse {
    pub success: bool,
    pub message: String,
}

/// Executes one action against the store. On an error the store is unchanged.
/// A create without an id of its own takes `fresh_id`.
pub fn execute_action(store: &mut Workbench, action: &ActionProposal, fresh_id: &str, now: &str) -> (r: Result<String, ActionError>)
    requires
        store_wf(old(store)@),
    ensures
        store_wf(final(store)@),
        match r {
            Ok(msg) => action_outcome(old(store)@, *action, fresh_id@, now@) == Ok::<WorkbenchView, Failure>(final(store)@)
                && msg@ == success_text(kind_of_name(action.action_type@)->Some_0),
            Err(e) => action_outcome(old(store)@, *action, fresh_id@, now@) == Err::<WorkbenchView, Failure>(e@)
                && final(store)@ == old(store)@,
        },
{
    let kind = validate_action(action.action_type.as_str(), &action.payload)?;
    let m = plan_action(kind, &action.payload)?;
    store.apply(m, fresh_id, now)?;
    Ok(success_message(kind))
}

/// Executes one action and reports it as a reply; on an error, the error's text
/// comes back and the store is unchanged.
pub fn agent_execute_action(store: &mut Workbench, action: &ActionProposal, fresh_id: &str, now: &str) -> (r: Result<AgentExecuteResponse, String>)
    requires
        store_wf(old(store)@),
    ensures
        store_wf(final(store)@),
        match action_outcome(old(store)@, *action, fresh_id@, now@) {
            Ok(w) => final(store)@ == w && r is Ok && r->Ok_0.success
                && r->Ok_0.message@ == success_text(kind_of_name(action.action_type@)->Some_0),
            Err(f) => final(store)@ == old(store)@ && r is Err && r->Err_0@ == failure_text(f),
        },
{
    match execute_action(store, action, fresh_id, now) {
        Ok(message) => Ok(AgentExecuteResponse { success: true, message }),
        Err(e) => Err(e.message()),
    }
}

/// One attempted action of a batch and how it went. `after_state` holds the
/// confirmation of an action that took effect.
pub struct AgentExecutionAuditRecord {
    pub id: String,
    pub batch_id: String,
    pub action_id: String,
    pub action_type: String,
    pub payload: crate::json::JsonValue,
    pub before_state: Option<String>,
    pub after_state: Option<String>,
    pub success: bool,
    pub error: Option<String>,
    pub created_at: String,
}

/// The reply to a batch.
pub struct AgentExecuteActionsResponse {
    pub success: bool,
    pub batch_id: String,
    pub message: String,
    pub records: Vec<AgentExecutionAuditRecord>,
}

/// The id that a create action without one of its own gets in a batch.
pub open spec fn fresh_id_for(seed: Seq<char>, a: ActionProposal) -> Seq<char> {
    seed + "-"@ + a.id@
}

/// The store after the first `n` actions of a batch, or the index of the first
/// of them that failed and its error.
pub open spec fn run_prefix(w: WorkbenchView, acts: Seq<ActionProposal>, seed: Seq<char>, now: Seq<char>, n: nat) -> Result<WorkbenchView, (int, Failure)>
    decreases n,
{
    if n == 0 {
        Ok(w)
    } else {
        match run_prefix(w, acts, seed, now, (n - 1) as nat) {
            Err(e) => Err(e),
            Ok(w1) => match action_outcome(w1, acts[n - 1], fresh_id_for(seed, acts[n - 1]), now) {
                Ok(w2) => Ok(w2),
                Err(f) => Err(((n - 1) as int, f)),
            },
        }
    }
}

/// The store after the whole batch, or the first failure.
pub open spec fn run_batch(w: WorkbenchView, acts: Seq<ActionProposal>, seed: Seq<char>, now: Seq<char>) -> Result<WorkbenchView, (int, Failure)> {
    run_prefix(w, acts, seed, now, acts.len())
}

/// A failure at index `k` comes from an action of the batch.
proof fn lemma_failure_index(w: WorkbenchView, acts: Seq<ActionProposal>, seed: Seq<char>, now: Seq<char>, n: nat)
    requires
        n <= acts.len(),
    ensures
        run_prefix(w, acts, seed, now, n) is Err ==> 0 <= run_prefix(w, acts, seed, now, n)->Err_0.0 < n,
    decreases n,
{
    if n > 0 {
        lemma_failure_index(w, acts, seed, now, (n - 1) as nat);
    }
}

/// The audit record of the action `a`, attempted in `batch_id`; its id is the
/// batch id and the action id.
pub open spec fn record_of(r: AgentExecutionAuditRecord, a: ActionProposal, batch_id: Seq<char>, now: Seq<char>) -> bool {
    &&& r.id@ == batch_id + "-"@ + a.id@
    &&& r.batch_id@ == batch_id
    &&& r.action_id@ == a.id@
    &&& r.action_type@ == a.action_type@
    &&& r.payload == a.payload
    &&& r.before_state is None
    &&& r.created_at@ == now
}

/// Builds `seed-id`.
fn joined(seed: &str, id: &String) -> (r: String)
    ensures
        r@ == seed@ + "-"@ + id@,
{
    let mut s = String::from_str(seed);
    s.append("-");
    s.append(id.as_str());
    s
}

/// Appends a batch progress event, with the action just attempted.
fn emit_progress(trace: &mut RequestTrace, message: &str, counters: BatchCounters, action: &ActionProposal, now: &str)
    requires
        old(trace).wf(),
        old(trace).accepts(Stage::Executing),
    ensures
        final(trace).wf(),
        final(trace).request_id == old(trace).request_id,
        final(trace).events@.len() == old(trace).events@.len() + 1,
        final(trace).events@.take(old(trace).events@.len() as int) == old(trace).events@,
        final(trace).accepts(Stage::Executing),
{
    let meta = EventMeta::Progress {
        counters,
        action_type: Some(action.action_type.clone()),
        action_id: Some(action.id.clone()),
    };
    trace.emit(Stage::Executing, message, meta, now);
}

/// Executes `actions` in order against the store, as one unit.
///
/// Each action is validated, planned and applied in turn. At the first failure
/// the store is left exactly as it was, and the reply holds one audit record,
/// of the failing action, with its error; the actions after it are not
/// recorded. When every action succeeds, the store holds all their effects, and
/// the reply holds one record per action, in order, each a success. Progress
/// events go to `trace`.
pub fn agent_execute_actions_atomic(
    store: &mut Workbench,
    trace: &mut RequestTrace,
    actions: Vec<ActionProposal>,
    batch_id: String,
    id_seed: &str,
    now: &str,
) -> (r: AgentExecuteActionsResponse)
    requires
        store_wf(old(store)@),
        old(trace).wf(),
        old(trace).accepts(Stage::Executing),
    ensures
        store_wf(final(store)@),
        final(trace).wf(),
        final(trace).request_id == old(trace).request_id,
        final(trace).events@.len() >= old(trace).events@.len(),
        final(trace).events@.take(old(trace).events@.len() as int) == old(trace).events@,
        final(trace).accepts(Stage::Error),
        r.batch_id@ == batch_id@,
        match run_batch(old(store)@, actions@, id_seed@, now@) {
            Ok(w) => {
                &&& r.success
                &&& final(store)@ == w
                &&& r.records@.len() == actions@.len()
                &&& forall|j: int|
                    0 <= j < actions@.len() ==> record_of(#[trigger] r.records@[j], actions@[j], batch_id@, now@)
                        && r.records@[j].success && r.records@[j].error is None
                        && r.records@[j].after_state is Some
                        && r.records@[j].after_state->Some_0@ == success_text(
                        kind_of_name(actions@[j].action_type@)->Some_0,
                    )
            },
            Err((k, f)) => {
                &&& !r.success
                &&& *final(store) == *old(store)
                &&& r.records@.len() == 1
                &&& record_of(r.records@[0], actions@[k], batch_id@, now@)
                &&& !r.records@[0].success
                &&& r.records@[0].after_state is None
                &&& r.records@[0].error is Some
                &&& r.records@[0].error->Some_0@ == failure_text(f)
                &&& r.message@ == failure_text(f)
                &&& final(trace).events@.last().stage == Stage::Error
            },
        },
{
    let total = actions.len();
    let mut counters = BatchCounters { total, completed: 0, success: 0, failed: 0 };
    let ghost t0 = trace.events@;
    let ghost acts = actions@;
    trace.emit(Stage::Executing, "开始执行动作", EventMeta::Count(total), now);
    let mut working = store.duplicate();
    let mut records: Vec<AgentExecutionAuditRecord> = Vec::new();
    let mut i: usize = 0;
    for action in it: actions.into_iter()
        invariant
            it.seq() == acts,
            i == it.index(),
            i <= acts.len(),
            total == acts.len(),
            counters.completed == i && counters.success == i && counters.failed == 0
                && counters.total == total,
            store_wf(store@),
            store_wf(working@),
            run_prefix(store@, acts, id_seed@, now@, i as nat) == Ok::<WorkbenchView, (int, Failure)>(working@),
            records@.len() == i,
            forall|j: int|
                0 <= j < i ==> record_of(#[trigger] records@[j], acts[j], batch_id@, now@)
                    && records@[j].success && records@[j].error is None
                    && records@[j].after_state is Some
                    && records@[j].after_state->Some_0@ == success_text(
                    kind_of_name(acts[j].action_type@)->Some_0,
                ),
            trace.wf(),
            trace.request_id == old(trace).request_id,
            trace.events@.len() >= t0.len(),
            t0 == old(trace).events@,
            trace.events@.take(t0.len() as int) == t0,
            trace.accepts(Stage::Executing),
            trace.accepts(Stage::Error),
            *store == *old(store),
    {
        let fresh = joined(id_seed, &action.id);
        let result = execute_action(&mut working, &action, fresh.as_str(), now);
        assert(acts[i as int] == action);
        match result {
            Ok(message) => {
                counters.completed = counters.completed + 1;
                counters.success = counters.success + 1;
                let ghost tb = trace.events@;
                emit_progress(trace, "动作执行成功", counters, &action, now);
                proof {
                    assert(trace.events@.take(t0.len() as int) =~= trace.events@.take(tb.len() as int).take(t0.len() as int));
                }
                let record = AgentExecutionAuditRecord {
                    id: joined(batch_id.as_str(), &action.id),
                    batch_id: batch_id.clone(),
                    action_id: action.id,
                    action_type: action.action_type,
                    payload: action.payload,
                    before_state: None,
                    after_state: Some(message),
                    success: true,
                    error: None,
                    created_at: String::from_str(now),
                };
                records.push(record);
                i = i + 1;
            },
            Err(e) => {
                counters.completed = counters.completed + 1;
                counters.failed = counters.failed + 1;
                let ghost tb = trace.events@;
                emit_progress(trace, "动作执行失败，事务已回滚", counters, &action, now);
                let ghost tc = trace.events@;
                let text = e.message();
                let reported = trace.emit(
                    Stage::Error,
                    "批量动作执行失败",
                    EventMeta::Reason { reason: text.clone(), retryable: true },
                    now,
                );
                proof {
                    assert(reported);
                    assert(trace.events@.take(tc.len() as int) == tc);
                    assert(tc.take(tb.len() as int) == tb);
                    assert(tb.take(t0.len() as int) == t0);
                    assert forall|k: int| 0 <= k < t0.len() implies trace.events@[k] == t0[k] by {
                        assert(trace.events@.take(tc.len() as int)[k] == tc[k]);
                        assert(tc.take(tb.len() as int)[k] == tb[k]);
                        assert(tb.take(t0.len() as int)[k] == t0[k]);
                    }
                    assert(trace.events@.take(t0.len() as int) =~= t0);
                }
                let failed = AgentExecutionAuditRecord {
                    id: joined(batch_id.as_str(), &action.id),
                    batch_id: batch_id.clone(),
                    action_id: action.id,
                    action_type: action.action_type,
                    payload: action.payload,
                    before_state: None,
                    after_state: None,
                    success: false,
                    error: Some(e.message()),
                    created_at: String::from_str(now),
                };
                proof {
                    assert(run_prefix(store@, acts, id_seed@, now@, (i + 1) as nat) == Err::<WorkbenchView, (int, Failure)>((i as int, e@)));
                    lemma_failure_stays(store@, acts, id_seed@, now@, (i + 1) as nat);
                }
                return AgentExecuteActionsResponse {
                    success: false,
                    batch_id,
                    message: text,
                    records: vec![failed],
                };
            },
        }
    }
    *store = working;
    AgentExecuteActionsResponse {
        success: true,
        batch_id,
        message: String::from_str("批量动作已执行"),
        records,
    }
}

/// Once a prefix of a batch has failed, every longer prefix fails the same way.
proof fn lemma_failure_stays(w: WorkbenchView, acts: Seq<ActionProposal>, seed: Seq<char>, now: Seq<char>, n: nat)
    requires
        n <= acts.len(),
        run_prefix(w, acts, seed, now, n) is Err,
    ensures
        run_batch(w, acts, seed, now) == run_prefix(w, acts, seed, now, n),
    decreases acts.len() - n,
{
    if n < acts.len() {
        assert(run_prefix(w, acts, seed, now, (n + 1) as nat) == run_prefix(w, acts, seed, now, n));
        lemma_failure_stays(w, acts, seed, now, (n + 1) as nat);
    }
}

/// A batch fails at index `k` exactly when every action before `k` took effect,
/// in order, and action `k` then failed: `k` is the first action to fail.
pub proof fn lemma_first_failure(w: WorkbenchView, acts: Seq<ActionProposal>, seed: Seq<char>, now: Seq<char>, k: int, f: Failure)
    requires
        run_batch(w, acts, seed, now) == Err::<WorkbenchView, (int, Failure)>((k, f)),
    ensures
        0 <= k < acts.len(),
        run_prefix(w, acts, seed, now, k as nat) is Ok,
        action_outcome(
            run_prefix(w, acts, seed, now, k as nat)->Ok_0,
            acts[k],
            fresh_id_for(seed, acts[k]),
            now,
        ) == Err::<WorkbenchView, Failure>(f),
{
    lemma_failure_index(w, acts, seed, now, acts.len());
    lemma_failure_point(w, acts, seed, now, acts.len(), k, f);
}

/// Where the first `n` actions fail at `k`, the prefix of `k` actions succeeded
/// and action `k` failed.
proof fn lemma_failure_point(w: WorkbenchView, acts: Seq<ActionProposal>, seed: Seq<char>, now: Seq<char>, n: nat, k: int, f: Failure)
    requires
        n <= acts.len(),
        run_prefix(w, acts, seed, now, n) == Err::<WorkbenchView, (int, Failure)>((k, f)),
    ensures
        run_prefix(w, acts, seed, now, k as nat) is Ok,
        0 <= k,
        action_outcome(
            run_prefix(w, acts, seed, now, k as nat)->Ok_0,
            acts[k],
            fresh_id_for(seed, acts[k]),
            now,
        ) == Err::<WorkbenchView, Failure>(f),
    decreases n,
{
    if n > 0 {
        let p = run_prefix(w, acts, seed, now, (n - 1) as nat);
        if p is Err {
            lemma_failure_point(w, acts, seed, now, (n - 1) as nat, k, f);
        } else {
            assert(k == n - 1);
        }
    }
}

/// A batch in which no action fails applies every action, in order: each
/// prefix of it succeeds too.
pub proof fn lemma_all_applied(w: WorkbenchView, acts: Seq<ActionProposal>, seed: Seq<char>, now: Seq<char>, n: nat)
    requires
        run_batch(w, acts, seed, now) is Ok,
        n <= acts.len(),
    ensures
        run_prefix(w, acts, seed, now, n) is Ok,
        n < acts.len() ==> action_outcome(
            run_prefix(w, acts, seed, now, n)->Ok_0,
            acts[n as int],
            fresh_id_for(seed, acts[n as int]),
            now,
        ) == Ok::<WorkbenchView, Failure>(run_prefix(w, acts, seed, now, n + 1)->Ok_0),
    decreases acts.len() - n,
{
    if n < acts.len() {
        lemma_all_applied(w, acts, seed, now, n + 1);
        if run_prefix(w, acts, seed, now, n) is Err {
            lemma_failure_stays(w, acts, seed, now, n);
        }
    } else {
    }
}

} // verus!
