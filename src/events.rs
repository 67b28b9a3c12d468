//! Stage events: the ordered record of one request's progress.
use vstd::prelude::*;
use vstd::string::StringExecFns;

verus! {

/// A stage of a request, in the order in which a request passes them.
#[derive(Clone, Copy, Debug, PartialEq, Eq, Structural)]
pub enum Stage {
    RuntimeDetect,
    McpConnect,
    ExecFallback,
    Planning,
    Executing,
    Error,
    Fallback,
    Completed,
}

/// The position of a stage in a request's life.
pub open spec fn stage_rank(s: Stage) -> nat {
    match s {
        Stage::RuntimeDetect => 0,
        Stage::McpConnect => 1,
        Stage::ExecFallback => 2,
        Stage::Planning => 3,
        Stage::Executing => 4,
        Stage::Error => 5,
        Stage::Fallback => 6,
        Stage::Completed => 7,
    }
}

/// The wire name of a stage.
pub open spec fn stage_name(s: Stage) -> Seq<char> {
    match s {
        Stage::RuntimeDetect => "runtime_detect"@,
        Stage::McpConnect => "mcp_connect"@,
        Stage::ExecFallback => "exec_fallback"@,
        Stage::Planning => "planning"@,
        Stage::Executing => "executing"@,
        Stage::Error => "error"@,
        Stage::Fallback => "fallback"@,
        Stage::Completed => "completed"@,
    }
}

impl Stage {
    /// The position of this stage in a request's life.
    pub fn rank(&self) -> (r: u8)
        ensures
            r as nat == stage_rank(*self),
    {
        match self {
            Stage::RuntimeDetect => 0,
            Stage::McpConnect => 1,
            Stage::ExecFallback => 2,
            Stage::Planning => 3,
            Stage::Executing => 4,
            Stage::Error => 5,
            Stage::Fallback => 6,
            Stage::Completed => 7,
        }
    }

    /// The wire name of this stage.
    pub fn name(&self) -> (r: &'static str)
        ensures
            r@ == stage_name(*self),
    {
        match self {
            Stage::RuntimeDetect => "runtime_detect",
            Stage::McpConnect => "mcp_connect",
            Stage::ExecFallback => "exec_fallback",
            Stage::Planning => "planning",
            Stage::Executing => "executing",
            Stage::Error => "error",
            Stage::Fallback => "fallback",
            Stage::Completed => "completed",
        }
    }
}

/// Running counters of a batch.
#[derive(Clone, Copy, Debug, PartialEq, Eq, Structural)]
pub struct BatchCounters {
    pub total: usize,
    pub completed: usize,
    pub success: usize,
    pub failed: usize,
}

/// What an event carries besides its message.
pub enum EventMeta {
    Nothing,
    /// The number of actions about to run.
    Count(usize),
    /// Batch counters, with the type and id of the action just attempted.
    Progress { counters: BatchCounters, action_type: Option<String>, action_id: Option<String> },
    /// Why a stage failed.
    Reason { reason: String, retryable: bool },
    /// The local runtime that was found.
    Binary(String),
}

/// One stage event of a request. `sequence` is its position in the request's
/// trace.
pub struct AgentStreamEvent {
    pub request_id: String,
    pub stage: Stage,
    pub message: String,
    pub meta: EventMeta,
    pub created_at: String,
    pub sequence: usize,
}

/// The events of one request, in the order in which they were made.
pub struct RequestTrace {
    pub request_id: String,
    pub events: Vec<AgentStreamEvent>,
}

impl RequestTrace {
    /// Every event belongs to this request, sits at its own sequence number,
    /// and no event has a stage earlier than one before it.
    pub open spec fn wf(&self) -> bool {
        &&& forall|i: int|
            0 <= i < self.events@.len() ==> (#[trigger] self.events@[i]).request_id@
                == self.request_id@ && self.events@[i].sequence == i
        &&& forall|i: int, j: int|
            0 <= i <= j < self.events@.len() ==> stage_rank(self.events@[i].stage) <= stage_rank(
                self.events@[j].stage,
            )
    }

    /// The stage of the last event, if any.
    pub open spec fn last_rank(&self) -> nat {
        if self.events@.len() == 0 {
            0
        } else {
            stage_rank(self.events@.last().stage)
        }
    }

    /// Whether an event of stage `s` may come next.
    pub open spec fn accepts(&self, s: Stage) -> bool {
        self.last_rank() <= stage_rank(s)
    }

    /// A trace with no events yet.
    pub fn new(request_id: String) -> (r: RequestTrace)
        ensures
            r.wf(),
            r.request_id@ == request_id@,
            r.events@.len() == 0,
    {
        RequestTrace { request_id, events: Vec::new() }
    }

    /// Whether an event of stage `s` may come next.
    pub fn can_emit(&self, s: Stage) -> (r: bool)
        requires
            self.wf(),
        ensures
            r == self.accepts(s),
    {
        let n = self.events.len();
        if n == 0 {
            return true;
        }
        self.events[n - 1].stage.rank() <= s.rank()
    }

    /// Appends an event of stage `stage`, where it may come next; an event that
    /// would go back to an earlier stage is dropped.
    pub fn emit(&mut self, stage: Stage, message: &str, meta: EventMeta, created_at: &str) -> (r: bool)
        requires
            old(self).wf(),
        ensures
            final(self).wf(),
            final(self).request_id == old(self).request_id,
            r == old(self).accepts(stage),
            r ==> final(self).events@.len() == old(self).events@.len() + 1 && final(self).events@.take(
                old(self).events@.len() as int,
            ) == old(self).events@ && final(self).events@.last().stage == stage
                && final(self).events@.last().message@ == message@,
            !r ==> final(self).events@ == old(self).events@,
    {
        if !self.can_emit(stage) {
            return false;
        }
        let ghost before = self.events@;
        let event = AgentStreamEvent {
            request_id: self.request_id.clone(),
            stage,
            message: String::from_str(message),
            meta,
            created_at: String::from_str(created_at),
            sequence: self.events.len(),
        };
        self.events.push(event);
        assert(self.events@.take(before.len() as int) =~= before);
        assert forall|i: int, j: int|
            0 <= i <= j < self.events@.len() implies stage_rank(self.events@[i].stage)
                <= stage_rank(self.events@[j].stage) by {
            if j == before.len() && i < j {
                assert(stage_rank(before[i].stage) <= stage_rank(before.last().stage));
            }
        }
        true
    }
}

/// In a well-formed trace, events are ordered by stage and belong to the trace's
/// request alone: for any two events, the earlier one has the same request id
/// and a stage no later than the other's.
pub proof fn lemma_trace_ordered(t: &RequestTrace, i: int, j: int)
    requires
        t.wf(),
        0 <= i < j < t.events@.len(),
    ensures
        t.events@[i].request_id@ == t.request_id@,
        t.events@[j].request_id@ == t.request_id@,
        t.events@[i].sequence < t.events@[j].sequence,
        stage_rank(t.events@[i].stage) <= stage_rank(t.events@[j].stage),
{
}

} // verus!
