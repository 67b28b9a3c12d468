//! The local runtime adapter's decisions: its configuration, the arguments it
//! runs the executable with, how a finished run is read, and the one reinforced
//! retry after a generic reply. Spawning the process and waiting on it with
//! the timeout is left to the caller.
use vstd::prelude::*;
use vstd::string::StringExecFns;
use crate::json::{JsonValue, json_document, parse_json, field, str_field, take_field};
use crate::normalize::{AgentChatResponse, NormalizeError, parse_llm_response, read_actions,
    actions_ok_opt, actions_match_opt, normalized, json_span};
use crate::text::{chars_of, string_from_chars, trim, trim_chars, contains, contains_chars,
    chars_equal, split_on, split_chars};

verus! {

/// The shortest timeout that an invocation gets, in milliseconds.
pub const MIN_TIMEOUT_MS: u64 = 1000;

/// Settings of the local runtime.
pub struct AgentCodexConfig {
    pub enabled: bool,
    pub binary_path: Option<String>,
    pub prefer_mcp: bool,
    pub exec_args: Vec<String>,
    pub mcp_args: Vec<String>,
    pub request_timeout_ms: u64,
}

/// The views of a list of strings.
pub open spec fn strings_view(v: Seq<String>) -> Seq<Seq<char>> {
    v.map_values(|s: String| s@)
}

pub open spec fn default_exec_args_spec() -> Seq<Seq<char>> {
    seq!["exec"@, "--json"@, "--skip-git-repo-check"@]
}

pub open spec fn default_mcp_args_spec() -> Seq<Seq<char>> {
    seq!["mcp-server"@]
}

pub fn default_true() -> (r: bool)
    ensures
        r,
{
    true
}

/// The arguments that run one request: `exec --json --skip-git-repo-check`.
pub fn default_codex_exec_args() -> (r: Vec<String>)
    ensures
        strings_view(r@) == default_exec_args_spec(),
{
    let r = vec![
        String::from_str("exec"),
        String::from_str("--json"),
        String::from_str("--skip-git-repo-check"),
    ];
    assert(strings_view(r@) =~= default_exec_args_spec());
    r
}

/// The arguments of the rich channel: `mcp-server`.
pub fn default_codex_mcp_args() -> (r: Vec<String>)
    ensures
        strings_view(r@) == default_mcp_args_spec(),
{
    let r = vec![String::from_str("mcp-server")];
    assert(strings_view(r@) =~= default_mcp_args_spec());
    r
}

/// Two minutes.
pub fn default_codex_timeout_ms() -> (r: u64)
    ensures
        r == 120_000,
{
    120_000
}

impl Default for AgentCodexConfig {
    fn default() -> (r: Self)
        ensures
            r.enabled,
            r.binary_path is None,
            r.prefer_mcp,
            strings_view(r.exec_args@) == default_exec_args_spec(),
            strings_view(r.mcp_args@) == default_mcp_args_spec(),
            r.request_timeout_ms == 120_000,
    {
        AgentCodexConfig {
            enabled: default_true(),
            binary_path: None,
            prefer_mcp: default_true(),
            exec_args: default_codex_exec_args(),
            mcp_args: default_codex_mcp_args(),
            request_timeout_ms: default_codex_timeout_ms(),
        }
    }
}

/// The timeout that an invocation runs under: the configured one, but never
/// less than `MIN_TIMEOUT_MS`.
pub fn effective_timeout_ms(configured: u64) -> (r: u64)
    ensures
        r == if configured < MIN_TIMEOUT_MS { MIN_TIMEOUT_MS } else { configured },
{
    if configured < MIN_TIMEOUT_MS {
        MIN_TIMEOUT_MS
    } else {
        configured
    }
}

/// A copy of a list of strings.
pub fn copy_strings(v: &Vec<String>) -> (r: Vec<String>)
    ensures
        strings_view(r@) == strings_view(v@),
{
    let mut out: Vec<String> = Vec::new();
    let mut i: usize = 0;
    while i < v.len()
        invariant
            i <= v@.len(),
            strings_view(out@) == strings_view(v@).take(i as int),
        decreases v.len() - i,
    {
        let ghost prev = out@;
        out.push(v[i].clone());
        assert(strings_view(out@) =~= strings_view(prev).push(v@[i as int]@));
        i += 1;
        assert(strings_view(out@) =~= strings_view(v@).take(i as int));
    }
    assert(strings_view(v@).take(i as int) =~= strings_view(v@));
    out
}

/// The configured arguments, or the defaults where none are configured.
pub open spec fn args_or(configured: Seq<String>, defaults: Seq<Seq<char>>) -> Seq<Seq<char>> {
    if configured.len() == 0 {
        defaults
    } else {
        strings_view(configured)
    }
}

/// The arguments of one invocation: the configured arguments (or the default
/// ones) followed by the prompt.
pub fn exec_invocation_args(config: &AgentCodexConfig, prompt: &str) -> (r: Vec<String>)
    ensures
        strings_view(r@) == args_or(config.exec_args@, default_exec_args_spec()).push(prompt@),
{
    let mut args = if config.exec_args.len() == 0 {
        default_codex_exec_args()
    } else {
        copy_strings(&config.exec_args)
    };
    let ghost before = args@;
    args.push(String::from_str(prompt));
    assert(strings_view(args@) =~= strings_view(before).push(prompt@));
    args
}

/// A channel of the local runtime that a health probe tests.
#[derive(Clone, Copy, Debug, PartialEq, Eq, Structural)]
pub enum ProbeChannel {
    Mcp,
    Exec,
}

/// The arguments of a health probe: the channel's arguments (or its defaults)
/// followed by `--help`.
pub fn probe_args(config: &AgentCodexConfig, channel: ProbeChannel) -> (r: Vec<String>)
    ensures
        strings_view(r@) == (match channel {
            ProbeChannel::Mcp => args_or(config.mcp_args@, default_mcp_args_spec()),
            ProbeChannel::Exec => args_or(config.exec_args@, default_exec_args_spec()),
        }).push("--help"@),
{
    let mut args = match channel {
        ProbeChannel::Mcp => if config.mcp_args.len() == 0 {
            default_codex_mcp_args()
        } else {
            copy_strings(&config.mcp_args)
        },
        ProbeChannel::Exec => if config.exec_args.len() == 0 {
            default_codex_exec_args()
        } else {
            copy_strings(&config.exec_args)
        },
    };
    let ghost before = args@;
    args.push(String::from_str("--help"));
    assert(strings_view(args@) =~= strings_view(before).push("--help"@));
    args
}

/// How a run of the executable ended, as the caller saw it.
pub enum RunOutcome {
    /// The timeout expired first; the run was abandoned.
    TimedOut,
    /// The process could not be started or waited on.
    SpawnFailed(String),
    /// The process exited; `status` describes the exit status.
    Exited { success: bool, status: String, stdout: String, stderr: String },
}

/// Why the local runtime gave no output.
pub enum RuntimeError {
    NotFound(String),
    Disabled,
    Timeout,
    SpawnFailed(String),
    NonZeroExit { status: String, stderr: String },
    EmptyOutput,
}

/// What the runtime's output says: a structured reply, or text.
pub enum RuntimeReply {
    Structured { reply: String, actions: Option<JsonValue> },
    Text(String),
}

/// The state of a scan over output lines: a structured record was found, or
/// the text of the last agent message so far.
pub enum ScanView {
    Found(Seq<char>, Option<JsonValue>),
    Last(Option<Seq<char>>),
}

/// The lines of `s`.
pub open spec fn lines_of(s: Seq<char>) -> Seq<Seq<char>> {
    split_on(s, '\n')
}

/// The JSON record on a line, where the trimmed line starts with `{` and parses.
pub open spec fn line_record(line: Seq<char>) -> Option<JsonValue> {
    let t = trim(line);
    if t.len() > 0 && t[0] == '{' {
        json_document(t)
    } else {
        None
    }
}

/// The `payload.reply` string of a record.
pub open spec fn payload_reply(v: JsonValue) -> Option<Seq<char>> {
    match field(v, "payload"@) {
        Some(p) => str_field(p, "reply"@),
        None => None,
    }
}

/// The `payload.actions` member of a record.
pub open spec fn payload_actions(v: JsonValue) -> Option<JsonValue> {
    match field(v, "payload"@) {
        Some(p) => field(p, "actions"@),
        None => None,
    }
}

/// The `item.text` of a record whose `item.type` is `agent_message`.
pub open spec fn agent_message_text(v: JsonValue) -> Option<Seq<char>> {
    match field(v, "item"@) {
        Some(it) => if str_field(it, "type"@) == Some("agent_message"@) {
            str_field(it, "text"@)
        } else {
            None
        },
        None => None,
    }
}

/// The scan after the first `n` lines: the first record with `payload.reply`
/// wins; else the last agent message counts.
pub open spec fn scan_lines(lines: Seq<Seq<char>>, n: nat) -> ScanView
    decreases n,
{
    if n == 0 {
        ScanView::Last(None)
    } else {
        match scan_lines(lines, (n - 1) as nat) {
            ScanView::Found(r, a) => ScanView::Found(r, a),
            ScanView::Last(c) => match line_record(lines[n - 1]) {
                Some(v) => match payload_reply(v) {
                    Some(r) => ScanView::Found(r, payload_actions(v)),
                    None => match agent_message_text(v) {
                        Some(t) => ScanView::Last(Some(t)),
                        None => ScanView::Last(c),
                    },
                },
                None => ScanView::Last(c),
            },
        }
    }
}

/// `r` is what the output `stdout` says.
pub open spec fn reply_of(stdout: Seq<char>, r: RuntimeReply) -> bool {
    match scan_lines(lines_of(stdout), lines_of(stdout).len()) {
        ScanView::Found(reply, actions) => r matches RuntimeReply::Structured { reply: x, actions: a }
            && x@ == reply && a == actions,
        ScanView::Last(Some(t)) => r matches RuntimeReply::Text(x) && x@ == t,
        ScanView::Last(None) => r matches RuntimeReply::Text(x) && x@ == stdout,
    }
}

/// Reads the runtime's standard output: the first line whose JSON record has
/// `payload.reply` gives a structured reply with its `payload.actions`; else the
/// text of the last `agent_message` record; else the whole output as text.
pub fn extract_codex_last_message(stdout: &str) -> (r: RuntimeReply)
    ensures
        reply_of(stdout@, r),
{
    let cs = chars_of(stdout);
    let lines = split_chars(&cs, '\n');
    let ghost ls = lines_of(stdout@);
    let mut candidate: Option<String> = None;
    let mut i: usize = 0;
    while i < lines.len()
        invariant
            i <= lines@.len(),
            lines@.map_values(|l: Vec<char>| l@) == ls,
            ls == lines_of(stdout@),
            scan_lines(ls, i as nat) == ScanView::Last(match candidate {
                Some(c) => Some(c@),
                None => None,
            }),
        decreases lines.len() - i,
    {
        let ghost line = ls[i as int];
        assert(lines@[i as int]@ == line);
        let t = trim_chars(&lines[i]);
        if t.len() > 0 && t[0] == '{' {
            let text = string_from_chars(t.as_slice());
            let parsed = parse_json(text.as_str());
            assert(parsed == line_record(line));
            if let Some(v) = parsed {
                let reply = match v.get("payload") {
                    Some(p) => match p.get_str("reply") {
                        Some(s) => Some(s.clone()),
                        None => None,
                    },
                    None => None,
                };
                match reply {
                    Some(r) => {
                        let actions = match take_field(v, "payload") {
                            Some(p) => take_field(p, "actions"),
                            None => None,
                        };
                        proof {
                            lemma_found_stays(ls, (i + 1) as nat);
                        }
                        return RuntimeReply::Structured { reply: r, actions };
                    },
                    None => {
                        let text = match v.get("item") {
                            Some(item) => {
                                let kind = item.get_str("type");
                                let is_message = match kind {
                                    Some(k) => {
                                        let kc = chars_of(k.as_str());
                                        let want = chars_of("agent_message");
                                        chars_equal(&kc, &want)
                                    },
                                    None => false,
                                };
                                if is_message {
                                    match item.get_str("text") {
                                        Some(x) => Some(x.clone()),
                                        None => None,
                                    }
                                } else {
                                    None
                                }
                            },
                            None => None,
                        };
                        if text.is_some() {
                            candidate = text;
                        }
                    },
                }
            }
        }
        i += 1;
    }
    assert(i == ls.len());
    match candidate {
        Some(c) => RuntimeReply::Text(c),
        None => RuntimeReply::Text(String::from_str(stdout)),
    }
}

/// Once a structured record is found, later lines do not change the scan.
proof fn lemma_found_stays(lines: Seq<Seq<char>>, n: nat)
    requires
        n <= lines.len(),
        scan_lines(lines, n) is Found,
    ensures
        scan_lines(lines, lines.len()) == scan_lines(lines, n),
    decreases lines.len() - n,
{
    if n < lines.len() {
        lemma_found_stays(lines, n + 1);
    }
}

/// The text that reports a runtime error.
pub open spec fn runtime_error_text(e: RuntimeError) -> Seq<char> {
    match e {
        RuntimeError::NotFound(m) => m@,
        RuntimeError::Disabled => "Codex local runtime is disabled"@,
        RuntimeError::Timeout => "Codex exec timed out"@,
        RuntimeError::SpawnFailed(m) => "Failed to run codex exec: "@ + m@,
        RuntimeError::NonZeroExit { status, stderr } => "Codex exec failed (status "@ + status@ + "): "@
            + stderr@,
        RuntimeError::EmptyOutput => "Codex exec returned empty output"@,
    }
}

impl RuntimeError {
    /// The text that reports this error.
    pub fn message(&self) -> (r: String)
        ensures
            r@ == runtime_error_text(*self),
    {
        match self {
            RuntimeError::NotFound(m) => m.clone(),
            RuntimeError::Disabled => String::from_str("Codex local runtime is disabled"),
            RuntimeError::Timeout => String::from_str("Codex exec timed out"),
            RuntimeError::SpawnFailed(m) => {
                let mut s = String::from_str("Failed to run codex exec: ");
                s.append(m.as_str());
                s
            },
            RuntimeError::NonZeroExit { status, stderr } => {
                let mut s = String::from_str("Codex exec failed (status ");
                s.append(status.as_str());
                s.append("): ");
                s.append(stderr.as_str());
                s
            },
            RuntimeError::EmptyOutput => String::from_str("Codex exec returned empty output"),
        }
    }
}

/// The error of a run that exited, or what its output says.
/// A run that timed out is `Timeout`; one that could not start is
/// `SpawnFailed`; a failed exit is `NonZeroExit` with the trimmed standard error
/// (or `no stderr`); a successful exit with blank output is `EmptyOutput`.
pub open spec fn outcome_ok(outcome: RunOutcome, r: Result<RuntimeReply, RuntimeError>) -> bool {
    match outcome {
        RunOutcome::TimedOut => r matches Err(RuntimeError::Timeout),
        RunOutcome::SpawnFailed(m) => r matches Err(RuntimeError::SpawnFailed(x)) && x@ == m@,
        RunOutcome::Exited { success, status, stdout, stderr } => if success {
            if trim(stdout@).len() == 0 {
                r matches Err(RuntimeError::EmptyOutput)
            } else {
                r is Ok && reply_of(trim(stdout@), r->Ok_0)
            }
        } else {
            r matches Err(RuntimeError::NonZeroExit { status: st, stderr: e }) && st@ == status@
                && e@ == (if trim(stderr@).len() == 0 {
                "no stderr"@
            } else {
                trim(stderr@)
            })
        },
    }
}

/// Reads how a run of the executable ended.
pub fn interpret_exec_outcome(outcome: RunOutcome) -> (r: Result<RuntimeReply, RuntimeError>)
    ensures
        outcome_ok(outcome, r),
{
    match outcome {
        RunOutcome::TimedOut => Err(RuntimeError::Timeout),
        RunOutcome::SpawnFailed(m) => Err(RuntimeError::SpawnFailed(m)),
        RunOutcome::Exited { success, status, stdout, stderr } => {
            if success {
                let t = trim_chars(&chars_of(stdout.as_str()));
                if t.len() == 0 {
                    Err(RuntimeError::EmptyOutput)
                } else {
                    let text = string_from_chars(t.as_slice());
                    Ok(extract_codex_last_message(text.as_str()))
                }
            } else {
                let t = trim_chars(&chars_of(stderr.as_str()));
                let stderr = if t.len() == 0 {
                    String::from_str("no stderr")
                } else {
                    string_from_chars(t.as_slice())
                };
                Err(RuntimeError::NonZeroExit { status, stderr })
            }
        },
    }
}

/// The reply and actions that the runtime's output gives: a structured reply
/// keeps its text and reads its actions; text is normalised.
pub fn normalize_runtime_reply(reply: RuntimeReply) -> (r: Result<AgentChatResponse, NormalizeError>)
    ensures
        match reply {
            RuntimeReply::Structured { reply: text, actions } => if actions_ok_opt(actions) {
                r is Ok && r->Ok_0.reply@ == text@ && actions_match_opt(actions, r->Ok_0.actions@)
            } else {
                r == Err::<AgentChatResponse, NormalizeError>(NormalizeError::MalformedActions)
            },
            RuntimeReply::Text(t) => normalized(t@, json_document(json_span(t@)), r),
        },
{
    match reply {
        RuntimeReply::Structured { reply, actions } => match read_actions(actions) {
            Ok(acts) => Ok(AgentChatResponse { reply, actions: acts }),
            Err(e) => Err(e),
        },
        RuntimeReply::Text(t) => parse_llm_response(t.as_str()),
    }
}

/// The text that reports a normalisation error.
pub open spec fn normalize_error_text(e: NormalizeError) -> Seq<char> {
    match e {
        NormalizeError::EmptyOutput => "LLM returned empty content"@,
        NormalizeError::MalformedActions => "LLM actions parse failed"@,
    }
}

impl NormalizeError {
    /// The text that reports this error.
    pub fn message(&self) -> (r: String)
        ensures
            r@ == normalize_error_text(*self),
    {
        match self {
            NormalizeError::EmptyOutput => String::from_str("LLM returned empty content"),
            NormalizeError::MalformedActions => String::from_str("LLM actions parse failed"),
        }
    }
}

/// The lower-case form of `s`, as `str::to_lowercase` gives it.
pub uninterp spec fn lowercase_of(s: Seq<char>) -> Seq<char>;

/// Relies on `str::to_lowercase`: the result depends on the characters alone.
#[verifier::external_body]
pub(crate) fn to_lowercase(s: &str) -> (r: String)
    ensures
        r@ == lowercase_of(s@),
{
    s.to_lowercase()
}

/// Marks of a generic, templated self-introduction: fragments that may occur
/// anywhere in the reply, and whole replies.
pub struct TemplateMarkers {
    pub fragments: Vec<String>,
    pub whole: Vec<String>,
}

/// `text` holds one of `fragments`, or is one of `whole`.
pub open spec fn matches_markers(text: Seq<char>, fragments: Seq<Seq<char>>, whole: Seq<Seq<char>>) -> bool {
    (exists|i: int| 0 <= i < fragments.len() && contains(text, #[trigger] fragments[i])) || (exists|
        j: int,
    |
        0 <= j < whole.len() && text == #[trigger] whole[j])
}

pub open spec fn default_fragments() -> Seq<Seq<char>> {
    seq!["基于 codex"@, "gpt-5"@]
}

pub open spec fn default_whole() -> Seq<Seq<char>> {
    seq![
        "我是 zhaoxi workbench agent。你可以直接告诉我你的安排目标，我会先给出可执行计划，再由你确认执行。"@,
    ]
}

/// The markers of the known boilerplate replies.
pub fn default_template_markers() -> (r: TemplateMarkers)
    ensures
        strings_view(r.fragments@) == default_fragments(),
        strings_view(r.whole@) == default_whole(),
{
    let r = TemplateMarkers {
        fragments: vec![String::from_str("基于 codex"), String::from_str("gpt-5")],
        whole: vec![
            String::from_str(
                "我是 zhaoxi workbench agent。你可以直接告诉我你的安排目标，我会先给出可执行计划，再由你确认执行。",
            ),
        ],
    };
    assert(strings_view(r.fragments@) =~= default_fragments());
    assert(strings_view(r.whole@) =~= default_whole());
    r
}

/// Whether the already folded text `folded` matches the markers.
pub fn matches_template(folded: &str, markers: &TemplateMarkers) -> (r: bool)
    ensures
        r == matches_markers(folded@, strings_view(markers.fragments@), strings_view(markers.whole@)),
{
    let text = chars_of(folded);
    let ghost fr = strings_view(markers.fragments@);
    let ghost wh = strings_view(markers.whole@);
    let mut i: usize = 0;
    while i < markers.fragments.len()
        invariant
            i <= markers.fragments@.len(),
            text@ == folded@,
            fr == strings_view(markers.fragments@),
            forall|k: int| 0 <= k < i ==> !contains(folded@, #[trigger] fr[k]),
        decreases markers.fragments.len() - i,
    {
        let pat = chars_of(markers.fragments[i].as_str());
        if contains_chars(&text, &pat) {
            assert(contains(folded@, fr[i as int]));
            return true;
        }
        i += 1;
    }
    let mut j: usize = 0;
    while j < markers.whole.len()
        invariant
            j <= markers.whole@.len(),
            text@ == folded@,
            fr == strings_view(markers.fragments@),
            wh == strings_view(markers.whole@),
            forall|k: int| 0 <= k < fr.len() ==> !contains(folded@, #[trigger] fr[k]),
            forall|k: int| 0 <= k < j ==> folded@ != #[trigger] wh[k],
        decreases markers.whole.len() - j,
    {
        let w = chars_of(markers.whole[j].as_str());
        if chars_equal(&text, &w) {
            assert(folded@ == wh[j as int]);
            return true;
        }
        j += 1;
    }
    false
}

/// A reply is generic under `markers` when, trimmed and folded to lower case,
/// it matches them.
pub open spec fn generic_under(reply: Seq<char>, markers: TemplateMarkers) -> bool {
    matches_markers(
        lowercase_of(trim(reply)),
        strings_view(markers.fragments@),
        strings_view(markers.whole@),
    )
}

/// A reply is generic when it matches the known boilerplate.
pub open spec fn generic_reply(reply: Seq<char>) -> bool {
    matches_markers(lowercase_of(trim(reply)), default_fragments(), default_whole())
}

/// Whether `reply`, trimmed and folded to lower case, matches `markers`.
pub fn is_generic_reply(reply: &str, markers: &TemplateMarkers) -> (r: bool)
    ensures
        r == generic_under(reply@, *markers),
{
    let t = crate::text::trim_string(reply);
    let folded = to_lowercase(t.as_str());
    matches_template(folded.as_str(), markers)
}

/// Whether `reply` is a known generic self-introduction.
pub fn is_generic_identity_reply(reply: &str) -> (r: bool)
    ensures
        r == generic_reply(reply@),
{
    let markers = default_template_markers();
    is_generic_reply(reply, &markers)
}

/// The prompt of the reinforced retry.
pub open spec fn reinforced_prompt_spec(prompt: Seq<char>) -> Seq<char> {
    prompt + "\n\n请注意：不要做身份介绍，也不要回复固定模板。请直接回答用户最后一个问题，并给出可执行动作（如果需要）。"@
}

/// The prompt of the reinforced retry: the first prompt with an instruction
/// not to answer with a template.
pub fn reinforced_prompt(prompt: &str) -> (r: String)
    ensures
        r@ == reinforced_prompt_spec(prompt@),
{
    let mut s = String::from_str(prompt);
    s.append("\n\n请注意：不要做身份介绍，也不要回复固定模板。请直接回答用户最后一个问题，并给出可执行动作（如果需要）。");
    s
}

/// A result that asks for the reinforced retry: a reply that is generic under
/// `markers`, with no actions, after the first invocation.
pub open spec fn asks_retry(invocations: u8, markers: TemplateMarkers, result: Result<AgentChatResponse, String>) -> bool {
    invocations == 1 && result is Ok && generic_under(result->Ok_0.reply@, markers)
        && result->Ok_0.actions@.len() == 0
}

/// The number of invocations once `result` has been taken.
pub open spec fn invocations_after(invocations: u8, markers: TemplateMarkers, result: Result<AgentChatResponse, String>) -> u8 {
    if asks_retry(invocations, markers, result) {
        2
    } else {
        invocations
    }
}

/// What to do after an invocation of the local runtime.
pub enum RuntimeStep {
    /// Invoke the runtime again, with this prompt.
    Invoke(String),
    /// The adapter is done, with this result.
    Finish(Result<AgentChatResponse, String>),
}

/// A run of the local runtime adapter for one prompt: at most two
/// invocations, the second one only after a generic reply with no actions.
/// The markers of generic replies are part of the session's configuration.
pub struct LocalRuntimeSession {
    pub prompt: String,
    pub markers: TemplateMarkers,
    pub invocations: u8,
}

impl LocalRuntimeSession {
    /// A session whose first invocation uses `prompt`, which also comes back.
    pub fn start(prompt: String, markers: TemplateMarkers) -> (r: (LocalRuntimeSession, String))
        ensures
            r.0.invocations == 1,
            r.0.prompt@ == prompt@,
            r.0.markers == markers,
            r.1@ == prompt@,
    {
        let first = prompt.clone();
        (LocalRuntimeSession { prompt, markers, invocations: 1 }, first)
    }

    /// Takes the result of the latest invocation. After the first one, a
    /// generic reply with no actions asks for one more invocation with the
    /// reinforced prompt; every other result, and any result of the second
    /// invocation, finishes the session.
    pub fn on_result(&mut self, result: Result<AgentChatResponse, String>) -> (r: RuntimeStep)
        requires
            1 <= old(self).invocations <= 2,
        ensures
            final(self).prompt == old(self).prompt,
            final(self).markers == old(self).markers,
            final(self).invocations == invocations_after(old(self).invocations, old(self).markers, result),
            match r {
                RuntimeStep::Invoke(p) => asks_retry(old(self).invocations, old(self).markers, result)
                    && p@ == reinforced_prompt_spec(old(self).prompt@),
                RuntimeStep::Finish(x) => !asks_retry(old(self).invocations, old(self).markers, result)
                    && x == result,
            },
    {
        if self.invocations == 1 {
            if let Ok(resp) = &result {
                if resp.actions.len() == 0 && is_generic_reply(resp.reply.as_str(), &self.markers) {
                    self.invocations = 2;
                    return RuntimeStep::Invoke(reinforced_prompt(self.prompt.as_str()));
                }
            }
        }
        RuntimeStep::Finish(result)
    }
}

/// What a health check found of the local runtime.
pub struct AgentCodexHealth {
    pub found: bool,
    pub binary: Option<String>,
    pub mcp_available: bool,
    pub exec_available: bool,
    pub message: String,
}

/// The report of a health check: whether the executable was found, and which
/// probes answered. The probes only report; they never decide whether an
/// invocation is made.
pub fn agent_codex_health(binary: Option<String>, mcp_available: bool, exec_available: bool) -> (r: AgentCodexHealth)
    ensures
        r.found == binary is Some,
        r.binary == binary,
        r.mcp_available == (binary is Some && mcp_available),
        r.exec_available == (binary is Some && exec_available),
        r.message@ == (if binary is None {
            "未找到 codex 可执行文件"@
        } else if mcp_available || exec_available {
            "Codex 本地运行时可用"@
        } else {
            "Codex 已找到，但 mcp/exec 探测均失败"@
        }),
{
    match binary {
        None => AgentCodexHealth {
            found: false,
            binary: None,
            mcp_available: false,
            exec_available: false,
            message: String::from_str("未找到 codex 可执行文件"),
        },
        Some(b) => {
            let message = if mcp_available || exec_available {
                String::from_str("Codex 本地运行时可用")
            } else {
                String::from_str("Codex 已找到，但 mcp/exec 探测均失败")
            };
            AgentCodexHealth {
                found: true,
                binary: Some(b),
                mcp_available,
                exec_available,
                message,
            }
        },
    }
}

/// Two generic replies in a row lead to exactly one reinforced retry: the
/// first asks for it, and the second, coming from the retry, finishes the
/// session whatever it holds.
pub proof fn lemma_one_reinforced_retry(markers: TemplateMarkers, first: Result<AgentChatResponse, String>, second: Result<AgentChatResponse, String>)
    requires
        first is Ok,
        generic_under(first->Ok_0.reply@, markers),
        first->Ok_0.actions@.len() == 0,
    ensures
        asks_retry(1, markers, first),
        invocations_after(1, markers, first) == 2,
        !asks_retry(invocations_after(1, markers, first), markers, second),
        invocations_after(invocations_after(1, markers, first), markers, second) == 2,
{
}

} // verus!
