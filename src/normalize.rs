//! Tolerant normalisation of model output into a reply and proposed actions.
use vstd::prelude::*;
use vstd::string::StringExecFns;
use crate::action::ActionProposal;
use crate::json::{JsonValue, json_document, parse_json, field, str_field, bool_field, take_field};
use crate::text::{chars_of, string_from_chars, slice_chars, trim, trim_start, trim_chars, all_white,
    is_white, occurs_at, first_at, last_at, contains, find_first, find_last};

verus! {

/// The tag that opens a fenced JSON block.
pub open spec fn fence_open() -> Seq<char> {
    seq!['`', '`', '`', 'j', 's', 'o', 'n']
}

/// The mark that closes a fenced block.
pub open spec fn fence_close() -> Seq<char> {
    seq!['`', '`', '`']
}

/// The first index at which `pat` occurs in `s`.
pub open spec fn first_index(s: Seq<char>, pat: Seq<char>) -> int {
    choose|i: int| first_at(s, pat, i)
}

/// The last index at which `pat` occurs in `s`.
pub open spec fn last_index(s: Seq<char>, pat: Seq<char>) -> int {
    choose|i: int| last_at(s, pat, i)
}

/// The text that follows the first opening fence, where there is one.
pub open spec fn after_fence(s: Seq<char>) -> Seq<char> {
    s.subrange(first_index(s, fence_open()) + 7, s.len() as int)
}

/// The part of model output that should hold its JSON object: the trimmed
/// interior of the first fenced JSON block that is closed; else the span from
/// the first `{` to the last `}`; else the whole trimmed text.
pub open spec fn json_span(s: Seq<char>) -> Seq<char> {
    if contains(s, fence_open()) && contains(after_fence(s), fence_close()) {
        trim(after_fence(s).subrange(0, first_index(after_fence(s), fence_close())))
    } else if contains(s, seq!['{']) && contains(s, seq!['}']) && first_index(s, seq!['{'])
        <= last_index(s, seq!['}']) {
        s.subrange(first_index(s, seq!['{']), last_index(s, seq!['}']) + 1)
    } else {
        trim(s)
    }
}

/// The part of `content` that should hold its JSON object.
pub fn extract_json_block(content: &str) -> (r: String)
    ensures
        r@ == json_span(content@),
{
    let s = chars_of(content);
    let open = vec!['`', '`', '`', 'j', 's', 'o', 'n'];
    let close = vec!['`', '`', '`'];
    assert(open@ =~= fence_open());
    assert(close@ =~= fence_close());
    if let Some(start) = find_first(&s, &open) {
        assert(start + 7 <= s@.len() == s.len());
        let rest = slice_chars(&s, start + 7, s.len());
        assert(rest@ =~= after_fence(s@));
        if let Some(end) = find_first(&rest, &close) {
            let inner = slice_chars(&rest, 0, end);
            let t = trim_chars(&inner);
            return string_from_chars(t.as_slice());
        }
    }
    let lb = vec!['{'];
    let rb = vec!['}'];
    assert(lb@ =~= seq!['{']);
    assert(rb@ =~= seq!['}']);
    if let Some(a) = find_first(&s, &lb) {
        if let Some(b) = find_last(&s, &rb) {
            if a <= b {
                assert(b + 1 <= s@.len() == s.len());
                let span = slice_chars(&s, a, b + 1);
                return string_from_chars(span.as_slice());
            }
        }
    }
    let t = trim_chars(&s);
    string_from_chars(t.as_slice())
}

/// A reply and the actions that come with it.
pub struct AgentChatResponse {
    pub reply: String,
    pub actions: Vec<ActionProposal>,
}

/// Why model output could not be normalised.
#[derive(Clone, Copy, Debug, PartialEq, Eq, Structural)]
pub enum NormalizeError {
    /// The output is empty or whitespace.
    EmptyOutput,
    /// The output's `actions` is not a list of well-shaped proposals.
    MalformedActions,
}

/// The reply used where the JSON object has none.
pub open spec fn default_reply() -> Seq<char> {
    "已生成建议。"@
}

/// `e` has every member of a proposal, each of the right kind.
pub open spec fn is_proposal_value(e: JsonValue) -> bool {
    &&& str_field(e, "id"@) is Some
    &&& str_field(e, "type"@) is Some
    &&& str_field(e, "title"@) is Some
    &&& str_field(e, "reason"@) is Some
    &&& field(e, "payload"@) is Some
    &&& bool_field(e, "requiresApproval"@) is Some
}

/// `p` holds the members of `e`.
pub open spec fn proposal_of(e: JsonValue, p: ActionProposal) -> bool {
    &&& p.id@ == str_field(e, "id"@)->Some_0
    &&& p.action_type@ == str_field(e, "type"@)->Some_0
    &&& p.title@ == str_field(e, "title"@)->Some_0
    &&& p.reason@ == str_field(e, "reason"@)->Some_0
    &&& p.payload == field(e, "payload"@)->Some_0
    &&& p.requires_approval == bool_field(e, "requiresApproval"@)->Some_0
}

/// An `actions` member that is absent, or a list of proposals.
pub open spec fn actions_ok_opt(a: Option<JsonValue>) -> bool {
    match a {
        None => true,
        Some(x) => x is Array && forall|i: int|
            0 <= i < x->Array_0@.len() ==> is_proposal_value(#[trigger] x->Array_0@[i]),
    }
}

/// `acts` are the proposals that an `actions` member lists, in order.
pub open spec fn actions_match_opt(a: Option<JsonValue>, acts: Seq<ActionProposal>) -> bool {
    match a {
        None => acts.len() == 0,
        Some(x) => x is Array && acts.len() == x->Array_0@.len() && forall|i: int|
            0 <= i < acts.len() ==> proposal_of(#[trigger] x->Array_0@[i], acts[i]),
    }
}

/// The member `actions` of `v` is absent, or a list of proposals.
pub open spec fn actions_ok(v: JsonValue) -> bool {
    actions_ok_opt(field(v, "actions"@))
}

/// `acts` are the proposals that the member `actions` of `v` lists, in order.
pub open spec fn actions_match(v: JsonValue, acts: Seq<ActionProposal>) -> bool {
    actions_match_opt(field(v, "actions"@), acts)
}

/// The normalised form of model output `raw` whose JSON span parsed to
/// `parsed`. A parsed value gives its `reply` (or the default reply) and its
/// `actions`, every one of which must be a proposal. Where nothing parsed, the
/// trimmed text is the reply, unless it is empty.
pub open spec fn normalized(raw: Seq<char>, parsed: Option<JsonValue>, r: Result<AgentChatResponse, NormalizeError>) -> bool {
    match parsed {
        Some(v) => if actions_ok(v) {
            &&& r is Ok
            &&& r->Ok_0.reply@ == (match str_field(v, "reply"@) {
                Some(s) => s,
                None => default_reply(),
            })
            &&& actions_match(v, r->Ok_0.actions@)
        } else {
            r == Err::<AgentChatResponse, NormalizeError>(NormalizeError::MalformedActions)
        },
        None => if trim(raw).len() == 0 {
            r == Err::<AgentChatResponse, NormalizeError>(NormalizeError::EmptyOutput)
        } else {
            r is Ok && r->Ok_0.reply@ == trim(raw) && r->Ok_0.actions@.len() == 0
        },
    }
}

/// The proposal that `e` holds, if it has the shape of one.
pub fn proposal_from_value(e: JsonValue) -> (r: Option<ActionProposal>)
    ensures
        match r {
            Some(p) => is_proposal_value(e) && proposal_of(e, p),
            None => !is_proposal_value(e),
        },
{
    let id = match e.get_str("id") {
        Some(s) => s.clone(),
        None => return None,
    };
    let action_type = match e.get_str("type") {
        Some(s) => s.clone(),
        None => return None,
    };
    let title = match e.get_str("title") {
        Some(s) => s.clone(),
        None => return None,
    };
    let reason = match e.get_str("reason") {
        Some(s) => s.clone(),
        None => return None,
    };
    let requires_approval = match e.get_bool("requiresApproval") {
        Some(b) => b,
        None => return None,
    };
    match take_field(e, "payload") {
        Some(payload) => Some(ActionProposal { id, action_type, title, reason, payload, requires_approval }),
        None => None,
    }
}

/// Normalises model output `raw` given what its JSON span parsed to.
pub fn normalize_document(raw: &str, parsed: Option<JsonValue>) -> (r: Result<AgentChatResponse, NormalizeError>)
    ensures
        normalized(raw@, parsed, r),
{
    match parsed {
        None => {
            let t = trim_chars(&chars_of(raw));
            if t.len() == 0 {
                Err(NormalizeError::EmptyOutput)
            } else {
                Ok(AgentChatResponse { reply: string_from_chars(t.as_slice()), actions: Vec::new() })
            }
        },
        Some(v) => {
            let reply = match v.get_str("reply") {
                Some(s) => s.clone(),
                None => String::from_str("已生成建议。"),
            };
            match read_actions(take_field(v, "actions")) {
                Ok(actions) => Ok(AgentChatResponse { reply, actions }),
                Err(e) => Err(e),
            }
        },
    }
}

/// The proposals that an `actions` member lists; `MalformedActions` where it
/// is present and not a list of proposals.
pub fn read_actions(a: Option<JsonValue>) -> (r: Result<Vec<ActionProposal>, NormalizeError>)
    ensures
        match r {
            Ok(acts) => actions_ok_opt(a) && actions_match_opt(a, acts@),
            Err(e) => !actions_ok_opt(a) && e == NormalizeError::MalformedActions,
        },
{
    match a {
        None => Ok(Vec::new()),
        Some(JsonValue::Array(items)) => {
            let ghost all = items@;
            let ghost arr = items;
            let mut actions: Vec<ActionProposal> = Vec::new();
            for e in it: items.into_iter()
                invariant
                    it.seq() == all,
                    arr@ == all,
                    a == Some(JsonValue::Array(arr)),
                    actions@.len() == it.index(),
                    forall|j: int| 0 <= j < actions@.len() ==> is_proposal_value(#[trigger] all[j]) && proposal_of(all[j], actions@[j]),
            {
                let ghost j = it.index();
                match proposal_from_value(e) {
                    Some(p) => actions.push(p),
                    None => {
                        proof {
                            let x = a->Some_0;
                            assert(x->Array_0 == arr);
                            assert(!is_proposal_value(x->Array_0@[j]));
                        }
                        return Err(NormalizeError::MalformedActions);
                    },
                }
            }
            proof {
                let x = a->Some_0;
                assert(x->Array_0 == arr);
                assert forall|i: int| 0 <= i < x->Array_0@.len() implies is_proposal_value(#[trigger] x->Array_0@[i]) by {
                    assert(is_proposal_value(all[i]));
                }
                assert forall|i: int| 0 <= i < actions@.len() implies proposal_of(#[trigger] x->Array_0@[i], actions@[i]) by {
                    assert(proposal_of(all[i], actions@[i]));
                }
            }
            Ok(actions)
        },
        Some(_) => Err(NormalizeError::MalformedActions),
    }
}

/// Whitespace-only text trims to nothing.
pub proof fn lemma_trim_all_white(s: Seq<char>)
    requires
        all_white(s),
    ensures
        trim(s).len() == 0,
    decreases s.len(),
{
    if s.len() > 0 {
        assert(all_white(s.drop_first()));
        lemma_trim_all_white(s.drop_first());
        assert(trim_start(s) == trim_start(s.drop_first()));
    }
}

/// Whitespace-only text holds no fence and no brace, so its span is empty.
pub proof fn lemma_span_of_white(s: Seq<char>)
    requires
        all_white(s),
    ensures
        json_span(s).len() == 0,
{
    lemma_trim_all_white(s);
    assert(!contains(s, fence_open())) by {
        if contains(s, fence_open()) {
            let i = choose|i: int| occurs_at(s, fence_open(), i);
            assert(s.subrange(i, i + 7)[0] == '`');
            assert(is_white(s[i]));
        }
    }
    assert(!contains(s, seq!['{'])) by {
        if contains(s, seq!['{']) {
            let i = choose|i: int| occurs_at(s, seq!['{'], i);
            assert(s.subrange(i, i + 1)[0] == '{');
            assert(is_white(s[i]));
        }
    }
}

/// Normalises raw model output: its JSON span is parsed and read as a reply
/// with actions; where it does not parse, the trimmed text is the reply.
/// Empty or whitespace-only output is `EmptyOutput`.
pub fn parse_llm_response(content: &str) -> (r: Result<AgentChatResponse, NormalizeError>)
    ensures
        normalized(content@, json_document(json_span(content@)), r),
        all_white(content@) ==> r == Err::<AgentChatResponse, NormalizeError>(NormalizeError::EmptyOutput),
{
    let span = extract_json_block(content);
    let parsed = parse_json(span.as_str());
    proof {
        if all_white(content@) {
            lemma_span_of_white(content@);
            lemma_trim_all_white(content@);
        }
    }
    normalize_document(content, parsed)
}

/// Output whose span is no JSON document, and whose trimmed text is not empty,
/// is a plain reply of that text with no actions.
pub proof fn lemma_plain_prose(raw: Seq<char>, r: Result<AgentChatResponse, NormalizeError>)
    requires
        normalized(raw, None, r),
        trim(raw).len() > 0,
    ensures
        r is Ok,
        r->Ok_0.reply@ == trim(raw),
        r->Ok_0.actions@.len() == 0,
{
}

} // verus!
