//! Provider routing: settings, the choice of provider, the shape of requests
//! to remote providers, and how their responses are read.
use vstd::prelude::*;
use vstd::string::StringExecFns;
use crate::json::{JsonValue, json_document, parse_json, field, str_field};
use crate::normalize::{AgentChatResponse, NormalizeError, normalized, json_span, parse_llm_response};
use crate::runtime::{AgentCodexConfig, RuntimeError, runtime_error_text, normalize_error_text};
use crate::text::{chars_of, chars_equal, string_from_chars, trim, trim_chars, strip_end,
    strip_end_chars};

verus! {

/// Connection settings of one remote provider.
pub struct AgentProviderConfig {
    pub base_url: String,
    pub api_key: String,
    pub model: String,
    pub api_version: Option<String>,
}

/// The provider to use, and the settings of every provider.
pub struct AgentSettings {
    pub provider: String,
    pub openai: AgentProviderConfig,
    pub anthropic: AgentProviderConfig,
    pub minimax: AgentProviderConfig,
    pub codex: AgentCodexConfig,
}

/// One turn of a conversation.
pub struct AgentMessage {
    pub role: String,
    pub content: String,
}

/// A chat request: an optional request id, the conversation, and the settings.
pub struct AgentChatRequest {
    pub request_id: Option<String>,
    pub messages: Vec<AgentMessage>,
    pub settings: AgentSettings,
}

fn provider_config(base_url: &str, model: &str, api_version: Option<&str>) -> (r: AgentProviderConfig)
    ensures
        r.base_url@ == base_url@,
        r.api_key@.len() == 0,
        r.model@ == model@,
        match api_version {
            Some(v) => r.api_version is Some && r.api_version->Some_0@ == v@,
            None => r.api_version is None,
        },
{
    AgentProviderConfig {
        base_url: String::from_str(base_url),
        api_key: String::new(),
        model: String::from_str(model),
        api_version: match api_version {
            Some(v) => Some(String::from_str(v)),
            None => None,
        },
    }
}

pub fn default_openai_provider() -> (r: AgentProviderConfig)
    ensures
        r.base_url@ == "https://api.openai.com/v1"@,
        r.api_key@.len() == 0,
        r.model@ == "gpt-4o-mini"@,
        r.api_version is None,
{
    provider_config("https://api.openai.com/v1", "gpt-4o-mini", None)
}

/// The Anthropic defaults; the model id is left for the settings to name.
pub fn default_anthropic_provider() -> (r: AgentProviderConfig)
    ensures
        r.base_url@ == "https://api.anthropic.com/v1"@,
        r.api_key@.len() == 0,
        r.model@.len() == 0,
        r.api_version is Some && r.api_version->Some_0@ == "2023-06-01"@,
{
    proof {
        reveal_strlit("");
    }
    provider_config("https://api.anthropic.com/v1", "", Some("2023-06-01"))
}

pub fn default_minimax_provider() -> (r: AgentProviderConfig)
    ensures
        r.base_url@ == "https://api.minimax.chat/v1"@,
        r.api_key@.len() == 0,
        r.model@ == "MiniMax-M2.1"@,
        r.api_version is None,
{
    provider_config("https://api.minimax.chat/v1", "MiniMax-M2.1", None)
}

/// A provider that can answer a chat request.
#[derive(Clone, Copy, Debug, PartialEq, Eq, Structural)]
pub enum ProviderKind {
    OpenAi,
    Anthropic,
    MiniMax,
    LocalRuntime,
}

/// The provider that a settings name selects.
pub open spec fn provider_of_name(name: Seq<char>) -> Option<ProviderKind> {
    if name == "openai"@ {
        Some(ProviderKind::OpenAi)
    } else if name == "anthropic"@ {
        Some(ProviderKind::Anthropic)
    } else if name == "minimax"@ {
        Some(ProviderKind::MiniMax)
    } else if name == "codex_local"@ {
        Some(ProviderKind::LocalRuntime)
    } else {
        None
    }
}

/// The name under which a provider appears in reports.
pub open spec fn provider_label(k: ProviderKind) -> Seq<char> {
    match k {
        ProviderKind::OpenAi => "OpenAI"@,
        ProviderKind::Anthropic => "Anthropic"@,
        ProviderKind::MiniMax => "MiniMax"@,
        ProviderKind::LocalRuntime => "Codex"@,
    }
}

impl ProviderKind {
    pub fn label(&self) -> (r: &'static str)
        ensures
            r@ == provider_label(*self),
    {
        match self {
            ProviderKind::OpenAi => "OpenAI",
            ProviderKind::Anthropic => "Anthropic",
            ProviderKind::MiniMax => "MiniMax",
            ProviderKind::LocalRuntime => "Codex",
        }
    }
}

/// Why a provider gave no reply.
pub enum ProviderError {
    /// The settings name no known provider.
    Unsupported(String),
    /// The active provider's credential is empty.
    EmptyCredential(ProviderKind),
    /// The request failed in transport or with a status other than success.
    Network(String),
    /// The response body is not JSON.
    BodyNotJson(ProviderKind),
    /// The response has no content where the provider puts it.
    MissingContent(ProviderKind),
    /// The content could not be normalised.
    Normalize(NormalizeError),
    /// The local runtime failed.
    Runtime(RuntimeError),
}

/// The text that reports a provider error.
pub open spec fn provider_error_text(e: ProviderError) -> Seq<char> {
    match e {
        ProviderError::Unsupported(p) => "Unsupported provider: "@ + p@,
        ProviderError::EmptyCredential(k) => provider_label(k) + " API key is empty"@,
        ProviderError::Network(m) => m@,
        ProviderError::BodyNotJson(k) => provider_label(k) + " parse failed"@,
        ProviderError::MissingContent(k) => provider_label(k) + (if k == ProviderKind::Anthropic {
            " response missing text"@
        } else {
            " response missing content"@
        }),
        ProviderError::Normalize(n) => normalize_error_text(n),
        ProviderError::Runtime(r) => runtime_error_text(r),
    }
}

impl ProviderError {
    /// The text that reports this error.
    pub fn message(&self) -> (r: String)
        ensures
            r@ == provider_error_text(*self),
    {
        match self {
            ProviderError::Unsupported(p) => {
                let mut s = String::from_str("Unsupported provider: ");
                s.append(p.as_str());
                s
            },
            ProviderError::EmptyCredential(k) => {
                let mut s = String::from_str(k.label());
                s.append(" API key is empty");
                s
            },
            ProviderError::Network(m) => m.clone(),
            ProviderError::BodyNotJson(k) => {
                let mut s = String::from_str(k.label());
                s.append(" parse failed");
                s
            },
            ProviderError::MissingContent(k) => {
                let mut s = String::from_str(k.label());
                if *k == ProviderKind::Anthropic {
                    s.append(" response missing text");
                } else {
                    s.append(" response missing content");
                }
                s
            },
            ProviderError::Normalize(n) => n.message(),
            ProviderError::Runtime(r) => r.message(),
        }
    }
}

/// The provider that the settings name, or `Unsupported`.
pub fn select_provider(name: &str) -> (r: Result<ProviderKind, ProviderError>)
    ensures
        match r {
            Ok(k) => provider_of_name(name@) == Some(k),
            Err(e) => provider_of_name(name@) is None && (e matches ProviderError::Unsupported(p)
                && p@ == name@),
        },
{
    let n = chars_of(name);
    if chars_equal(&n, &chars_of("openai")) {
        Ok(ProviderKind::OpenAi)
    } else if chars_equal(&n, &chars_of("anthropic")) {
        Ok(ProviderKind::Anthropic)
    } else if chars_equal(&n, &chars_of("minimax")) {
        Ok(ProviderKind::MiniMax)
    } else if chars_equal(&n, &chars_of("codex_local")) {
        Ok(ProviderKind::LocalRuntime)
    } else {
        Err(ProviderError::Unsupported(String::from_str(name)))
    }
}

/// The settings of a remote provider.
pub open spec fn remote_config(s: AgentSettings, k: ProviderKind) -> AgentProviderConfig {
    match k {
        ProviderKind::Anthropic => s.anthropic,
        ProviderKind::MiniMax => s.minimax,
        _ => s.openai,
    }
}

/// The settings of the remote provider `k`.
pub fn config_for(settings: &AgentSettings, k: ProviderKind) -> (r: &AgentProviderConfig)
    ensures
        *r == remote_config(*settings, k),
{
    match k {
        ProviderKind::Anthropic => &settings.anthropic,
        ProviderKind::MiniMax => &settings.minimax,
        _ => &settings.openai,
    }
}

/// The trimmed credential of a remote provider; `EmptyCredential` where it is
/// blank.
pub fn check_credential(k: ProviderKind, config: &AgentProviderConfig) -> (r: Result<String, ProviderError>)
    ensures
        match r {
            Ok(key) => key@ == trim(config.api_key@) && key@.len() > 0,
            Err(e) => trim(config.api_key@).len() == 0 && (e matches ProviderError::EmptyCredential(x)
                && x == k),
        },
{
    let t = trim_chars(&chars_of(config.api_key.as_str()));
    if t.len() == 0 {
        Err(ProviderError::EmptyCredential(k))
    } else {
        Ok(string_from_chars(t.as_slice()))
    }
}

/// The path of the chat endpoint of a remote provider.
pub open spec fn endpoint_path(k: ProviderKind) -> Seq<char> {
    match k {
        ProviderKind::Anthropic => "/messages"@,
        ProviderKind::MiniMax => "/text/chatcompletion_v2"@,
        _ => "/chat/completions"@,
    }
}

/// The URL of the chat endpoint: the base URL without trailing slashes, then
/// the provider's path.
pub fn endpoint_url(k: ProviderKind, base_url: &str) -> (r: String)
    ensures
        r@ == strip_end(base_url@, '/') + endpoint_path(k),
{
    let base = strip_end_chars(&chars_of(base_url), '/');
    let mut s = string_from_chars(base.as_slice());
    match k {
        ProviderKind::Anthropic => s.append("/messages"),
        ProviderKind::MiniMax => s.append("/text/chatcompletion_v2"),
        _ => s.append("/chat/completions"),
    }
    s
}

/// The version header that the Anthropic API gets: the configured one, else
/// `2023-06-01`.
pub fn anthropic_version(config: &AgentProviderConfig) -> (r: String)
    ensures
        r@ == (match config.api_version {
            Some(v) => v@,
            None => "2023-06-01"@,
        }),
{
    match &config.api_version {
        Some(v) => v.clone(),
        None => String::from_str("2023-06-01"),
    }
}

/// The role that a conversation turn takes in a request to provider `k`, or
/// `None` where the provider does not take the turn. Anthropic takes user and
/// system turns as user turns and drops others; the other providers take every
/// turn that is not the assistant's as a user turn.
pub open spec fn wire_role(k: ProviderKind, role: Seq<char>) -> Option<Seq<char>> {
    if role == "assistant"@ {
        Some("assistant"@)
    } else if k == ProviderKind::Anthropic {
        if role == "user"@ || role == "system"@ {
            Some("user"@)
        } else {
            None
        }
    } else {
        Some("user"@)
    }
}

/// A conversation turn as a provider receives it.
pub struct WireMessage {
    pub role: String,
    pub content: String,
}

/// The turns that a request to provider `k` carries, in order.
pub open spec fn wire_messages(k: ProviderKind, msgs: Seq<AgentMessage>) -> Seq<(Seq<char>, Seq<char>)>
    decreases msgs.len(),
{
    if msgs.len() == 0 {
        Seq::empty()
    } else {
        let rest = wire_messages(k, msgs.drop_last());
        match wire_role(k, msgs.last().role@) {
            Some(r) => rest.push((r, msgs.last().content@)),
            None => rest,
        }
    }
}

/// The views of wire messages.
pub open spec fn wire_view(v: Seq<WireMessage>) -> Seq<(Seq<char>, Seq<char>)> {
    v.map_values(|m: WireMessage| (m.role@, m.content@))
}

/// The turns that a request to provider `k` carries, in order.
pub fn provider_messages(k: ProviderKind, messages: &Vec<AgentMessage>) -> (r: Vec<WireMessage>)
    ensures
        wire_view(r@) == wire_messages(k, messages@),
{
    let mut out: Vec<WireMessage> = Vec::new();
    let mut i: usize = 0;
    while i < messages.len()
        invariant
            i <= messages@.len(),
            wire_view(out@) == wire_messages(k, messages@.take(i as int)),
        decreases messages.len() - i,
    {
        let ghost prev = out@;
        assert(messages@.take(i + 1).drop_last() =~= messages@.take(i as int));
        let m = &messages[i];
        let role = chars_of(m.role.as_str());
        let wire: Option<&str> = if chars_equal(&role, &chars_of("assistant")) {
            Some("assistant")
        } else if k == ProviderKind::Anthropic {
            if chars_equal(&role, &chars_of("user")) || chars_equal(&role, &chars_of("system")) {
                Some("user")
            } else {
                None
            }
        } else {
            Some("user")
        };
        if let Some(r) = wire {
            out.push(WireMessage { role: String::from_str(r), content: m.content.clone() });
            assert(wire_view(out@) =~= wire_view(prev).push((r@, m.content@)));
        }
        i += 1;
    }
    assert(messages@.take(i as int) =~= messages@);
    out
}

/// The first element of a JSON list.
pub open spec fn first_element(v: Option<JsonValue>) -> Option<JsonValue> {
    match v {
        Some(x) => if x is Array && x->Array_0@.len() > 0 {
            Some(x->Array_0@[0])
        } else {
            None
        },
        None => None,
    }
}

/// The reply text in a provider's response body: `content[0].text` for
/// Anthropic, `choices[0].message.content` for the others.
pub open spec fn body_content(k: ProviderKind, body: JsonValue) -> Option<Seq<char>> {
    if k == ProviderKind::Anthropic {
        match first_element(field(body, "content"@)) {
            Some(b) => str_field(b, "text"@),
            None => None,
        }
    } else {
        match first_element(field(body, "choices"@)) {
            Some(c) => match field(c, "message"@) {
                Some(m) => str_field(m, "content"@),
                None => None,
            },
            None => None,
        }
    }
}

fn first_of(v: Option<&JsonValue>) -> (r: Option<&JsonValue>)
    ensures
        match v {
            Some(x) => match r {
                Some(y) => first_element(Some(*x)) == Some(*y),
                None => first_element(Some(*x)) is None,
            },
            None => r is None,
        },
{
    match v {
        Some(JsonValue::Array(items)) => if items.len() > 0 {
            Some(&items[0])
        } else {
            None
        },
        _ => None,
    }
}

/// The reply text of a response body that parsed to `body`.
pub fn content_of_body(k: ProviderKind, body: Option<JsonValue>) -> (r: Result<String, ProviderError>)
    ensures
        match body {
            None => r matches Err(ProviderError::BodyNotJson(x)) && x == k,
            Some(b) => match body_content(k, b) {
                Some(c) => r is Ok && r->Ok_0@ == c,
                None => r matches Err(ProviderError::MissingContent(x)) && x == k,
            },
        },
{
    match body {
        None => Err(ProviderError::BodyNotJson(k)),
        Some(b) => {
            let found: Option<&String> = if k == ProviderKind::Anthropic {
                match first_of(b.get("content")) {
                    Some(block) => block.get_str("text"),
                    None => None,
                }
            } else {
                match first_of(b.get("choices")) {
                    Some(choice) => match choice.get("message") {
                        Some(m) => m.get_str("content"),
                        None => None,
                    },
                    None => None,
                }
            };
            match found {
                Some(c) => Ok(c.clone()),
                None => Err(ProviderError::MissingContent(k)),
            }
        },
    }
}

/// The reply of a remote provider, from the text of a successful response: the
/// body is parsed, its content read and normalised.
pub fn provider_reply_from_body(k: ProviderKind, body_text: &str) -> (r: Result<AgentChatResponse, ProviderError>)
    ensures
        match json_document(body_text@) {
            None => r matches Err(ProviderError::BodyNotJson(x)) && x == k,
            Some(b) => match body_content(k, b) {
                None => r matches Err(ProviderError::MissingContent(x)) && x == k,
                Some(c) => {
                    let n = json_document(json_span(c));
                    (r is Ok && normalized(c, n, Ok(r->Ok_0))) || (r matches Err(ProviderError::Normalize(e))
                        && normalized(c, n, Err(e)))
                },
            },
        },
{
    let body = parse_json(body_text);
    let content = content_of_body(k, body)?;
    match parse_llm_response(content.as_str()) {
        Ok(resp) => Ok(resp),
        Err(e) => Err(ProviderError::Normalize(e)),
    }
}

} // verus!
