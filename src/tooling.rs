//! The agent's tooling: MCP servers, skills and slash commands, their
//! validation, and the capabilities they add up to.
use vstd::prelude::*;
use vstd::string::StringExecFns;
use crate::action::{action_vocabulary, vocabulary};
use crate::json::{JsonValue, json_document, parse_json, str_field, bool_field};
use crate::runtime::{lowercase_of, to_lowercase, strings_view};
use crate::text::{chars_of, chars_equal, contains, string_from_chars, trim, trim_chars, split_on,
    split_chars, strip, strip_chars};

verus! {

/// An MCP server that the agent may start.
pub struct McpServerConfig {
    pub name: String,
    pub transport: String,
    pub command: String,
    pub args: Vec<String>,
    pub env: Vec<(String, String)>,
    pub cwd: Option<String>,
    pub enabled: bool,
}

/// A skill: a directory with a manifest.
pub struct SkillConfig {
    pub id: String,
    pub name: String,
    pub description: String,
    pub version: String,
    pub enabled: bool,
    pub path: String,
    pub source: String,
}

/// A slash command: a markdown file with front matter.
pub struct AgentCommandConfig {
    pub slug: String,
    pub title: String,
    pub description: String,
    pub enabled: bool,
    pub mode: String,
    pub tags: Vec<String>,
    pub aliases: Vec<String>,
    pub body: String,
    pub source: String,
}

/// Everything the agent's tooling holds.
pub struct AgentToolingConfig {
    pub mcp_servers: Vec<McpServerConfig>,
    pub skills: Vec<SkillConfig>,
    pub commands: Vec<AgentCommandConfig>,
}

/// What the agent can use: the built-in action types, and the enabled skills
/// and MCP servers.
pub struct AgentCapabilities {
    pub builtin_tools: Vec<String>,
    pub skills: Vec<String>,
    pub mcp_servers: Vec<String>,
}

pub struct ReloadSkillsResponse {
    pub reloaded: usize,
}

pub struct ReloadToolingResponse {
    pub mcp_servers: usize,
    pub skills: usize,
    pub commands: usize,
}

pub struct UpsertMcpServerRequest {
    pub server: McpServerConfig,
}

pub struct DeleteMcpServerRequest {
    pub name: String,
}

pub struct ImportSkillRequest {
    pub path: String,
}

pub struct ToggleSkillRequest {
    pub id: String,
    pub enabled: bool,
}

pub struct DeleteSkillRequest {
    pub id: String,
}

pub struct UpsertCommandRequest {
    pub command: AgentCommandConfig,
}

pub struct ImportCommandMarkdownRequest {
    pub path: String,
}

pub struct DeleteCommandRequest {
    pub slug: String,
}

/// The transport of an MCP server that names none.
pub fn default_stdio_transport() -> (r: String)
    ensures
        r@ == "stdio"@,
{
    String::from_str("stdio")
}

/// The mode of a command that names none.
pub fn default_insert_mode() -> (r: String)
    ensures
        r@ == "insert"@,
{
    String::from_str("insert")
}

/// Why an MCP server is refused, if it is.
pub open spec fn mcp_server_problem(s: McpServerConfig) -> Option<Seq<char>> {
    if trim(s.name@).len() == 0 {
        Some("MCP server name cannot be empty"@)
    } else if s.transport@ != "stdio"@ {
        Some("Only stdio transport is supported in this version"@)
    } else if trim(s.command@).len() == 0 {
        Some("MCP server command cannot be empty"@)
    } else {
        None
    }
}

/// Accepts a server with a name, the `stdio` transport and a command.
pub fn validate_mcp_server(server: &McpServerConfig) -> (r: Result<(), String>)
    ensures
        match mcp_server_problem(*server) {
            None => r is Ok,
            Some(p) => r is Err && r->Err_0@ == p,
        },
{
    if trim_chars(&chars_of(server.name.as_str())).len() == 0 {
        return Err(String::from_str("MCP server name cannot be empty"));
    }
    if !chars_equal(&chars_of(server.transport.as_str()), &chars_of("stdio")) {
        return Err(String::from_str("Only stdio transport is supported in this version"));
    }
    if trim_chars(&chars_of(server.command.as_str())).len() == 0 {
        return Err(String::from_str("MCP server command cannot be empty"));
    }
    Ok(())
}

/// A character that a slug keeps: an ASCII letter or digit, `-` or `_`.
pub open spec fn is_slug_char(c: char) -> bool {
    ('a' <= c && c <= 'z') || ('A' <= c && c <= 'Z') || ('0' <= c && c <= '9') || c == '-' || c
        == '_'
}

/// The characters of `s` that a slug keeps.
pub open spec fn slug_chars(s: Seq<char>) -> Seq<char>
    decreases s.len(),
{
    if s.len() == 0 {
        Seq::empty()
    } else if is_slug_char(s.last()) {
        slug_chars(s.drop_last()).push(s.last())
    } else {
        slug_chars(s.drop_last())
    }
}

/// An ASCII upper-case letter in lower case; other characters unchanged.
pub open spec fn ascii_lower(c: char) -> char {
    if 'A' <= c && c <= 'Z' {
        ((c as u32) + 32) as char
    } else {
        c
    }
}

/// The slug that `s` gives: its slug characters, without leading or trailing
/// `_`, then without leading or trailing `-`, in lower case.
pub open spec fn sanitized(s: Seq<char>) -> Seq<char> {
    strip(strip(slug_chars(s), '_'), '-').map_values(|c: char| ascii_lower(c))
}

fn lower_ascii_char(c: char) -> (r: char)
    ensures
        r == ascii_lower(c),
{
    if 'A' <= c && c <= 'Z' {
        let u = (c as u8) + 32;
        assert((c as u32) + 32 == u as u32);
        u as char
    } else {
        c
    }
}

/// The slug that `slug` gives.
pub fn sanitize_slug(slug: &str) -> (r: String)
    ensures
        r@ == sanitized(slug@),
{
    let cs = chars_of(slug);
    let mut kept: Vec<char> = Vec::new();
    let mut i: usize = 0;
    while i < cs.len()
        invariant
            i <= cs@.len(),
            kept@ == slug_chars(cs@.take(i as int)),
        decreases cs.len() - i,
    {
        assert(cs@.take(i + 1).drop_last() =~= cs@.take(i as int));
        let c = cs[i];
        if ('a' <= c && c <= 'z') || ('A' <= c && c <= 'Z') || ('0' <= c && c <= '9') || c == '-'
            || c == '_' {
            kept.push(c);
        }
        i += 1;
    }
    assert(cs@.take(i as int) =~= cs@);
    let stripped = strip_chars(&strip_chars(&kept, '_'), '-');
    let mut out: Vec<char> = Vec::new();
    let mut j: usize = 0;
    while j < stripped.len()
        invariant
            j <= stripped@.len(),
            out@ == stripped@.take(j as int).map_values(|c: char| ascii_lower(c)),
        decreases stripped.len() - j,
    {
        out.push(lower_ascii_char(stripped[j]));
        j += 1;
        assert(out@ =~= stripped@.take(j as int).map_values(|c: char| ascii_lower(c)));
    }
    assert(stripped@.take(j as int) =~= stripped@);
    string_from_chars(out.as_slice())
}

/// Why a command with these fields is refused, if it is.
pub open spec fn command_problem_of(slug: Seq<char>, title: Seq<char>, body: Seq<char>, mode: Seq<char>) -> Option<Seq<char>> {
    if sanitized(slug).len() == 0 {
        Some("Command slug is invalid"@)
    } else if trim(title).len() == 0 {
        Some("Command title cannot be empty"@)
    } else if trim(body).len() == 0 {
        Some("Command body cannot be empty"@)
    } else if mode != "insert"@ && mode != "execute"@ {
        Some("Command mode must be insert or execute"@)
    } else {
        None
    }
}

/// Why a command is refused, if it is.
pub open spec fn command_problem(c: AgentCommandConfig) -> Option<Seq<char>> {
    command_problem_of(c.slug@, c.title@, c.body@, c.mode@)
}

/// Accepts a command with a valid slug, a title, a body, and the mode
/// `insert` or `execute`.
pub fn validate_agent_command(command: &AgentCommandConfig) -> (r: Result<(), String>)
    ensures
        match command_problem(*command) {
            None => r is Ok,
            Some(p) => r is Err && r->Err_0@ == p,
        },
{
    let slug = sanitize_slug(command.slug.as_str());
    if chars_of(slug.as_str()).len() == 0 {
        return Err(String::from_str("Command slug is invalid"));
    }
    if trim_chars(&chars_of(command.title.as_str())).len() == 0 {
        return Err(String::from_str("Command title cannot be empty"));
    }
    if trim_chars(&chars_of(command.body.as_str())).len() == 0 {
        return Err(String::from_str("Command body cannot be empty"));
    }
    let mode = chars_of(command.mode.as_str());
    if !chars_equal(&mode, &chars_of("insert")) && !chars_equal(&mode, &chars_of("execute")) {
        return Err(String::from_str("Command mode must be insert or execute"));
    }
    Ok(())
}

/// The file that holds a command: its slug and `.md`.
pub fn command_file_name(slug: &str) -> (r: String)
    ensures
        r@ == sanitized(slug@) + ".md"@,
{
    let mut s = sanitize_slug(slug);
    s.append(".md");
    s
}

/// The items of a list part by part: trimmed, without surrounding quotes, and
/// only those left with text.
pub open spec fn list_items(parts: Seq<Seq<char>>) -> Seq<Seq<char>>
    decreases parts.len(),
{
    if parts.len() == 0 {
        Seq::empty()
    } else {
        let item = strip(trim(parts.last()), '"');
        if item.len() > 0 {
            list_items(parts.drop_last()).push(item)
        } else {
            list_items(parts.drop_last())
        }
    }
}

/// The items of a front-matter list such as `["a", "b"]`; nothing where the
/// value is absent or not in brackets.
pub open spec fn frontmatter_list(input: Option<Seq<char>>) -> Seq<Seq<char>> {
    match input {
        None => Seq::empty(),
        Some(raw) => {
            let t = trim(raw);
            if t.len() >= 2 && t[0] == '[' && t.last() == ']' {
                list_items(split_on(t.subrange(1, t.len() - 1), ','))
            } else {
                Seq::empty()
            }
        },
    }
}

/// The items of a front-matter list value.
pub fn parse_frontmatter_list(input: Option<&String>) -> (r: Vec<String>)
    ensures
        strings_view(r@) == frontmatter_list(match input {
            Some(s) => Some(s@),
            None => None,
        }),
{
    let raw = match input {
        Some(s) => s,
        None => return Vec::new(),
    };
    let t = trim_chars(&chars_of(raw.as_str()));
    if t.len() < 2 || t[0] != '[' || t[t.len() - 1] != ']' {
        return Vec::new();
    }
    let inner = crate::text::slice_chars(&t, 1, t.len() - 1);
    let parts = split_chars(&inner, ',');
    let ghost ps = parts@.map_values(|l: Vec<char>| l@);
    let mut out: Vec<String> = Vec::new();
    let mut i: usize = 0;
    while i < parts.len()
        invariant
            i <= parts@.len(),
            ps == parts@.map_values(|l: Vec<char>| l@),
            strings_view(out@) == list_items(ps.take(i as int)),
        decreases parts.len() - i,
    {
        assert(ps.take(i + 1).drop_last() =~= ps.take(i as int));
        assert(ps.take(i + 1).last() == parts@[i as int]@);
        let item = strip_chars(&trim_chars(&parts[i]), '"');
        if item.len() > 0 {
            let ghost prev = out@;
            out.push(string_from_chars(item.as_slice()));
            assert(strings_view(out@) =~= strings_view(prev).push(item@));
        }
        i += 1;
    }
    assert(ps.take(i as int) =~= ps);
    out
}

/// The index of the first server whose lower-cased name is `key`.
pub open spec fn first_with_key(servers: Seq<McpServerConfig>, key: Seq<char>, i: int) -> bool {
    &&& 0 <= i < servers.len()
    &&& lowercase_of(servers[i].name@) == key
    &&& forall|j: int| 0 <= j < i ==> lowercase_of(#[trigger] servers[j].name@) != key
}

/// Adds `server`, or replaces the first server whose name is the same when
/// both are lower-cased.
pub fn upsert_mcp_server(servers: &mut Vec<McpServerConfig>, server: McpServerConfig)
    ensures
        (exists|i: int| first_with_key(old(servers)@, lowercase_of(server.name@), i) && final(servers)@
            == old(servers)@.update(i, server)) || ((forall|j: int|
            0 <= j < old(servers)@.len() ==> lowercase_of(#[trigger] old(servers)@[j].name@)
                != lowercase_of(server.name@)) && final(servers)@ == old(servers)@.push(server)),
{
    let key = to_lowercase(server.name.as_str());
    let kc = chars_of(key.as_str());
    let mut i: usize = 0;
    while i < servers.len()
        invariant
            i <= servers@.len(),
            servers@ == old(servers)@,
            kc@ == lowercase_of(server.name@),
            forall|j: int| 0 <= j < i ==> lowercase_of(#[trigger] servers@[j].name@) != kc@,
        decreases servers.len() - i,
    {
        let name = to_lowercase(servers[i].name.as_str());
        if chars_equal(&chars_of(name.as_str()), &kc) {
            let ghost before = servers@;
            servers.set(i, server);
            assert(first_with_key(before, kc@, i as int));
            return;
        }
        i += 1;
    }
    servers.push(server);
}

/// Validates the server of the request, then adds or replaces it.
pub fn agent_upsert_mcp_server(servers: &mut Vec<McpServerConfig>, request: UpsertMcpServerRequest) -> (r: Result<(), String>)
    ensures
        match mcp_server_problem(request.server) {
            Some(p) => r is Err && r->Err_0@ == p && final(servers)@ == old(servers)@,
            None => r is Ok && ((exists|i: int|
                first_with_key(old(servers)@, lowercase_of(request.server.name@), i)
                    && final(servers)@ == old(servers)@.update(i, request.server)) || ((forall|
                j: int,
            |
                0 <= j < old(servers)@.len() ==> lowercase_of(#[trigger] old(servers)@[j].name@)
                    != lowercase_of(request.server.name@)) && final(servers)@ == old(
                servers,
            )@.push(request.server))),
        },
{
    validate_mcp_server(&request.server)?;
    upsert_mcp_server(servers, request.server);
    Ok(())
}

/// The servers whose name is not `name`, in order.
pub open spec fn without_name(servers: Seq<McpServerConfig>, name: Seq<char>) -> Seq<McpServerConfig>
    decreases servers.len(),
{
    if servers.len() == 0 {
        Seq::empty()
    } else if servers.last().name@ == name {
        without_name(servers.drop_last(), name)
    } else {
        without_name(servers.drop_last(), name).push(servers.last())
    }
}

/// Removes every server named exactly as the request says.
pub fn agent_delete_mcp_server(servers: Vec<McpServerConfig>, request: &DeleteMcpServerRequest) -> (r: Vec<McpServerConfig>)
    ensures
        r@ == without_name(servers@, request.name@),
{
    let ghost all = servers@;
    let target = chars_of(request.name.as_str());
    let mut out: Vec<McpServerConfig> = Vec::new();
    for s in it: servers.into_iter()
        invariant
            it.seq() == all,
            target@ == request.name@,
            out@ == without_name(all.take(it.index() as int), request.name@),
    {
        let ghost i = it.index();
        assert(all.take(i + 1).drop_last() =~= all.take(i as int));
        assert(all.take(i + 1).last() == s);
        if !chars_equal(&chars_of(s.name.as_str()), &target) {
            out.push(s);
        }
    }
    assert(all.take(all.len() as int) =~= all);
    out
}

/// The ids of the enabled skills, in order.
pub open spec fn enabled_skill_ids(skills: Seq<SkillConfig>) -> Seq<Seq<char>>
    decreases skills.len(),
{
    if skills.len() == 0 {
        Seq::empty()
    } else if skills.last().enabled {
        enabled_skill_ids(skills.drop_last()).push(skills.last().id@)
    } else {
        enabled_skill_ids(skills.drop_last())
    }
}

/// The names of the enabled servers, in order.
pub open spec fn enabled_server_names(servers: Seq<McpServerConfig>) -> Seq<Seq<char>>
    decreases servers.len(),
{
    if servers.len() == 0 {
        Seq::empty()
    } else if servers.last().enabled {
        enabled_server_names(servers.drop_last()).push(servers.last().name@)
    } else {
        enabled_server_names(servers.drop_last())
    }
}

/// The names of the enabled MCP servers.
pub fn agent_list_mcp_servers(tooling: &AgentToolingConfig) -> (r: Vec<String>)
    ensures
        strings_view(r@) == enabled_server_names(tooling.mcp_servers@),
{
    let mut out: Vec<String> = Vec::new();
    let mut i: usize = 0;
    while i < tooling.mcp_servers.len()
        invariant
            i <= tooling.mcp_servers@.len(),
            strings_view(out@) == enabled_server_names(tooling.mcp_servers@.take(i as int)),
        decreases tooling.mcp_servers.len() - i,
    {
        assert(tooling.mcp_servers@.take(i + 1).drop_last() =~= tooling.mcp_servers@.take(i as int));
        if tooling.mcp_servers[i].enabled {
            let ghost prev = out@;
            out.push(tooling.mcp_servers[i].name.clone());
            assert(strings_view(out@) =~= strings_view(prev).push(tooling.mcp_servers@[i as int].name@));
        }
        i += 1;
    }
    assert(tooling.mcp_servers@.take(i as int) =~= tooling.mcp_servers@);
    out
}

/// What the agent can use: every action type, the enabled skills and the
/// enabled MCP servers.
pub fn agent_list_capabilities(tooling: &AgentToolingConfig) -> (r: AgentCapabilities)
    ensures
        strings_view(r.builtin_tools@) == vocabulary(),
        strings_view(r.skills@) == enabled_skill_ids(tooling.skills@),
        strings_view(r.mcp_servers@) == enabled_server_names(tooling.mcp_servers@),
{
    let tools = action_vocabulary();
    assert(strings_view(tools@) == tools@.map_values(|s: String| s@));
    let mut skills: Vec<String> = Vec::new();
    let mut i: usize = 0;
    while i < tooling.skills.len()
        invariant
            i <= tooling.skills@.len(),
            strings_view(skills@) == enabled_skill_ids(tooling.skills@.take(i as int)),
        decreases tooling.skills.len() - i,
    {
        assert(tooling.skills@.take(i + 1).drop_last() =~= tooling.skills@.take(i as int));
        if tooling.skills[i].enabled {
            let ghost prev = skills@;
            skills.push(tooling.skills[i].id.clone());
            assert(strings_view(skills@) =~= strings_view(prev).push(tooling.skills@[i as int].id@));
        }
        i += 1;
    }
    assert(tooling.skills@.take(i as int) =~= tooling.skills@);
    AgentCapabilities {
        builtin_tools: tools,
        skills,
        mcp_servers: agent_list_mcp_servers(tooling),
    }
}

/// The number of skills after a reload.
pub fn agent_reload_skills(tooling: &AgentToolingConfig) -> (r: ReloadSkillsResponse)
    ensures
        r.reloaded == tooling.skills@.len(),
{
    ReloadSkillsResponse { reloaded: tooling.skills.len() }
}

/// The number of servers, skills and commands after a reload.
pub fn agent_reload_tooling(tooling: &AgentToolingConfig) -> (r: ReloadToolingResponse)
    ensures
        r.mcp_servers == tooling.mcp_servers@.len(),
        r.skills == tooling.skills@.len(),
        r.commands == tooling.commands@.len(),
{
    ReloadToolingResponse {
        mcp_servers: tooling.mcp_servers.len(),
        skills: tooling.skills.len(),
        commands: tooling.commands.len(),
    }
}

/// The opening mark of front matter.
pub open spec fn fm_open() -> Seq<char> {
    seq!['-', '-', '-', '\n']
}

/// The closing mark of front matter.
pub open spec fn fm_close() -> Seq<char> {
    seq!['\n', '-', '-', '-', '\n']
}

/// The key and value of a front-matter line, if it has one: the trimmed line
/// must not be empty or a comment, and must hold a `:`; the key is trimmed, the
/// value trimmed and stripped of quotes.
pub open spec fn fm_entry(line: Seq<char>) -> Option<(Seq<char>, Seq<char>)> {
    let t = trim(line);
    if t.len() == 0 || t[0] == '#' || !contains(t, seq![':']) {
        None
    } else {
        let at = choose|i: int| crate::text::first_at(t, seq![':'], i);
        Some((trim(t.subrange(0, at)), strip(trim(t.subrange(at + 1, t.len() as int)), '"')))
    }
}

/// The entries of front-matter lines, in order.
pub open spec fn fm_entries(lines: Seq<Seq<char>>) -> Seq<(Seq<char>, Seq<char>)>
    decreases lines.len(),
{
    if lines.len() == 0 {
        Seq::empty()
    } else {
        match fm_entry(lines.last()) {
            Some(e) => fm_entries(lines.drop_last()).push(e),
            None => fm_entries(lines.drop_last()),
        }
    }
}

/// The value of `key` in front matter: its last entry wins.
pub open spec fn fm_get(entries: Seq<(Seq<char>, Seq<char>)>, key: Seq<char>) -> Option<Seq<char>>
    decreases entries.len(),
{
    if entries.len() == 0 {
        None
    } else if entries.last().0 == key {
        Some(entries.last().1)
    } else {
        fm_get(entries.drop_last(), key)
    }
}

/// Front matter and body of a command file: after leading whitespace, the file
/// must open with `---` and a line feed, and the front matter runs to the next
/// line holding `---` alone; else there is no front matter and the body is the
/// text without its leading whitespace.
pub open spec fn split_spec(content: Seq<char>) -> (Seq<(Seq<char>, Seq<char>)>, Seq<char>) {
    let t = crate::text::trim_start(content);
    let rest = t.subrange(4, t.len() as int);
    if t.len() >= 4 && t.subrange(0, 4) == fm_open() && contains(rest, fm_close()) {
        let end = choose|i: int| crate::text::first_at(rest, fm_close(), i);
        (fm_entries(crate::text::split_on(rest.subrange(0, end), '\n')), rest.subrange(end + 5, rest.len() as int))
    } else {
        (Seq::empty(), t)
    }
}

/// A key and value of front matter.
pub struct FrontMatterEntry {
    pub key: String,
    pub value: String,
}

/// The views of front-matter entries.
pub open spec fn entries_view(v: Seq<FrontMatterEntry>) -> Seq<(Seq<char>, Seq<char>)> {
    v.map_values(|e: FrontMatterEntry| (e.key@, e.value@))
}

/// The first index of `pat` in `s`, if any.
fn first_index_of(s: &Vec<char>, pat: &Vec<char>) -> (r: Option<usize>)
    ensures
        match r {
            Some(i) => i + pat@.len() <= s@.len() && crate::text::first_at(s@, pat@, i as int) && i
                == choose|j: int| crate::text::first_at(s@, pat@, j),
            None => !contains(s@, pat@),
        },
{
    match crate::text::find_first(s, pat) {
        Some(i) => {
            proof {
                let c = choose|j: int| crate::text::first_at(s@, pat@, j);
                assert(crate::text::first_at(s@, pat@, i as int));
                if c < i {
                    assert(!crate::text::occurs_at(s@, pat@, c));
                } else if c > i {
                    assert(!crate::text::occurs_at(s@, pat@, i as int));
                }
            }
            Some(i)
        },
        None => None,
    }
}

/// The entry of one front-matter line, if it has one.
fn entry_of_line(line: &Vec<char>) -> (r: Option<FrontMatterEntry>)
    ensures
        match r {
            Some(e) => fm_entry(line@) == Some((e.key@, e.value@)),
            None => fm_entry(line@) is None,
        },
{
    let t = trim_chars(line);
    if t.len() == 0 || t[0] == '#' {
        return None;
    }
    let colon = vec![':'];
    assert(colon@ =~= seq![':']);
    match first_index_of(&t, &colon) {
        None => None,
        Some(at) => {
            assert(crate::text::occurs_at(t@, seq![':'], at as int));
            let k = trim_chars(&crate::text::slice_chars(&t, 0, at));
            let v = strip_chars(&trim_chars(&crate::text::slice_chars(&t, at + 1, t.len())), '"');
            Some(FrontMatterEntry { key: string_from_chars(k.as_slice()), value: string_from_chars(v.as_slice()) })
        },
    }
}

/// Splits a command file into its front matter and its body.
pub fn split_frontmatter(content: &str) -> (r: (Vec<FrontMatterEntry>, String))
    ensures
        entries_view(r.0@) == split_spec(content@).0,
        r.1@ == split_spec(content@).1,
{
    let cs = chars_of(content);
    let t = trim_start_chars(&cs);
    let open = vec!['-', '-', '-', '\n'];
    let close = vec!['\n', '-', '-', '-', '\n'];
    assert(open@ =~= fm_open());
    assert(close@ =~= fm_close());
    if t.len() >= 4 && crate::text::matches_at(&t, &open, 0) {
        assert(t@.subrange(0, 4) == fm_open());
        let rest = crate::text::slice_chars(&t, 4, t.len());
        if let Some(end) = first_index_of(&rest, &close) {
            assert(crate::text::occurs_at(rest@, fm_close(), end as int));
            assert(rest@ == t@.subrange(4, t@.len() as int));
            let block = crate::text::slice_chars(&rest, 0, end);
            let lines = split_chars(&block, '\n');
            let ghost ls = lines@.map_values(|l: Vec<char>| l@);
            let mut entries: Vec<FrontMatterEntry> = Vec::new();
            let mut i: usize = 0;
            while i < lines.len()
                invariant
                    i <= lines@.len(),
                    ls == lines@.map_values(|l: Vec<char>| l@),
                    entries_view(entries@) == fm_entries(ls.take(i as int)),
                decreases lines.len() - i,
            {
                assert(ls.take(i + 1).drop_last() =~= ls.take(i as int));
                assert(ls.take(i + 1).last() == lines@[i as int]@);
                if let Some(e) = entry_of_line(&lines[i]) {
                    let ghost prev = entries@;
                    entries.push(e);
                    assert(entries_view(entries@) =~= entries_view(prev).push((e.key@, e.value@)));
                }
                i += 1;
            }
            assert(ls.take(i as int) =~= ls);
            let body = crate::text::slice_chars(&rest, end + 5, rest.len());
            return (entries, string_from_chars(body.as_slice()));
        }
    }
    (Vec::new(), string_from_chars(t.as_slice()))
}

/// `cs` without its leading whitespace.
fn trim_start_chars(cs: &Vec<char>) -> (r: Vec<char>)
    ensures
        r@ == crate::text::trim_start(cs@),
{
    let n = cs.len();
    let mut a: usize = 0;
    assert(cs@.subrange(0, n as int) =~= cs@);
    while a < n && crate::text::is_white_char(cs[a])
        invariant
            a <= n == cs@.len(),
            crate::text::trim_start(cs@) == crate::text::trim_start(cs@.subrange(a as int, n as int)),
        decreases n - a,
    {
        assert(cs@.subrange(a as int, n as int).drop_first() =~= cs@.subrange(a + 1, n as int));
        a += 1;
    }
    crate::text::slice_chars(cs, a, n)
}

/// The value of `key` in front matter, the last entry winning.
pub fn frontmatter_get(entries: &Vec<FrontMatterEntry>, key: &str) -> (r: Option<String>)
    ensures
        match r {
            Some(v) => fm_get(entries_view(entries@), key@) == Some(v@),
            None => fm_get(entries_view(entries@), key@) is None,
        },
{
    let k = chars_of(key);
    let mut i = entries.len();
    let ghost ev = entries_view(entries@);
    assert(ev.take(i as int) =~= ev);
    while i > 0
        invariant
            i <= entries@.len(),
            ev == entries_view(entries@),
            k@ == key@,
            fm_get(ev, key@) == fm_get(ev.take(i as int), key@),
        decreases i,
    {
        assert(ev.take(i as int).drop_last() =~= ev.take(i - 1));
        assert(ev.take(i as int).last() == (entries@[i - 1].key@, entries@[i - 1].value@));
        if chars_equal(&chars_of(entries[i - 1].key.as_str()), &k) {
            return Some(entries[i - 1].value.clone());
        }
        i -= 1;
    }
    None
}

/// The given value, else a default.
pub open spec fn or_default(o: Option<Seq<char>>, d: Seq<char>) -> Seq<char> {
    match o {
        Some(v) => v,
        None => d,
    }
}

/// The slug that a command file names: its `slug` entry, else the file's stem,
/// else `command`.
pub open spec fn raw_slug(fm: Seq<(Seq<char>, Seq<char>)>, stem: Option<Seq<char>>) -> Seq<char> {
    or_default(fm_get(fm, "slug"@), or_default(stem, "command"@))
}

/// `c` is the command that a command file gives: its slug sanitised; its title
/// (else the slug as written), description, mode (else `insert`) and lists
/// from the front matter; enabled unless the entry says otherwise than `true`;
/// its body trimmed.
pub open spec fn command_of_file(c: AgentCommandConfig, content: Seq<char>, stem: Option<Seq<char>>, source: Seq<char>) -> bool {
    let fm = split_spec(content).0;
    let slug = raw_slug(fm, stem);
    &&& c.slug@ == sanitized(slug)
    &&& c.title@ == or_default(fm_get(fm, "title"@), slug)
    &&& c.description@ == or_default(fm_get(fm, "description"@), Seq::empty())
    &&& c.enabled == (match fm_get(fm, "enabled"@) {
        Some(v) => v == "true"@,
        None => true,
    })
    &&& c.mode@ == or_default(fm_get(fm, "mode"@), "insert"@)
    &&& strings_view(c.tags@) == frontmatter_list(fm_get(fm, "tags"@))
    &&& strings_view(c.aliases@) == frontmatter_list(fm_get(fm, "aliases"@))
    &&& c.body@ == trim(split_spec(content).1)
    &&& c.source@ == source
}

fn get_or(entries: &Vec<FrontMatterEntry>, key: &str, default: String) -> (r: String)
    ensures
        r@ == or_default(fm_get(entries_view(entries@), key@), default@),
{
    match frontmatter_get(entries, key) {
        Some(v) => v,
        None => default,
    }
}

/// The command that a command file holds, where it is valid. `file_stem` is
/// the file's name without its extension.
pub fn parse_command_markdown(content: &str, file_stem: Option<&str>, source: &str) -> (r: Result<AgentCommandConfig, String>)
    ensures
        match r {
            Ok(c) => command_of_file(c, content@, match file_stem {
                Some(x) => Some(x@),
                None => None,
            }, source@) && command_problem(c) is None,
            Err(e) => {
                let fm = split_spec(content@).0;
                let slug = raw_slug(fm, match file_stem {
                    Some(x) => Some(x@),
                    None => None,
                });
                command_problem_of(
                    sanitized(slug),
                    or_default(fm_get(fm, "title"@), slug),
                    trim(split_spec(content@).1),
                    or_default(fm_get(fm, "mode"@), "insert"@),
                ) == Some(e@)
            },
        },
{
    let (fm, body) = split_frontmatter(content);
    let stem_default = match file_stem {
        Some(x) => String::from_str(x),
        None => String::from_str("command"),
    };
    let slug = get_or(&fm, "slug", stem_default);
    let title = get_or(&fm, "title", slug.clone());
    let description = get_or(&fm, "description", String::new());
    let enabled = match frontmatter_get(&fm, "enabled") {
        Some(v) => chars_equal(&chars_of(v.as_str()), &chars_of("true")),
        None => true,
    };
    let mode = get_or(&fm, "mode", default_insert_mode());
    let tags_raw = frontmatter_get(&fm, "tags");
    let tags = parse_frontmatter_list(tags_raw.as_ref());
    let aliases_raw = frontmatter_get(&fm, "aliases");
    let aliases = parse_frontmatter_list(aliases_raw.as_ref());
    let command = AgentCommandConfig {
        slug: sanitize_slug(slug.as_str()),
        title,
        description,
        enabled,
        mode,
        tags,
        aliases,
        body: crate::text::trim_string(body.as_str()),
        source: String::from_str(source),
    };
    match validate_agent_command(&command) {
        Ok(()) => Ok(command),
        Err(e) => Err(e),
    }
}

/// `s` with every `"` written as `\"`.
pub open spec fn escaped(s: Seq<char>) -> Seq<char>
    decreases s.len(),
{
    if s.len() == 0 {
        Seq::empty()
    } else if s.last() == '"' {
        escaped(s.drop_last()) + seq!['\\', '"']
    } else {
        escaped(s.drop_last()).push(s.last())
    }
}

/// The items quoted and escaped, joined by `, `.
pub open spec fn quoted_items(items: Seq<Seq<char>>) -> Seq<char>
    decreases items.len(),
{
    if items.len() == 0 {
        Seq::empty()
    } else if items.len() == 1 {
        seq!['"'] + escaped(items[0]) + seq!['"']
    } else {
        quoted_items(items.drop_last()) + ", "@ + seq!['"'] + escaped(items.last()) + seq!['"']
    }
}

/// The command file of a command.
pub open spec fn command_markdown(c: AgentCommandConfig) -> Seq<char> {
    "---\nslug: "@ + sanitized(c.slug@) + "\ntitle: \""@ + escaped(c.title@) + "\"\ndescription: \""@
        + escaped(c.description@) + "\"\nenabled: "@ + (if c.enabled {
        "true"@
    } else {
        "false"@
    }) + "\nmode: "@ + c.mode@ + "\ntags: ["@ + quoted_items(strings_view(c.tags@))
        + "]\naliases: ["@ + quoted_items(strings_view(c.aliases@)) + "]\n---\n\n"@ + c.body@
        + "\n"@
}

fn escape_quotes(s: &String) -> (r: String)
    ensures
        r@ == escaped(s@),
{
    let cs = chars_of(s.as_str());
    let mut out: Vec<char> = Vec::new();
    let mut i: usize = 0;
    while i < cs.len()
        invariant
            i <= cs@.len(),
            out@ == escaped(cs@.take(i as int)),
        decreases cs.len() - i,
    {
        assert(cs@.take(i + 1).drop_last() =~= cs@.take(i as int));
        let ghost prev = out@;
        if cs[i] == '"' {
            out.push('\\');
            out.push('"');
        } else {
            out.push(cs[i]);
        }
        i += 1;
        assert(out@ =~= escaped(cs@.take(i as int)));
    }
    assert(cs@.take(i as int) =~= cs@);
    string_from_chars(out.as_slice())
}

fn quote_items(items: &Vec<String>) -> (r: String)
    ensures
        r@ == quoted_items(strings_view(items@)),
{
    let ghost v = strings_view(items@);
    let mut out = String::new();
    let mut i: usize = 0;
    while i < items.len()
        invariant
            i <= items@.len(),
            v == strings_view(items@),
            out@ == quoted_items(v.take(i as int)),
        decreases items.len() - i,
    {
        assert(v.take(i + 1).drop_last() =~= v.take(i as int));
        assert(v.take(i + 1).last() == items@[i as int]@);
        if i > 0 {
            out.append(", ");
        }
        out.append("\"");
        out.append(escape_quotes(&items[i]).as_str());
        out.append("\"");
        proof {
            reveal_strlit("\"");
            if i == 0 {
                assert(v.take(1)[0] == items@[0]@);
            }
        }
        i += 1;
    }
    assert(v.take(i as int) =~= v);
    out
}

/// The command file of a command: front matter, a blank line, and the body.
pub fn build_command_markdown(command: &AgentCommandConfig) -> (r: String)
    ensures
        r@ == command_markdown(*command),
{
    let mut s = String::from_str("---\nslug: ");
    s.append(sanitize_slug(command.slug.as_str()).as_str());
    s.append("\ntitle: \"");
    s.append(escape_quotes(&command.title).as_str());
    s.append("\"\ndescription: \"");
    s.append(escape_quotes(&command.description).as_str());
    s.append("\"\nenabled: ");
    s.append(if command.enabled { "true" } else { "false" });
    s.append("\nmode: ");
    s.append(command.mode.as_str());
    s.append("\ntags: [");
    s.append(quote_items(&command.tags).as_str());
    s.append("]\naliases: [");
    s.append(quote_items(&command.aliases).as_str());
    s.append("]\n---\n\n");
    s.append(command.body.as_str());
    s.append("\n");
    s
}

/// The skill that a manifest document describes: `id` is required; `name`
/// defaults to the id, `description` to nothing, `version` to `0.1.0`, and
/// `enabled` to true.
pub open spec fn skill_of_manifest(doc: Option<JsonValue>, path: Seq<char>, source: Seq<char>, r: Result<SkillConfig, String>) -> bool {
    match doc {
        None => r is Err && r->Err_0@ == "Failed to parse manifest json"@,
        Some(v) => match str_field(v, "id"@) {
            None => r is Err && r->Err_0@ == "Skill manifest missing id"@,
            Some(id) => {
                &&& r is Ok
                &&& r->Ok_0.id@ == id
                &&& r->Ok_0.name@ == or_default(str_field(v, "name"@), id)
                &&& r->Ok_0.description@ == or_default(str_field(v, "description"@), Seq::empty())
                &&& r->Ok_0.version@ == or_default(str_field(v, "version"@), "0.1.0"@)
                &&& r->Ok_0.enabled == (match bool_field(v, "enabled"@) {
                    Some(b) => b,
                    None => true,
                })
                &&& r->Ok_0.path@ == path
                &&& r->Ok_0.source@ == source
            },
        },
    }
}

fn str_or(doc: &JsonValue, key: &str, default: String) -> (r: String)
    ensures
        r@ == or_default(str_field(*doc, key@), default@),
{
    match doc.get_str(key) {
        Some(v) => v.clone(),
        None => default,
    }
}

/// The skill that a parsed manifest describes, found at `path`.
pub fn skill_from_document(doc: Option<JsonValue>, path: &str, source: &str) -> (r: Result<SkillConfig, String>)
    ensures
        skill_of_manifest(doc, path@, source@, r),
{
    let v = match doc {
        None => return Err(String::from_str("Failed to parse manifest json")),
        Some(v) => v,
    };
    let id = match v.get_str("id") {
        None => return Err(String::from_str("Skill manifest missing id")),
        Some(id) => id.clone(),
    };
    let name = str_or(&v, "name", id.clone());
    let description = str_or(&v, "description", String::new());
    let version = str_or(&v, "version", String::from_str("0.1.0"));
    let enabled = match v.get_bool("enabled") {
        Some(b) => b,
        None => true,
    };
    Ok(SkillConfig {
        id,
        name,
        description,
        version,
        enabled,
        path: String::from_str(path),
        source: String::from_str(source),
    })
}

/// The skill that the text of a manifest describes, found at `path`.
pub fn skill_from_manifest(text: &str, path: &str, source: &str) -> (r: Result<SkillConfig, String>)
    ensures
        skill_of_manifest(json_document(text@), path@, source@, r),
{
    skill_from_document(parse_json(text), path, source)
}

} // verus!
