use workbench_agent::action::action_vocabulary;
use workbench_agent::tooling::{
    build_command_markdown, frontmatter_get, parse_command_markdown, split_frontmatter,
    agent_delete_mcp_server, agent_list_capabilities, agent_reload_tooling, agent_upsert_mcp_server,
    command_file_name, default_insert_mode, default_stdio_transport, parse_frontmatter_list,
    sanitize_slug, validate_agent_command, validate_mcp_server, AgentCommandConfig,
    AgentToolingConfig, DeleteMcpServerRequest, McpServerConfig, SkillConfig,
    UpsertMcpServerRequest,
};

fn server(name: &str, command: &str, enabled: bool) -> McpServerConfig {
    McpServerConfig {
        name: name.to_string(),
        transport: default_stdio_transport(),
        command: command.to_string(),
        args: vec![],
        env: vec![],
        cwd: None,
        enabled,
    }
}

fn skill(id: &str, enabled: bool) -> SkillConfig {
    SkillConfig {
        id: id.to_string(),
        name: id.to_string(),
        description: String::new(),
        version: "1".to_string(),
        enabled,
        path: String::new(),
        source: "user".to_string(),
    }
}

#[test]
fn slugs() {
    assert_eq!(sanitize_slug("_-Daily Plan!-_"), "dailyplan");
    assert_eq!(sanitize_slug("-_a"), "_a");
    assert_eq!(sanitize_slug("Week_Review-2"), "week_review-2");
    assert_eq!(command_file_name("My-Cmd"), "my-cmd.md");
}

#[test]
fn frontmatter_lists() {
    let raw = " [\"a\", b ,\"\", \" c \"] ".to_string();
    assert_eq!(parse_frontmatter_list(Some(&raw)), vec!["a", "b", " c "]);
    assert!(parse_frontmatter_list(None).is_empty());
    let bare = "a, b".to_string();
    assert!(parse_frontmatter_list(Some(&bare)).is_empty());
}

#[test]
fn server_validation() {
    assert!(validate_mcp_server(&server("fs", "npx", true)).is_ok());
    assert_eq!(validate_mcp_server(&server("  ", "npx", true)).err().as_deref(), Some("MCP server name cannot be empty"));
    let mut http = server("web", "x", true);
    http.transport = "http".to_string();
    assert_eq!(validate_mcp_server(&http).err().as_deref(), Some("Only stdio transport is supported in this version"));
    assert_eq!(validate_mcp_server(&server("fs", "", true)).err().as_deref(), Some("MCP server command cannot be empty"));
}

#[test]
fn command_validation() {
    let mut c = AgentCommandConfig {
        slug: "plan".to_string(),
        title: "Plan".to_string(),
        description: String::new(),
        enabled: true,
        mode: default_insert_mode(),
        tags: vec![],
        aliases: vec![],
        body: "Do it".to_string(),
        source: "user".to_string(),
    };
    assert!(validate_agent_command(&c).is_ok());
    c.mode = "run".to_string();
    assert_eq!(validate_agent_command(&c).err().as_deref(), Some("Command mode must be insert or execute"));
    c.slug = "!!!".to_string();
    assert_eq!(validate_agent_command(&c).err().as_deref(), Some("Command slug is invalid"));
}

#[test]
fn upsert_matches_names_without_case() {
    let mut servers = vec![server("Files", "old", true), server("web", "w", true)];
    agent_upsert_mcp_server(&mut servers, UpsertMcpServerRequest { server: server("FILES", "new", true) }).expect("valid");
    assert_eq!(servers.len(), 2);
    assert_eq!(servers[0].command, "new");
    agent_upsert_mcp_server(&mut servers, UpsertMcpServerRequest { server: server("git", "g", false) }).expect("valid");
    assert_eq!(servers.len(), 3);
    assert!(agent_upsert_mcp_server(&mut servers, UpsertMcpServerRequest { server: server("", "g", false) }).is_err());
    let left = agent_delete_mcp_server(servers, &DeleteMcpServerRequest { name: "web".to_string() });
    assert_eq!(left.len(), 2);
}

#[test]
fn capabilities_list_enabled_items() {
    let tooling = AgentToolingConfig {
        mcp_servers: vec![server("a", "x", true), server("b", "y", false)],
        skills: vec![skill("s1", false), skill("s2", true)],
        commands: vec![],
    };
    let caps = agent_list_capabilities(&tooling);
    assert_eq!(caps.builtin_tools, action_vocabulary());
    assert_eq!(caps.builtin_tools.len(), 13);
    assert_eq!(caps.skills, vec!["s2"]);
    assert_eq!(caps.mcp_servers, vec!["a"]);
    let counts = agent_reload_tooling(&tooling);
    assert_eq!((counts.mcp_servers, counts.skills, counts.commands), (2, 2, 0));
}

#[test]
fn frontmatter_split() {
    let text = "\n  ---\ntitle: \"Plan\"\n# note\nbad line\ntitle: Second\nslug : plan-day \n---\nBody here\n";
    let (fm, body) = split_frontmatter(text);
    assert_eq!(fm.len(), 3);
    assert_eq!(frontmatter_get(&fm, "title").as_deref(), Some("Second"));
    assert_eq!(frontmatter_get(&fm, "slug").as_deref(), Some("plan-day"));
    assert_eq!(body, "Body here\n");
    let (none, plain) = split_frontmatter("  no front matter");
    assert!(none.is_empty());
    assert_eq!(plain, "no front matter");
}

#[test]
fn command_files() {
    let text = "---\ntitle: Daily\nenabled: false\ntags: [\"a\", \"b\"]\n---\n\n  Plan my day \n";
    let c = parse_command_markdown(text, Some("Daily-Plan"), "user").expect("valid");
    assert_eq!(c.slug, "daily-plan");
    assert_eq!(c.title, "Daily");
    assert!(!c.enabled);
    assert_eq!(c.mode, "insert");
    assert_eq!(c.tags, vec!["a", "b"]);
    assert_eq!(c.body, "Plan my day");
    let md = build_command_markdown(&c);
    assert_eq!(md, "---\nslug: daily-plan\ntitle: \"Daily\"\ndescription: \"\"\nenabled: false\nmode: insert\ntags: [\"a\", \"b\"]\naliases: []\n---\n\nPlan my day\n");
    let again = parse_command_markdown(&md, None, "user").expect("valid");
    assert_eq!(again.slug, c.slug);
    assert_eq!(again.tags, c.tags);
    assert_eq!(parse_command_markdown("---\nmode: run\n---\nx", Some("c"), "user").err().as_deref(), Some("Command mode must be insert or execute"));
}
