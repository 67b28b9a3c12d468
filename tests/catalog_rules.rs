use workbench_agent::catalog::{load_tooling_config, merge_entries, sort_entries};
use workbench_agent::sink::PersistQueue;
use workbench_agent::tooling::{skill_from_manifest, McpServerConfig, SkillConfig};

fn server(name: &str, command: &str) -> McpServerConfig {
    McpServerConfig {
        name: name.to_string(),
        transport: "stdio".to_string(),
        command: command.to_string(),
        args: vec![],
        env: vec![],
        cwd: None,
        enabled: true,
    }
}

fn skill(id: &str, version: &str) -> SkillConfig {
    SkillConfig {
        id: id.to_string(),
        name: id.to_string(),
        description: String::new(),
        version: version.to_string(),
        enabled: true,
        path: String::new(),
        source: "builtin".to_string(),
    }
}

#[test]
fn user_entries_replace_builtin_ones_and_lists_are_sorted() {
    let tooling = load_tooling_config(
        vec![server("Web", "builtin-web"), server("files", "builtin-files")],
        vec![server("web", "user-web"), server("alpha", "a")],
        vec![skill("zeta", "1"), skill("beta", "1")],
        vec![skill("beta", "2")],
        vec![],
        vec![],
    );
    let names: Vec<&str> = tooling.mcp_servers.iter().map(|s| s.name.as_str()).collect();
    assert_eq!(names, vec!["alpha", "files", "web"]);
    assert_eq!(tooling.mcp_servers[2].command, "user-web");
    let ids: Vec<&str> = tooling.skills.iter().map(|s| s.id.as_str()).collect();
    assert_eq!(ids, vec!["beta", "zeta"]);
    assert_eq!(tooling.skills[0].version, "2");
    assert!(tooling.commands.is_empty());
}

#[test]
fn sorting_uses_byte_order() {
    let sorted = sort_entries(vec![skill("b", "1"), skill("B", "1"), skill("ab", "1"), skill("a", "1")]);
    let ids: Vec<&str> = sorted.iter().map(|s| s.id.as_str()).collect();
    assert_eq!(ids, vec!["B", "a", "ab", "b"]);
    let merged = merge_entries(vec![skill("x", "1"), skill("y", "1"), skill("x", "3")]);
    assert_eq!(merged.len(), 2);
    assert_eq!(merged[0].version, "3");
}

#[test]
fn skill_manifests() {
    let s = skill_from_manifest("{\"id\":\"notes\",\"version\":\"1.2.0\",\"enabled\":false}", "/skills/notes", "user").expect("valid");
    assert_eq!(s.name, "notes");
    assert_eq!(s.version, "1.2.0");
    assert!(!s.enabled);
    assert_eq!(s.path, "/skills/notes");
    assert_eq!(skill_from_manifest("{\"name\":\"x\"}", "/p", "user").err().as_deref(), Some("Skill manifest missing id"));
    assert_eq!(skill_from_manifest("not json", "/p", "user").err().as_deref(), Some("Failed to parse manifest json"));
}

#[test]
fn persistence_queue_drops_when_full() {
    let mut q = PersistQueue::new(2);
    assert!(q.offer("a"));
    assert!(q.offer("b"));
    assert!(!q.offer("c"));
    assert_eq!(q.dropped(), 1);
    assert_eq!(q.len(), 2);
    assert_eq!(q.drain(), vec!["a", "b"]);
    assert_eq!(q.len(), 0);
    assert!(q.offer("d"));
}
