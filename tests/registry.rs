use codex_swarm::config::SwarmRole;
use codex_swarm::hub::StoredFile;
use codex_swarm::registry::{SwarmAgentInfo, SwarmRegistry};

fn role(name: &str, tier: i32) -> SwarmRole {
    SwarmRole {
        name: name.to_string(),
        model: None,
        base_instructions: None,
        tier,
        description: None,
    }
}

fn info(id: &str, role: &str, tier: i32, parent: Option<&str>) -> SwarmAgentInfo {
    SwarmAgentInfo {
        thread_id: id.to_string(),
        role: role.to_string(),
        model: None,
        tier,
        parent_thread_id: parent.map(|p| p.to_string()),
    }
}

#[test]
fn register_root_then_get_returns_record() {
    let mut registry = SwarmRegistry::new("/home/u/.codex".to_string());
    let w = registry.register_root("root-1".to_string(), &role("Scholar", 2), Some("m".to_string()));
    let got = registry.get("root-1").expect("registered");
    assert_eq!(got.role, "Scholar");
    assert_eq!(got.tier, 2);
    assert_eq!(got.model.as_deref(), Some("m"));
    assert_eq!(got.parent_thread_id, None);
    assert_eq!(w.path.as_deref(), Some("/home/u/.codex/swarm/swarm_registry.json"));
    assert_eq!(w.agents, vec![got]);
}

#[test]
fn register_child_records_parent_and_overwrites_by_id() {
    let mut registry = SwarmRegistry::new("/h".to_string());
    registry.register_root("p".to_string(), &role("Scholar", 2), None);
    registry.register_child("c".to_string(), "p".to_string(), &role("Scribe", 1), None);
    registry.register_child("c".to_string(), "p".to_string(), &role("Scout", 0), None);
    let snapshot = registry.snapshot();
    assert_eq!(snapshot.len(), 2);
    assert_eq!(snapshot.iter().filter(|a| a.thread_id == "c").count(), 1);
    let child = registry.get("c").unwrap();
    assert_eq!(child.role, "Scout");
    assert_eq!(child.tier, 0);
    assert_eq!(child.parent_thread_id.as_deref(), Some("p"));
    assert!(registry.get("nobody").is_none());
}

#[test]
fn empty_home_means_no_registry_file() {
    let registry = SwarmRegistry::new(String::new());
    assert_eq!(registry.registry_state_path(), None);
    assert_eq!(registry.persist_now().path, None);
}

#[test]
fn storage_dir_overrides_home() {
    let mut registry = SwarmRegistry::new("/h".to_string());
    registry.apply_storage_dir(None);
    assert_eq!(registry.registry_state_path().as_deref(), Some("/h/swarm/swarm_registry.json"));
    registry.apply_storage_dir(Some("/data".to_string()));
    assert_eq!(registry.registry_state_path().as_deref(), Some("/data/swarm_registry.json"));
    registry.apply_storage_dir(None);
    assert_eq!(registry.registry_state_path().as_deref(), Some("/data/swarm_registry.json"));
}

#[test]
fn load_replaces_agents_and_later_duplicates_win() {
    let mut registry = SwarmRegistry::new("/h".to_string());
    registry.register_root("old".to_string(), &role("Scout", 0), None);
    let loaded = vec![
        info("a", "Scout", 0, None),
        info("b", "Scribe", 1, Some("a")),
        info("a", "Scholar", 2, None),
    ];
    assert_eq!(registry.load_from_storage(StoredFile::Parsed(loaded)), Ok(()));
    assert!(registry.get("old").is_none());
    assert_eq!(registry.snapshot().len(), 2);
    assert_eq!(registry.get("a").unwrap().role, "Scholar");
    assert_eq!(registry.get("b").unwrap().parent_thread_id.as_deref(), Some("a"));
}

#[test]
fn load_missing_or_broken_registry_keeps_agents() {
    let mut registry = SwarmRegistry::new("/h".to_string());
    registry.register_root("r".to_string(), &role("Scout", 0), None);
    assert_eq!(registry.load_from_storage(StoredFile::Missing), Ok(()));
    assert_eq!(
        registry.load_from_storage(StoredFile::Unreadable("denied".to_string())),
        Err("failed to read swarm registry: denied".to_string())
    );
    assert_eq!(
        registry.load_from_storage(StoredFile::Malformed("eof".to_string())),
        Err("failed to parse swarm registry: eof".to_string())
    );
    assert_eq!(registry.snapshot().len(), 1);
}

#[test]
fn default_registry_is_empty_without_file() {
    let registry = SwarmRegistry::default();
    assert!(registry.snapshot().is_empty());
    assert_eq!(registry.registry_state_path(), None);
}
