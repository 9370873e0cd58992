use codex_swarm::config::{default_roles, SwarmConfig, SwarmHierarchy, SwarmHubConfig, SwarmRole};
use codex_swarm::orchestrator::{
    build_spawn_settings, check_close, check_send, close_needs_shutdown, format_agent_status,
    format_wait_output, initial_final_statuses, is_final_status, plan_spawn, plan_wait,
    record_spawn, resolve_wait_timeout, sender_source, sender_source_for, truncate_preview,
    wait_output, AgentStatus, SenderSource, SpawnSettings, SwarmCommandError,
};
use codex_swarm::registry::SwarmRegistry;

fn swarm_config(upward: bool) -> SwarmConfig {
    SwarmConfig {
        enabled: true,
        root_role: Some("Scholar".to_string()),
        default_spawn_role: Some("Scribe".to_string()),
        roles: default_roles(),
        hierarchy: SwarmHierarchy {
            allow_upward_calls: upward,
            allow_same_tier_calls: true,
        },
        hub: SwarmHubConfig::default(),
    }
}

fn role_named(config: &SwarmConfig, name: &str) -> SwarmRole {
    config.role(name).unwrap().clone()
}

#[test]
fn wait_timeout_zero_is_refused() {
    assert_eq!(resolve_wait_timeout(Some(0)), Err(SwarmCommandError::NonPositiveTimeout));
    assert_eq!(resolve_wait_timeout(Some(-5)), Err(SwarmCommandError::NonPositiveTimeout));
    assert_eq!(
        SwarmCommandError::NonPositiveTimeout.message(),
        "timeout_ms must be positive"
    );
}

#[test]
fn wait_timeout_is_clamped() {
    assert_eq!(resolve_wait_timeout(Some(5_000)), Ok(10_000));
    assert_eq!(resolve_wait_timeout(Some(1)), Ok(10_000));
    assert_eq!(resolve_wait_timeout(Some(45_000)), Ok(45_000));
    assert_eq!(resolve_wait_timeout(Some(300_001)), Ok(300_000));
    assert_eq!(resolve_wait_timeout(Some(i64::MAX)), Ok(300_000));
    assert_eq!(resolve_wait_timeout(None), Ok(30_000));
}

#[test]
fn plan_wait_checks_timeout_then_ids() {
    let ids = vec!["a".to_string()];
    assert_eq!(plan_wait(Some(0), &Vec::new()), Err(SwarmCommandError::NonPositiveTimeout));
    assert_eq!(plan_wait(None, &Vec::new()), Err(SwarmCommandError::NoAgentIds));
    assert_eq!(plan_wait(Some(20_000), &ids), Ok(20_000));
    assert_eq!(
        SwarmCommandError::NoAgentIds.message(),
        "Must provide at least one agent id."
    );
}

#[test]
fn final_statuses() {
    assert!(!is_final_status(&AgentStatus::PendingInit));
    assert!(!is_final_status(&AgentStatus::Running));
    assert!(is_final_status(&AgentStatus::Completed(None)));
    assert!(is_final_status(&AgentStatus::Errored("x".to_string())));
    assert!(is_final_status(&AgentStatus::Shutdown));
    assert!(is_final_status(&AgentStatus::NotFound));
}

#[test]
fn wait_fast_path_returns_already_final_agents() {
    let ids = vec!["A".to_string(), "B".to_string()];
    let current = vec![
        Some(AgentStatus::Completed(Some("ok".to_string()))),
        Some(AgentStatus::Running),
    ];
    let initial = initial_final_statuses(&ids, &current);
    assert_eq!(
        initial,
        vec![("A".to_string(), AgentStatus::Completed(Some("ok".to_string())))]
    );
    let out = wait_output(initial, None);
    assert!(!out.timed_out);
    assert_eq!(out.statuses.len(), 1);
    assert_eq!(out.statuses[0].0, "A");
}

#[test]
fn wait_with_all_final_returns_all_of_them() {
    let ids = vec!["A".to_string(), "B".to_string(), "C".to_string()];
    let current = vec![
        Some(AgentStatus::Shutdown),
        None,
        Some(AgentStatus::Errored("boom".to_string())),
    ];
    let out = wait_output(initial_final_statuses(&ids, &current), None);
    assert!(!out.timed_out);
    assert_eq!(
        out.statuses,
        vec![
            ("A".to_string(), AgentStatus::Shutdown),
            ("B".to_string(), AgentStatus::NotFound),
            ("C".to_string(), AgentStatus::Errored("boom".to_string())),
        ]
    );
}

#[test]
fn wait_without_final_agents_reports_first_finished_or_timeout() {
    let ids = vec!["A".to_string()];
    let current = vec![Some(AgentStatus::PendingInit)];
    let initial = initial_final_statuses(&ids, &current);
    assert!(initial.is_empty());
    let out = wait_output(initial, Some(("A".to_string(), AgentStatus::Completed(None))));
    assert!(!out.timed_out);
    assert_eq!(out.statuses, vec![("A".to_string(), AgentStatus::Completed(None))]);
    let out = wait_output(Vec::new(), None);
    assert!(out.timed_out);
    assert!(out.statuses.is_empty());
    assert_eq!(format_wait_output(&out.statuses, out.timed_out), "timed out");
}

#[test]
fn spawn_upward_is_blocked_by_policy() {
    let config = swarm_config(false);
    let mut registry = SwarmRegistry::new("/h".to_string());
    registry.register_root("sender".to_string(), &role_named(&config, "Scout"), None);
    let r = plan_spawn(&config, &registry, "sender", false, Some("Scholar"), "do it");
    assert_eq!(r, Err(SwarmCommandError::SpawnBlocked));
    assert!(r.unwrap_err().is_policy());
    let config = swarm_config(true);
    let r = plan_spawn(&config, &registry, "sender", false, Some("Scholar"), "do it");
    assert_eq!(r.unwrap().unwrap().name, "Scholar");
}

#[test]
fn spawn_within_tier_registers_child() {
    let config = swarm_config(false);
    let mut registry = SwarmRegistry::new("/h".to_string());
    registry.register_root("sender".to_string(), &role_named(&config, "Scholar"), None);
    let role = plan_spawn(&config, &registry, "sender", false, Some("Scribe"), "map the repo").unwrap();
    assert_eq!(role.as_ref().unwrap().tier, 1);
    let settings = build_spawn_settings(
        SpawnSettings { model: None, base_instructions: None },
        "fallback-model",
        role.as_ref(),
    );
    assert_eq!(settings.model.as_deref(), Some("gpt-5.1-codex-max"));
    let w = record_spawn(
        &mut registry,
        &config,
        &role,
        "child".to_string(),
        "sender".to_string(),
        settings.model.clone(),
    );
    assert!(w.is_some());
    let child = registry.get("child").unwrap();
    assert_eq!(child.tier, 1);
    assert_eq!(child.role, "Scribe");
    assert_eq!(child.parent_thread_id.as_deref(), Some("sender"));
    assert_eq!(child.model.as_deref(), Some("gpt-5.1-codex-max"));
}

#[test]
fn spawn_refusals_in_order() {
    let config = swarm_config(false);
    let registry = SwarmRegistry::new("/h".to_string());
    assert_eq!(
        plan_spawn(&config, &registry, "s", true, Some("Scout"), ""),
        Err(SwarmCommandError::BothRoleKinds)
    );
    assert_eq!(
        plan_spawn(&config, &registry, "s", false, Some("Scout"), "  "),
        Err(SwarmCommandError::EmptyMessage)
    );
    let r = plan_spawn(&config, &registry, "s", false, Some("Wizard"), "hi");
    assert_eq!(r, Err(SwarmCommandError::UnknownRole("Wizard".to_string())));
    assert_eq!(r.unwrap_err().message(), "Unknown swarm role 'Wizard'.");
    // An unregistered sender is not held to the policy.
    let r = plan_spawn(&config, &registry, "s", false, Some("scholar"), "hi");
    assert_eq!(r.unwrap().unwrap().name, "Scholar");
    // Without a role the configured default is used when enabled.
    let r = plan_spawn(&config, &registry, "s", true, None, "hi");
    assert_eq!(r.unwrap().unwrap().name, "Scribe");
    let mut disabled = swarm_config(false);
    disabled.enabled = false;
    assert_eq!(plan_spawn(&disabled, &registry, "s", false, None, "hi"), Ok(None));
}

#[test]
fn record_spawn_only_when_enabled_with_role() {
    let mut config = swarm_config(false);
    config.enabled = false;
    let mut registry = SwarmRegistry::new("/h".to_string());
    let role = Some(role_named(&config, "Scout"));
    assert!(record_spawn(&mut registry, &config, &role, "c".to_string(), "p".to_string(), None).is_none());
    assert!(registry.snapshot().is_empty());
    let config = swarm_config(false);
    assert!(record_spawn(&mut registry, &config, &None, "c".to_string(), "p".to_string(), None).is_none());
    assert!(registry.snapshot().is_empty());
}

#[test]
fn send_upward_is_blocked() {
    let config = swarm_config(false);
    let mut registry = SwarmRegistry::new("/h".to_string());
    registry.register_root("low".to_string(), &role_named(&config, "Scout"), None);
    registry.register_root("high".to_string(), &role_named(&config, "Scholar"), None);
    let r = check_send(&config, &registry, "low", "high", "hello");
    assert_eq!(r, Err(SwarmCommandError::SendBlocked));
    assert_eq!(
        r.unwrap_err().message(),
        "Swarm hierarchy prevents sending input to a higher-tier agent."
    );
    assert_eq!(check_send(&config, &registry, "high", "low", "hello"), Ok(()));
    assert_eq!(check_send(&config, &registry, "low", "unknown", "hello"), Ok(()));
    assert_eq!(
        check_send(&config, &registry, "high", "low", " "),
        Err(SwarmCommandError::EmptyMessage)
    );
    let mut disabled = swarm_config(false);
    disabled.enabled = false;
    assert_eq!(check_send(&disabled, &registry, "low", "high", "hello"), Ok(()));
}

#[test]
fn close_upward_is_blocked() {
    let config = swarm_config(false);
    let mut registry = SwarmRegistry::new("/h".to_string());
    registry.register_root("low".to_string(), &role_named(&config, "Scout"), None);
    registry.register_root("high".to_string(), &role_named(&config, "Scholar"), None);
    assert_eq!(check_close(&config, &registry, "low", "high"), Err(SwarmCommandError::CloseBlocked));
    assert_eq!(check_close(&config, &registry, "high", "low"), Ok(()));
    assert!(close_needs_shutdown(&AgentStatus::Running));
    assert!(!close_needs_shutdown(&AgentStatus::Shutdown));
}

#[test]
fn spawn_settings_layer_role_over_base() {
    let role = SwarmRole {
        name: "R".to_string(),
        model: None,
        base_instructions: Some("Be brief.".to_string()),
        tier: 0,
        description: None,
    };
    let s = build_spawn_settings(
        SpawnSettings {
            model: Some("base-model".to_string()),
            base_instructions: Some("You help.".to_string()),
        },
        "fallback",
        Some(&role),
    );
    assert_eq!(s.model.as_deref(), Some("base-model"));
    assert_eq!(s.base_instructions.as_deref(), Some("You help.\n\nBe brief."));
    let s = build_spawn_settings(
        SpawnSettings { model: None, base_instructions: Some("  ".to_string()) },
        "fallback",
        Some(&role),
    );
    assert_eq!(s.model.as_deref(), Some("fallback"));
    assert_eq!(s.base_instructions.as_deref(), Some("Be brief."));
    let blank_role = SwarmRole { base_instructions: Some(" ".to_string()), ..role };
    let s = build_spawn_settings(
        SpawnSettings { model: None, base_instructions: Some("keep".to_string()) },
        "fallback",
        Some(&blank_role),
    );
    assert_eq!(s.base_instructions.as_deref(), Some("keep"));
}

#[test]
fn status_text_and_previews() {
    assert_eq!(format_agent_status(&AgentStatus::PendingInit), "pending init");
    assert_eq!(format_agent_status(&AgentStatus::Running), "running");
    assert_eq!(format_agent_status(&AgentStatus::Completed(None)), "completed");
    assert_eq!(format_agent_status(&AgentStatus::Completed(Some("  ".to_string()))), "completed");
    assert_eq!(
        format_agent_status(&AgentStatus::Completed(Some(" ok ".to_string()))),
        "completed: \"ok\""
    );
    assert_eq!(format_agent_status(&AgentStatus::Errored("bad".to_string())), "errored: \"bad\"");
    assert_eq!(format_agent_status(&AgentStatus::Shutdown), "shutdown");
    assert_eq!(format_agent_status(&AgentStatus::NotFound), "not found");
    let long = "é".repeat(130);
    let text = format_agent_status(&AgentStatus::Errored(long));
    assert_eq!(text, format!("errored: \"{}\u{2026}\"", "é".repeat(120)));
    assert_eq!(truncate_preview("abc", 3), "abc");
    assert_eq!(truncate_preview("abcd", 3), "abc\u{2026}");
    assert_eq!(truncate_preview("", 0), "");
}

#[test]
fn wait_report_lines() {
    let statuses = vec![
        ("A".to_string(), AgentStatus::Completed(Some("ok".to_string()))),
        ("B".to_string(), AgentStatus::NotFound),
    ];
    assert_eq!(
        format_wait_output(&statuses, false),
        "A: completed: \"ok\"\nB: not found"
    );
    assert_eq!(format_wait_output(&Vec::new(), false), "");
}

#[test]
fn sender_source_prefers_latest_then_id_then_name() {
    assert_eq!(sender_source(Some("x"), true, true), SenderSource::Latest { all: true });
    assert_eq!(sender_source(None, true, false), SenderSource::Latest { all: false });
    assert_eq!(
        sender_source(Some("550e8400-e29b-41d4-a716-446655440000"), false, false),
        SenderSource::SessionId("550e8400-e29b-41d4-a716-446655440000".to_string())
    );
    assert_eq!(
        sender_source(Some("my-session"), false, false),
        SenderSource::SessionName("my-session".to_string())
    );
    assert_eq!(sender_source(None, false, true), SenderSource::Fresh);
    assert_eq!(
        sender_source_for(Some("abc"), false, false, true),
        SenderSource::SessionId("abc".to_string())
    );
}
