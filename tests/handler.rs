use codex_swarm::handler::{
    default_vote_weight, handle_action, SwarmHubArgs, SwarmHubContext, SwarmHubHandler,
    SwarmHubReply,
};
use codex_swarm::hub::{SwarmHub, SwarmLeakEntry, SwarmLeakTracker};
use codex_swarm::registry::SwarmAgentInfo;

fn agent(role: &str, tier: i32) -> SwarmAgentInfo {
    SwarmAgentInfo {
        thread_id: "caller".to_string(),
        role: role.to_string(),
        model: None,
        tier,
        parent_thread_id: None,
    }
}

fn ctx(id: &str, now: u128, caller: Option<SwarmAgentInfo>) -> SwarmHubContext {
    SwarmHubContext {
        thread_id: "caller".to_string(),
        caller,
        now_unix_ms: now,
        new_id: id.to_string(),
        loaded_tracker: None,
    }
}

fn run(hub: &mut SwarmHub, args: SwarmHubArgs) -> Result<SwarmHubReply, String> {
    handle_action(hub, args, ctx("fresh", 42, None)).map(|o| o.reply)
}

fn create_vote(hub: &mut SwarmHub, id: &str) {
    let reply = handle_action(
        hub,
        SwarmHubArgs::VoteCreate {
            topic: "ship it?".to_string(),
            options: vec!["yes".to_string(), "no".to_string()],
        },
        ctx(id, 1, None),
    )
    .unwrap();
    match reply.reply {
        SwarmHubReply::Vote(v) => {
            assert_eq!(v.id, id);
            assert!(v.votes.is_empty());
        }
        other => panic!("unexpected reply {other:?}"),
    }
}

#[test]
fn lounge_append_rejects_blank_text_without_change() {
    let mut hub = SwarmHub::new("/h".to_string());
    let before = hub.snapshot();
    let r = run(&mut hub, SwarmHubArgs::LoungeAppend { text: " \n ".to_string() });
    assert_eq!(r, Err("lounge text must be non-empty".to_string()));
    assert_eq!(hub.snapshot(), before);
}

#[test]
fn lounge_append_and_read_newest_first_with_limit() {
    let mut hub = SwarmHub::new("/h".to_string());
    for text in ["one", "two", "three"] {
        let out = handle_action(
            &mut hub,
            SwarmHubArgs::LoungeAppend { text: text.to_string() },
            ctx("x", 7, None),
        )
        .unwrap();
        assert_eq!(out.reply, SwarmHubReply::Done);
        assert!(out.write.is_some());
    }
    let state = hub.snapshot();
    assert_eq!(state.lounge[0].author_thread_id.as_deref(), Some("caller"));
    assert_eq!(state.lounge[0].created_at_unix_ms, 7);

    let out = handle_action(&mut hub, SwarmHubArgs::LoungeRead { limit: Some(2) }, ctx("x", 7, None)).unwrap();
    assert!(out.write.is_none());
    match out.reply {
        SwarmHubReply::LoungeEntries(es) => {
            let texts: Vec<&str> = es.iter().map(|e| e.text.as_str()).collect();
            assert_eq!(texts, vec!["three", "two"]);
        }
        other => panic!("unexpected reply {other:?}"),
    }
    match run(&mut hub, SwarmHubArgs::LoungeRead { limit: None }).unwrap() {
        SwarmHubReply::LoungeEntries(es) => assert_eq!(es.len(), 3),
        other => panic!("unexpected reply {other:?}"),
    }
    assert_eq!(run(&mut hub, SwarmHubArgs::LoungeClear), Ok(SwarmHubReply::Done));
    assert!(hub.snapshot().lounge.is_empty());
}

#[test]
fn vote_create_requires_topic_and_options() {
    let mut hub = SwarmHub::new("/h".to_string());
    let r = run(
        &mut hub,
        SwarmHubArgs::VoteCreate { topic: "  ".to_string(), options: vec!["a".to_string()] },
    );
    assert_eq!(r, Err("vote topic and options are required".to_string()));
    let r = run(&mut hub, SwarmHubArgs::VoteCreate { topic: "t".to_string(), options: vec![] });
    assert_eq!(r, Err("vote topic and options are required".to_string()));
    assert!(hub.snapshot().votes.is_empty());
}

#[test]
fn vote_cast_with_default_weight_for_scholar() {
    let mut hub = SwarmHub::new("/h".to_string());
    create_vote(&mut hub, "vote-1");
    let out = handle_action(
        &mut hub,
        SwarmHubArgs::VoteCast {
            vote_id: "vote-1".to_string(),
            option: "yes".to_string(),
            weight: None,
        },
        ctx("unused", 2, Some(agent("scholar", 0))),
    )
    .unwrap();
    let state = hub.snapshot();
    let cast = &state.votes[0].votes[0];
    assert_eq!(cast.option, "yes");
    assert_eq!(cast.weight, 2);
    assert_eq!(cast.voter_thread_id.as_deref(), Some("caller"));
    assert_eq!(out.reply, SwarmHubReply::Vote(state.votes[0].clone()));
}

#[test]
fn vote_cast_weights_and_errors() {
    let mut hub = SwarmHub::new("/h".to_string());
    create_vote(&mut hub, "v");
    let cast = |weight: Option<i32>| SwarmHubArgs::VoteCast {
        vote_id: "v".to_string(),
        option: "no".to_string(),
        weight,
    };
    let r = handle_action(&mut hub, cast(None), ctx("u", 2, Some(agent("Scout", 0))));
    assert!(r.is_ok());
    let r = handle_action(&mut hub, cast(Some(5)), ctx("u", 2, None));
    assert!(r.is_ok());
    let weights: Vec<i32> = hub.snapshot().votes[0].votes.iter().map(|c| c.weight).collect();
    assert_eq!(weights, vec![1, 5]);

    let before = hub.snapshot();
    assert_eq!(run(&mut hub, cast(Some(0))), Err("vote weight must be positive".to_string()));
    assert_eq!(run(&mut hub, cast(Some(-3))), Err("vote weight must be positive".to_string()));
    let missing = SwarmHubArgs::VoteCast {
        vote_id: "nope".to_string(),
        option: "no".to_string(),
        weight: Some(-1),
    };
    assert_eq!(run(&mut hub, missing), Err("vote_id not found".to_string()));
    assert_eq!(hub.snapshot(), before);
}

#[test]
fn default_vote_weight_by_role_and_tier() {
    assert_eq!(default_vote_weight(&None), 1);
    assert_eq!(default_vote_weight(&Some(agent("Scout", 0))), 1);
    assert_eq!(default_vote_weight(&Some(agent("SCHOLAR", 0))), 2);
    assert_eq!(default_vote_weight(&Some(agent("Scribe", 2))), 2);
    assert_eq!(default_vote_weight(&Some(agent("Scribe", 1))), 1);
    assert_eq!(default_vote_weight(&Some(agent(" scholar", 1))), 1);
}

#[test]
fn vote_status_filters_by_id() {
    let mut hub = SwarmHub::new("/h".to_string());
    create_vote(&mut hub, "a");
    create_vote(&mut hub, "b");
    match run(&mut hub, SwarmHubArgs::VoteStatus { vote_id: Some("b".to_string()) }).unwrap() {
        SwarmHubReply::Votes(vs) => {
            assert_eq!(vs.len(), 1);
            assert_eq!(vs[0].id, "b");
        }
        other => panic!("unexpected reply {other:?}"),
    }
    match run(&mut hub, SwarmHubArgs::VoteStatus { vote_id: None }).unwrap() {
        SwarmHubReply::Votes(vs) => assert_eq!(vs.len(), 2),
        other => panic!("unexpected reply {other:?}"),
    }
    match run(&mut hub, SwarmHubArgs::VoteStatus { vote_id: Some("zzz".to_string()) }).unwrap() {
        SwarmHubReply::Votes(vs) => assert!(vs.is_empty()),
        other => panic!("unexpected reply {other:?}"),
    }
}

#[test]
fn timer_start_stop_status() {
    let mut hub = SwarmHub::new("/h".to_string());
    let start = SwarmHubArgs::TimerStart { label: Some("sprint".to_string()), duration_ms: Some(60_000) };
    handle_action(&mut hub, start, ctx("u", 1234, None)).unwrap();
    let timer = hub.snapshot().timer;
    assert!(timer.running);
    assert_eq!(timer.started_at_unix_ms, Some(1234));
    assert_eq!(timer.label.as_deref(), Some("sprint"));

    match run(&mut hub, SwarmHubArgs::TimerStop).unwrap() {
        SwarmHubReply::Timer(t) => {
            assert!(!t.running);
            assert_eq!(t.started_at_unix_ms, None);
            assert_eq!(t.duration_ms, Some(60_000));
            assert_eq!(t.label.as_deref(), Some("sprint"));
        }
        other => panic!("unexpected reply {other:?}"),
    }
    assert_eq!(
        run(&mut hub, SwarmHubArgs::TimerStatus).unwrap(),
        SwarmHubReply::Timer(hub.snapshot().timer)
    );
}

#[test]
fn leak_tracker_actions() {
    let mut hub = SwarmHub::new("/h".to_string());
    let add = |label: &str, value: &str| SwarmHubArgs::LeakTrackerAdd {
        label: label.to_string(),
        value: value.to_string(),
        context: None,
        severity: Some("low".to_string()),
    };
    assert_eq!(run(&mut hub, add("", "v")), Err("label and value are required".to_string()));
    assert_eq!(run(&mut hub, add("l", " ")), Err("label and value are required".to_string()));
    let out = handle_action(&mut hub, add("api key", "abc"), ctx("leak-1", 9, None)).unwrap();
    let w = out.write.unwrap();
    assert_eq!(w.leak_tracker_path.as_deref(), Some("/h/swarm_leak_tracker.json"));
    handle_action(&mut hub, add("second", "def"), ctx("leak-2", 10, None)).unwrap();
    let entry = &hub.snapshot().leak_tracker.entries[0];
    assert_eq!(entry.id, "leak-1");
    assert_eq!(entry.source_thread_id.as_deref(), Some("caller"));
    match run(&mut hub, SwarmHubArgs::LeakTrackerList { limit: Some(1) }).unwrap() {
        SwarmHubReply::LeakEntries(es) => {
            assert_eq!(es.len(), 1);
            assert_eq!(es[0].id, "leak-2");
        }
        other => panic!("unexpected reply {other:?}"),
    }
    let out = handle_action(&mut hub, SwarmHubArgs::LeakTrackerClear, ctx("u", 1, None)).unwrap();
    assert!(out.write.unwrap().leak_tracker_path.is_some());
    assert!(hub.snapshot().leak_tracker.entries.is_empty());
}

#[test]
fn leak_tracker_set_path_defaults_to_loading() {
    let mut hub = SwarmHub::new("/h".to_string());
    let mut c = ctx("u", 1, None);
    c.loaded_tracker = Some(SwarmLeakTracker {
        entries: vec![SwarmLeakEntry {
            id: "old".to_string(),
            label: "l".to_string(),
            value: "v".to_string(),
            context: None,
            severity: None,
            created_at_unix_ms: 0,
            source_thread_id: None,
        }],
    });
    let args = SwarmHubArgs::LeakTrackerSetPath { path: "/t/leaks.json".to_string(), load_existing: None };
    assert_eq!(handle_action(&mut hub, args, c).unwrap().reply, SwarmHubReply::Done);
    let state = hub.snapshot();
    assert_eq!(state.leak_tracker_path.as_deref(), Some("/t/leaks.json"));
    assert_eq!(state.leak_tracker.entries[0].id, "old");
}

#[test]
fn task_add_defaults_status_and_lists_newest_first() {
    let mut hub = SwarmHub::new("/h".to_string());
    assert_eq!(
        run(&mut hub, SwarmHubArgs::TaskAdd { title: "\t".to_string(), status: None, notes: None }),
        Err("task title is required".to_string())
    );
    let out = handle_action(
        &mut hub,
        SwarmHubArgs::TaskAdd { title: "map".to_string(), status: None, notes: Some("n".to_string()) },
        ctx("task-1", 11, None),
    )
    .unwrap();
    match out.reply {
        SwarmHubReply::Task(t) => {
            assert_eq!(t.id, "task-1");
            assert_eq!(t.status, "pending");
            assert_eq!(t.owner_thread_id.as_deref(), Some("caller"));
            assert_eq!(t.created_at_unix_ms, 11);
        }
        other => panic!("unexpected reply {other:?}"),
    }
    handle_action(
        &mut hub,
        SwarmHubArgs::TaskAdd { title: "audit".to_string(), status: Some("done".to_string()), notes: None },
        ctx("task-2", 12, None),
    )
    .unwrap();
    match run(&mut hub, SwarmHubArgs::TaskList { limit: None }).unwrap() {
        SwarmHubReply::Tasks(ts) => {
            let ids: Vec<&str> = ts.iter().map(|t| t.id.as_str()).collect();
            assert_eq!(ids, vec!["task-2", "task-1"]);
            assert_eq!(ts[0].status, "done");
        }
        other => panic!("unexpected reply {other:?}"),
    }
    match run(&mut hub, SwarmHubArgs::TaskList { limit: Some(0) }).unwrap() {
        SwarmHubReply::Tasks(ts) => assert!(ts.is_empty()),
        other => panic!("unexpected reply {other:?}"),
    }
}

#[test]
fn evidence_decision_artifact_actions() {
    let mut hub = SwarmHub::new("/h".to_string());
    assert_eq!(
        run(&mut hub, SwarmHubArgs::EvidenceAdd { summary: "".to_string(), severity: None, source: None }),
        Err("evidence summary is required".to_string())
    );
    assert_eq!(
        run(&mut hub, SwarmHubArgs::DecisionAdd { summary: " ".to_string(), rationale: None }),
        Err("decision summary is required".to_string())
    );
    assert_eq!(
        run(&mut hub, SwarmHubArgs::ArtifactAdd { label: "".to_string(), path: None }),
        Err("artifact label is required".to_string())
    );
    let r = run(&mut hub, SwarmHubArgs::EvidenceAdd {
        summary: "s".to_string(),
        severity: Some("high".to_string()),
        source: None,
    });
    assert!(matches!(r, Ok(SwarmHubReply::Evidence(ref e)) if e.id == "fresh" && e.created_at_unix_ms == 42));
    let r = run(&mut hub, SwarmHubArgs::DecisionAdd { summary: "go".to_string(), rationale: None });
    assert!(matches!(r, Ok(SwarmHubReply::Decision(ref d)) if d.summary == "go"));
    let r = run(&mut hub, SwarmHubArgs::ArtifactAdd { label: "log".to_string(), path: Some("a.txt".to_string()) });
    assert!(matches!(r, Ok(SwarmHubReply::Artifact(ref a)) if a.path.as_deref() == Some("a.txt")));
    assert!(matches!(run(&mut hub, SwarmHubArgs::EvidenceList { limit: None }), Ok(SwarmHubReply::EvidenceList(ref v)) if v.len() == 1));
    assert!(matches!(run(&mut hub, SwarmHubArgs::DecisionList { limit: Some(5) }), Ok(SwarmHubReply::Decisions(ref v)) if v.len() == 1));
    assert!(matches!(run(&mut hub, SwarmHubArgs::ArtifactList { limit: None }), Ok(SwarmHubReply::Artifacts(ref v)) if v.len() == 1));
}

#[test]
fn handler_stamps_uuid_and_current_time() {
    let mut hub = SwarmHub::new("/h".to_string());
    let handler = SwarmHubHandler;
    let out = handler
        .handle(
            &mut hub,
            SwarmHubArgs::TaskAdd { title: "t".to_string(), status: None, notes: None },
            "thread-9".to_string(),
            None,
            None,
        )
        .unwrap();
    match out.reply {
        SwarmHubReply::Task(t) => {
            assert_eq!(t.id.len(), 36);
            assert_eq!(t.id.matches('-').count(), 4);
            assert!(t.created_at_unix_ms > 1_600_000_000_000);
            assert_eq!(t.owner_thread_id.as_deref(), Some("thread-9"));
        }
        other => panic!("unexpected reply {other:?}"),
    }
    let second = handler
        .handle(
            &mut hub,
            SwarmHubArgs::TaskAdd { title: "u".to_string(), status: None, notes: None },
            "thread-9".to_string(),
            None,
            None,
        )
        .unwrap();
    let ids: Vec<String> = hub.snapshot().tasks.iter().map(|t| t.id.clone()).collect();
    assert_ne!(ids[0], ids[1]);
    assert!(second.write.is_some());
}
