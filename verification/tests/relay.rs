use trigger_relay::config::{Action, Config, Settings, Trigger, TriggerKind};
use trigger_relay::dispatch::{make_writes, ActionOutcome, DispatchError};
use trigger_relay::handler::{PollOutcome, TriggerHandler};
use trigger_relay::registry::{EventDecision, WatchRegistry};
use trigger_relay::value_map::ValueMap;
use trigger_relay::config::verbose;

/// Create an empty file so that a glob pattern has something to match.
fn ensure_file(path: &str) {
    let fd = nix::fcntl::open(
        path,
        nix::fcntl::OFlag::O_CREAT | nix::fcntl::OFlag::O_WRONLY,
        nix::sys::stat::Mode::from_bits_truncate(0o644),
    )
    .unwrap();
    nix::unistd::close(fd).unwrap();
}

fn vm(pairs: &[(&str, &str)]) -> ValueMap {
    let mut v: Vec<(String, String)> = Vec::new();
    for (k, val) in pairs {
        v.push((k.to_string(), val.to_string()));
    }
    ValueMap::new(v)
}

fn status_trigger() -> Trigger {
    Trigger {
        name: "t1".to_string(),
        kind: TriggerKind::SimpleFile,
        file: "/tmp/status".to_string(),
        map: vm(&[("on", "active"), ("off", "idle")]),
    }
}

#[test]
fn value_map_get_resolves_by_exact_match() {
    let m = vm(&[("on", "active"), ("off", "idle")]);
    assert_eq!(m.get("on"), Some("active".to_string()));
    assert_eq!(m.get("off"), Some("idle".to_string()));
    assert_eq!(m.get("dim"), None);
    assert_eq!(m.get(""), None);
}

#[test]
fn poll_trims_raw_content_before_resolving() {
    let mut h = TriggerHandler::new(status_trigger());
    assert_eq!(h.poll(0, "  on\n"), PollOutcome::Changed("active".to_string()));
}

#[test]
fn poll_within_debounce_window_reports_nothing() {
    let mut h = TriggerHandler::new(status_trigger());
    assert_eq!(h.poll(0, "on"), PollOutcome::Changed("active".to_string()));
    // Content changed, but less than the window elapsed: suppressed.
    assert_eq!(h.poll(30, "off"), PollOutcome::Suppressed);
    assert_eq!(h.poll(49, "off"), PollOutcome::Suppressed);
    // At the window's edge the changed value comes through.
    assert_eq!(h.poll(99, "off"), PollOutcome::Changed("idle".to_string()));
}

#[test]
fn poll_same_value_across_windows_reports_nothing() {
    let mut h = TriggerHandler::new(status_trigger());
    assert_eq!(h.poll(0, "on"), PollOutcome::Changed("active".to_string()));
    assert_eq!(h.poll(100, "on"), PollOutcome::Unchanged);
    assert_eq!(h.poll(200, "on"), PollOutcome::Unchanged);
    // Only a change of the resolved value fires again.
    assert_eq!(h.poll(300, "off"), PollOutcome::Changed("idle".to_string()));
}

#[test]
fn poll_mapping_miss_reports_nothing_and_keeps_cache() {
    let mut h = TriggerHandler::new(status_trigger());
    assert_eq!(h.poll(0, "on"), PollOutcome::Changed("active".to_string()));
    // Unmapped content: a warning for the caller, no value, cache untouched.
    assert_eq!(h.poll(100, "garbled"), PollOutcome::MappingMiss);
    // The cache still holds "active", so "on" does not fire again.
    assert_eq!(h.poll(200, "on"), PollOutcome::Unchanged);
    // But the debounce clock did advance on the miss.
    assert!(!h.should_poll(120));
}

#[test]
fn poll_miss_before_any_hit_caches_nothing() {
    let mut h = TriggerHandler::new(status_trigger());
    assert_eq!(h.poll(0, "garbled"), PollOutcome::MappingMiss);
    assert_eq!(h.poll(100, "on"), PollOutcome::Changed("active".to_string()));
}

#[test]
fn fresh_handler_polls_at_once() {
    let h = TriggerHandler::new(status_trigger());
    assert!(h.should_poll(0));
    assert!(h.should_poll(123456));
    assert_eq!(h.name(), "t1");
}

#[test]
fn make_writes_pairs_every_path_with_the_content() {
    let paths = vec!["/tmp/a".to_string(), "/tmp/b".to_string()];
    let ws = make_writes(paths, &"1".to_string());
    assert_eq!(ws.len(), 2);
    assert_eq!(ws[0].path, "/tmp/a");
    assert_eq!(ws[0].content, "1");
    assert_eq!(ws[1].path, "/tmp/b");
    assert_eq!(ws[1].content, "1");
}

#[test]
fn action_for_another_trigger_is_skipped() {
    let a = Action::SimpleFile {
        trigger: "t2".to_string(),
        file: "Cargo.toml".to_string(),
        values: vm(&[("active", "1")]),
    };
    assert!(matches!(a.on_trigger("t1", "active"), ActionOutcome::NotBound));
}

#[test]
fn action_without_content_for_the_value_reports_no_mapping() {
    let a = Action::SimpleFile {
        trigger: "t1".to_string(),
        file: "Cargo.toml".to_string(),
        values: vm(&[("active", "1")]),
    };
    assert!(matches!(a.on_trigger("t1", "idle"), ActionOutcome::NoMapping));
}

#[test]
fn action_plans_one_write_per_matched_path() {
    let target = "/tmp/trigger_relay_plan_one.txt";
    ensure_file(target);
    let a = Action::SimpleFile {
        trigger: "t1".to_string(),
        file: target.to_string(),
        values: vm(&[("active", "1")]),
    };
    match a.on_trigger("t1", "active") {
        ActionOutcome::Planned(ws) => {
            assert_eq!(ws.len(), 1);
            assert_eq!(ws[0].path, target);
            assert_eq!(ws[0].content, "1");
        }
        _ => panic!("expected a planned write"),
    }
}

#[test]
fn pattern_matching_nothing_plans_nothing_and_is_no_error() {
    let a = Action::SimpleFile {
        trigger: "t1".to_string(),
        file: "no_such_file_anywhere_*.xyz".to_string(),
        values: vm(&[("active", "1")]),
    };
    match a.on_trigger("t1", "active") {
        ActionOutcome::Planned(ws) => assert_eq!(ws.len(), 0),
        _ => panic!("an empty expansion is not an error"),
    }
}

#[test]
fn invalid_pattern_fails_that_action_only() {
    let a = Action::SimpleFile {
        trigger: "t1".to_string(),
        file: "[".to_string(),
        values: vm(&[("active", "1")]),
    };
    assert!(matches!(
        a.on_trigger("t1", "active"),
        ActionOutcome::Failed(DispatchError::BadPattern)
    ));
}

#[test]
fn config_dispatch_runs_every_action_independently() {
    // Two actions on the same trigger: the first has no content for the
    // value, the second still runs and plans its write.
    let target = "/tmp/trigger_relay_iso.txt";
    ensure_file(target);
    let cfg = Config {
        action: vec![
            Action::SimpleFile {
                trigger: "t1".to_string(),
                file: target.to_string(),
                values: vm(&[]),
            },
            Action::SimpleFile {
                trigger: "t1".to_string(),
                file: target.to_string(),
                values: vm(&[("active", "1")]),
            },
            Action::SimpleFile {
                trigger: "t2".to_string(),
                file: target.to_string(),
                values: vm(&[("active", "2")]),
            },
        ],
        trigger: vec![status_trigger()],
    };
    let outcomes = cfg.on_trigger("t1", "active");
    assert_eq!(outcomes.len(), 3);
    assert!(matches!(outcomes[0], ActionOutcome::NoMapping));
    match &outcomes[1] {
        ActionOutcome::Planned(ws) => {
            assert_eq!(ws.len(), 1);
            assert_eq!(ws[0].content, "1");
        }
        _ => panic!("the second action must still run"),
    }
    assert!(matches!(outcomes[2], ActionOutcome::NotBound));
}

#[test]
fn registry_routes_watch_ids_to_their_handler() {
    let mut reg = WatchRegistry::new();
    assert!(reg.install(7, TriggerHandler::new(status_trigger())));
    let mut t2 = status_trigger();
    t2.name = "t2".to_string();
    assert!(reg.install(9, TriggerHandler::new(t2)));
    // A watch identifier owns exactly one handler.
    assert!(!reg.install(7, TriggerHandler::new(status_trigger())));
    assert_eq!(reg.len(), 2);
    assert_eq!(reg.find(7), Some(0));
    assert_eq!(reg.find(9), Some(1));
    assert_eq!(reg.find(8), None);
    assert_eq!(reg.name_at(0), "t1");
    assert_eq!(reg.name_at(1), "t2");
    assert_eq!(reg.file_at(0), "/tmp/status");
}

#[test]
fn registry_poll_moves_only_the_polled_handler() {
    let mut reg = WatchRegistry::new();
    reg.install(1, TriggerHandler::new(status_trigger()));
    let mut t2 = status_trigger();
    t2.name = "t2".to_string();
    reg.install(2, TriggerHandler::new(t2));
    assert_eq!(reg.poll_at(0, 10, "on"), PollOutcome::Changed("active".to_string()));
    // Handler 0 is now inside its debounce window; handler 1 is untouched.
    assert!(!reg.should_poll_at(0, 20));
    assert!(reg.should_poll_at(1, 20));
    assert_eq!(reg.poll_at(1, 20, "on"), PollOutcome::Changed("active".to_string()));
}

#[test]
fn events_are_routed_read_or_consumed() {
    let mut reg = WatchRegistry::new();
    reg.install(5, TriggerHandler::new(status_trigger()));
    // An identifier the registry never saw is ignored.
    assert!(matches!(reg.decide_event(6, 0), EventDecision::Unknown));
    // A fresh handler asks for a read of its trigger's file.
    match reg.decide_event(5, 0) {
        EventDecision::ReadFile { index, file } => {
            assert_eq!(index, 0);
            assert_eq!(file, "/tmp/status");
        }
        _ => panic!("a fresh handler must ask for a read"),
    }
    // Inside the debounce window the event is consumed without a read.
    assert_eq!(reg.poll_at(0, 0, "on"), PollOutcome::Changed("active".to_string()));
    assert!(matches!(
        reg.decide_event(5, 10),
        EventDecision::Suppressed { index: 0 }
    ));
    assert!(matches!(reg.decide_event(5, 60), EventDecision::ReadFile { .. }));
}

#[test]
fn validate_accepts_a_well_bound_config() {
    let cfg = Config {
        action: vec![Action::SimpleFile {
            trigger: "t1".to_string(),
            file: "/tmp/x".to_string(),
            values: vm(&[("active", "1")]),
        }],
        trigger: vec![status_trigger()],
    };
    assert!(cfg.validate());
}

#[test]
fn validate_rejects_duplicate_trigger_names() {
    let cfg = Config {
        action: vec![],
        trigger: vec![status_trigger(), status_trigger()],
    };
    assert!(!cfg.validate());
}

#[test]
fn validate_rejects_an_action_bound_to_an_unknown_trigger() {
    let cfg = Config {
        action: vec![Action::SimpleFile {
            trigger: "nobody".to_string(),
            file: "/tmp/x".to_string(),
            values: vm(&[("active", "1")]),
        }],
        trigger: vec![status_trigger()],
    };
    assert!(!cfg.validate());
}

#[test]
fn verbosity_is_an_explicit_setting() {
    assert!(verbose(&Settings { verbose: true }));
    assert!(!verbose(&Settings { verbose: false }));
}
