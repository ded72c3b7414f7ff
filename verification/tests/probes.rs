use status_page::models::service::{Service, FULL_UPTIME_BITS, ZERO_BITS};
use status_page::probes::{
    check_status, plan_from_config, plan_probe, probe_interval_secs, ProbeAction, ProbeCommand,
    ProbePlan, ProbeRegistry,
};

fn svc(id: &str, probe_type: &str, config: &str, enabled: bool) -> Service {
    Service {
        id: id.to_string(),
        name: id.to_string(),
        category: "Core".to_string(),
        url: "https://example.com/health".to_string(),
        probe_type: probe_type.to_string(),
        probe_config: config.to_string(),
        interval_secs: 30,
        status: "unknown".to_string(),
        uptime_pct_bits: FULL_UPTIME_BITS,
        avg_latency_ms_bits: ZERO_BITS,
        region: String::new(),
        is_public: true,
        enabled,
        sort_order: 0,
        created_at: String::new(),
        updated_at: String::new(),
    }
}

fn started(a: &ProbeAction) -> Option<&str> {
    match a {
        ProbeAction::Start(s) => Some(s.id.as_str()),
        ProbeAction::Stop(_) => None,
    }
}

fn stopped(a: &ProbeAction) -> Option<&str> {
    match a {
        ProbeAction::Stop(id) => Some(id.as_str()),
        ProbeAction::Start(_) => None,
    }
}

#[test]
fn http_plan_defaults() {
    match plan_probe(&svc("a", "http", "{}", true)) {
        ProbePlan::Http { url, timeout_secs, expected_status } => {
            assert_eq!(url, "https://example.com/health");
            assert_eq!(timeout_secs, 10);
            assert_eq!(expected_status, 200);
        }
        other => panic!("{other:?}"),
    }
}

#[test]
fn http_plan_reads_configuration() {
    match plan_probe(&svc("a", "http", r#"{"timeout": 3, "expected_status": 204}"#, true)) {
        ProbePlan::Http { timeout_secs, expected_status, .. } => {
            assert_eq!(timeout_secs, 3);
            assert_eq!(expected_status, 204);
        }
        other => panic!("{other:?}"),
    }
}

#[test]
fn http_plan_truncates_the_expected_status() {
    match plan_probe(&svc("a", "http", r#"{"expected_status": 65737}"#, true)) {
        ProbePlan::Http { expected_status, .. } => assert_eq!(expected_status, 201),
        other => panic!("{other:?}"),
    }
}

#[test]
fn http_plan_ignores_broken_configuration() {
    match plan_probe(&svc("a", "ping", "not json", true)) {
        ProbePlan::Http { timeout_secs, expected_status, .. } => {
            assert_eq!(timeout_secs, 10);
            assert_eq!(expected_status, 200);
        }
        other => panic!("{other:?}"),
    }
    match plan_probe(&svc("a", "http", r#"{"timeout": -4, "expected_status": "204"}"#, true)) {
        ProbePlan::Http { timeout_secs, expected_status, .. } => {
            assert_eq!(timeout_secs, 10);
            assert_eq!(expected_status, 200);
        }
        other => panic!("{other:?}"),
    }
}

#[test]
fn tcp_plan_uses_address_or_url() {
    match plan_probe(&svc("a", "tcp", r#"{"address": "db.internal:5432", "timeout": 2}"#, true)) {
        ProbePlan::Tcp { address, timeout_secs } => {
            assert_eq!(address, "db.internal:5432");
            assert_eq!(timeout_secs, 2);
        }
        other => panic!("{other:?}"),
    }
    match plan_probe(&svc("a", "tcp", "{}", true)) {
        ProbePlan::Tcp { address, timeout_secs } => {
            assert_eq!(address, "https://example.com/health");
            assert_eq!(timeout_secs, 10);
        }
        other => panic!("{other:?}"),
    }
}

#[test]
fn plan_from_given_values() {
    match plan_from_config("tcp", "u", Some(7), Some("h:1".to_string()), Some(500)) {
        ProbePlan::Tcp { address, timeout_secs } => {
            assert_eq!(address, "h:1");
            assert_eq!(timeout_secs, 7);
        }
        other => panic!("{other:?}"),
    }
    match plan_from_config("http", "u", None, None, Some(301)) {
        ProbePlan::Http { url, timeout_secs, expected_status } => {
            assert_eq!(url, "u");
            assert_eq!(timeout_secs, 10);
            assert_eq!(expected_status, 301);
        }
        other => panic!("{other:?}"),
    }
}

#[test]
fn probe_intervals_have_a_floor() {
    assert_eq!(probe_interval_secs(60), 60);
    assert_eq!(probe_interval_secs(10), 10);
    assert_eq!(probe_interval_secs(5), 10);
    assert_eq!(probe_interval_secs(-100), 10);
}

#[test]
fn check_statuses() {
    assert_eq!(check_status(true), "ok");
    assert_eq!(check_status(false), "down");
}

#[test]
fn startup_starts_enabled_services_in_order() {
    let mut reg = ProbeRegistry::new();
    let actions = reg.start_all(vec![
        svc("a", "http", "{}", true),
        svc("b", "http", "{}", false),
        svc("c", "tcp", "{}", true),
    ]);
    let ids: Vec<&str> = actions.iter().filter_map(started).collect();
    assert_eq!(ids, vec!["a", "c"]);
    assert_eq!(actions.len(), 2);
    assert!(reg.is_running("a"));
    assert!(!reg.is_running("b"));
    assert!(reg.is_running("c"));
}

#[test]
fn add_then_remove() {
    let mut reg = ProbeRegistry::new();
    let a = reg.handle(ProbeCommand::Add(svc("x", "http", "{}", true)));
    assert_eq!(a.len(), 1);
    assert_eq!(started(&a[0]), Some("x"));
    assert!(reg.is_running("x"));
    let r = reg.handle(ProbeCommand::Remove("x".to_string()));
    assert_eq!(r.len(), 1);
    assert_eq!(stopped(&r[0]), Some("x"));
    assert!(!reg.is_running("x"));
}

#[test]
fn removing_an_unknown_service_does_nothing() {
    let mut reg = ProbeRegistry::new();
    let r = reg.handle(ProbeCommand::Remove("ghost".to_string()));
    assert!(r.is_empty());
    assert!(!reg.is_running("ghost"));
}

#[test]
fn adding_twice_starts_again_and_tracks_once() {
    let mut reg = ProbeRegistry::new();
    reg.handle(ProbeCommand::Add(svc("x", "http", "{}", true)));
    let a = reg.handle(ProbeCommand::Add(svc("x", "http", "{}", true)));
    assert_eq!(a.len(), 1);
    assert_eq!(started(&a[0]), Some("x"));
    let r = reg.handle(ProbeCommand::Remove("x".to_string()));
    assert_eq!(r.len(), 1);
    assert!(!reg.is_running("x"));
}

#[test]
fn reload_restarts_an_enabled_service() {
    let mut reg = ProbeRegistry::new();
    reg.handle(ProbeCommand::Add(svc("x", "http", "{}", true)));
    let a = reg.handle(ProbeCommand::Reload(svc("x", "tcp", "{}", true)));
    assert_eq!(a.len(), 2);
    assert_eq!(stopped(&a[0]), Some("x"));
    assert_eq!(started(&a[1]), Some("x"));
    assert!(reg.is_running("x"));
}

#[test]
fn reload_of_a_disabled_service_stops_it() {
    let mut reg = ProbeRegistry::new();
    reg.handle(ProbeCommand::Add(svc("x", "http", "{}", true)));
    let a = reg.handle(ProbeCommand::Reload(svc("x", "http", "{}", false)));
    assert_eq!(a.len(), 1);
    assert_eq!(stopped(&a[0]), Some("x"));
    assert!(!reg.is_running("x"));
}

#[test]
fn reload_of_an_untracked_service() {
    let mut reg = ProbeRegistry::new();
    let a = reg.handle(ProbeCommand::Reload(svc("y", "http", "{}", true)));
    assert_eq!(a.len(), 1);
    assert_eq!(started(&a[0]), Some("y"));
    let b = reg.handle(ProbeCommand::Reload(svc("z", "http", "{}", false)));
    assert!(b.is_empty());
    assert!(reg.is_running("y"));
    assert!(!reg.is_running("z"));
}

#[test]
fn commands_leave_other_services_alone() {
    let mut reg = ProbeRegistry::new();
    reg.handle(ProbeCommand::Add(svc("a", "http", "{}", true)));
    reg.handle(ProbeCommand::Add(svc("b", "http", "{}", true)));
    reg.handle(ProbeCommand::Remove("a".to_string()));
    assert!(!reg.is_running("a"));
    assert!(reg.is_running("b"));
}
