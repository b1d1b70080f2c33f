use backend_lifecycle::dialog::{selection_result, save_filter_for, SaveDialogFilter, SelectionError};
use backend_lifecycle::digits::u64_to_dec_string;
use backend_lifecycle::health::{classify_probe, classify_response, health_url, is_healthy, HealthStatus};
use backend_lifecycle::lifecycle::{ChildHandle, LifecycleState};
use backend_lifecycle::naming::generate_unique_folder_name;
use backend_lifecycle::readiness::{conclude, ReadinessOutcome, ReadinessPoll, ReadinessSignal, RetryPolicy};
use backend_lifecycle::supervisor::{drain_step, plan_startup, planned_port, spawn_args, ChildEvent, DrainDirective, StartupPlan, WELL_KNOWN_PORT};

fn healthy_body() -> String {
    "{\"status\":\"ok\",\"server_type\":\"lightweight\"}".to_string()
}

#[test]
fn probe_healthy_on_expected_body() {
    let h = classify_response(200, healthy_body());
    match h {
        HealthStatus::Healthy { server_type } => assert_eq!(server_type, "lightweight"),
        _ => panic!("expected Healthy"),
    }
}

#[test]
fn probe_healthy_tolerates_extra_fields_and_spacing() {
    let body = "{ \"server_type\" : \"lightweight\", \"status\" : \"ok\", \"uptime\": 3 }";
    let h = classify_response(200, body.to_string());
    assert!(is_healthy(&h));
}

#[test]
fn probe_unexpected_on_other_server_type() {
    let body = "{\"status\":\"ok\",\"server_type\":\"other\"}".to_string();
    let h = classify_response(200, body.clone());
    match h {
        HealthStatus::Unexpected { detail } => assert_eq!(detail, body),
        _ => panic!("expected Unexpected"),
    }
}

#[test]
fn probe_unexpected_on_wrong_status_token() {
    let body = "{\"status\":\"starting\",\"server_type\":\"lightweight\"}".to_string();
    assert!(!is_healthy(&classify_response(200, body)));
}

#[test]
fn probe_unexpected_on_missing_field() {
    let body = "{\"status\":\"ok\"}".to_string();
    assert!(!is_healthy(&classify_response(200, body)));
}

#[test]
fn probe_unexpected_on_non_string_field() {
    let body = "{\"status\":true,\"server_type\":\"lightweight\"}".to_string();
    assert!(!is_healthy(&classify_response(200, body)));
}

#[test]
fn probe_unexpected_on_malformed_body() {
    let body = "status: ok".to_string();
    assert!(!is_healthy(&classify_response(200, body)));
}

#[test]
fn probe_unexpected_on_non_200_status() {
    let h = classify_response(404, healthy_body());
    match h {
        HealthStatus::Unexpected { detail } => assert_eq!(detail, healthy_body()),
        _ => panic!("expected Unexpected"),
    }
}

#[test]
fn probe_unreachable_without_response() {
    let h = classify_probe(None);
    assert!(matches!(h, HealthStatus::Unreachable));
}

#[test]
fn probe_with_response_classifies_it() {
    let h = classify_probe(Some((200, healthy_body())));
    assert!(is_healthy(&h));
}

#[test]
fn health_url_names_loopback_and_port() {
    assert_eq!(health_url(8000), "http://127.0.0.1:8000/health");
    assert_eq!(health_url(43111), "http://127.0.0.1:43111/health");
}

#[test]
fn decimal_rendering_exact() {
    assert_eq!(u64_to_dec_string(0), "0");
    assert_eq!(u64_to_dec_string(10), "10");
    assert_eq!(u64_to_dec_string(65535), "65535");
    assert_eq!(u64_to_dec_string(1500), "1500");
}

#[test]
fn startup_reuses_well_known_port_when_healthy() {
    let status = HealthStatus::Healthy { server_type: "lightweight".to_string() };
    let plan = plan_startup(&status, 43111);
    assert_eq!(plan, StartupPlan::ReuseExisting { port: WELL_KNOWN_PORT });
    assert_eq!(planned_port(&plan), 8000);
}

#[test]
fn startup_spawns_on_ephemeral_port_when_nothing_listens() {
    let plan = plan_startup(&HealthStatus::Unreachable, 43111);
    assert_eq!(plan, StartupPlan::SpawnNew { port: 43111 });
    assert_eq!(planned_port(&plan), 43111);
    let args = spawn_args(43111);
    assert_eq!(args.len(), 2);
    assert_eq!(args[0], "--port");
    assert_eq!(args[1], "43111");
}

#[test]
fn startup_spawns_when_foreign_server_answers() {
    let status = classify_response(200, "{\"status\":\"ok\",\"server_type\":\"other\"}".to_string());
    let plan = plan_startup(&status, 50123);
    assert_eq!(plan, StartupPlan::SpawnNew { port: 50123 });
}

#[test]
fn poll_true_on_first_healthy() {
    let mut poll = ReadinessPoll::new(30);
    poll.record(HealthStatus::Unreachable);
    poll.record(HealthStatus::Unreachable);
    assert!(poll.in_progress());
    poll.record(HealthStatus::Healthy { server_type: "lightweight".to_string() });
    assert!(!poll.in_progress());
    assert_eq!(poll.verdict(), Some(true));
    assert_eq!(poll.attempts_used, 3);
}

#[test]
fn poll_continues_after_unexpected_response() {
    let mut poll = ReadinessPoll::new(30);
    let status = classify_response(200, "{\"status\":\"ok\",\"server_type\":\"other\"}".to_string());
    poll.record(status);
    assert!(poll.in_progress());
    assert_eq!(poll.verdict(), None);
}

#[test]
fn poll_false_only_after_exhausting_attempts() {
    let mut poll = ReadinessPoll::new(30);
    for _ in 0..29 {
        poll.record(HealthStatus::Unreachable);
        assert!(poll.in_progress());
    }
    poll.record(HealthStatus::Unreachable);
    assert_eq!(poll.verdict(), Some(false));
    assert_eq!(poll.attempts_used, 30);
}

#[test]
fn readiness_fires_even_after_timeout() {
    let mut poll = ReadinessPoll::new(2);
    poll.record(HealthStatus::Unreachable);
    poll.record(HealthStatus::Unreachable);
    let mut signal = ReadinessSignal::new();
    let outcome = conclude(&poll, &mut signal);
    assert_eq!(outcome, ReadinessOutcome::TimedOut);
    assert!(signal.fired);
}

#[test]
fn readiness_confirmed_on_healthy_poll() {
    let mut poll = ReadinessPoll::new(2);
    poll.record(HealthStatus::Healthy { server_type: "lightweight".to_string() });
    let mut signal = ReadinessSignal::new();
    assert_eq!(conclude(&poll, &mut signal), ReadinessOutcome::Confirmed);
    assert!(signal.fired);
}

#[test]
fn readiness_signal_fires_once() {
    let mut signal = ReadinessSignal::new();
    assert!(signal.fire());
    assert!(!signal.fire());
    assert!(signal.fired);
}

#[test]
fn worst_case_wait_matches_policy() {
    let policy = RetryPolicy::startup_default();
    assert_eq!(policy.worst_case_wait_ms(), 2000 + 30 * 1500);
}

#[test]
fn termination_is_idempotent() {
    let mut state = LifecycleState::new();
    state.install(43111, Some(ChildHandle { pid: 4242 }));
    assert_eq!(state.active_port(), Some(43111));
    let first = state.take_process();
    assert_eq!(first.map(|h| h.pid), Some(4242));
    let second = state.take_process();
    assert!(second.is_none());
    assert_eq!(state.active_port(), Some(43111));
}

#[test]
fn reused_backend_is_never_owned() {
    let status = HealthStatus::Healthy { server_type: "lightweight".to_string() };
    let plan = plan_startup(&status, 43111);
    let mut state = LifecycleState::new();
    state.install_plan(&plan, None);
    assert_eq!(state.active_port(), Some(8000));
    assert!(state.take_process().is_none());
}

#[test]
fn spawned_backend_is_owned_until_taken() {
    let plan = plan_startup(&HealthStatus::Unreachable, 43111);
    let mut state = LifecycleState::new();
    state.install_plan(&plan, Some(ChildHandle { pid: 7 }));
    assert_eq!(state.active_port(), Some(43111));
    assert_eq!(state.take_process().map(|h| h.pid), Some(7));
}

#[test]
fn termination_noop_without_child() {
    let mut state = LifecycleState::new();
    state.install(8000, None);
    assert!(state.take_process().is_none());
}

#[test]
fn drain_stops_on_termination_or_close() {
    assert_eq!(drain_step(&ChildEvent::Terminated { code: Some(0) }), DrainDirective::Stop);
    assert_eq!(drain_step(&ChildEvent::Terminated { code: None }), DrainDirective::Stop);
    assert_eq!(drain_step(&ChildEvent::StreamClosed), DrainDirective::Stop);
    assert_eq!(drain_step(&ChildEvent::StdoutLine { bytes: b"ready".to_vec() }), DrainDirective::KeepDraining);
    assert_eq!(drain_step(&ChildEvent::StderrLine { bytes: b"warn".to_vec() }), DrainDirective::KeepDraining);
    assert_eq!(drain_step(&ChildEvent::RuntimeError { message: "io".to_string() }), DrainDirective::KeepDraining);
    assert_eq!(drain_step(&ChildEvent::Other), DrainDirective::KeepDraining);
}

#[test]
fn unique_name_skips_taken_suffixes() {
    let existing = vec!["session".to_string(), "session_1".to_string()];
    let name = "session".to_string();
    assert_eq!(generate_unique_folder_name(&existing, &name), "session_2");
}

#[test]
fn unique_name_returns_base_when_free() {
    let existing = vec!["other".to_string()];
    let name = "session".to_string();
    assert_eq!(generate_unique_folder_name(&existing, &name), "session");
}

#[test]
fn unique_name_reaches_two_digit_suffix() {
    let mut existing = vec!["run".to_string()];
    for i in 1..=9 {
        existing.push(format!("run_{}", i));
    }
    let name = "run".to_string();
    assert_eq!(generate_unique_folder_name(&existing, &name), "run_10");
}

#[test]
fn selection_chosen_paths_pass_through() {
    let received = Some(Some(vec!["/tmp/a.wav".to_string(), "/tmp/b.wav".to_string()]));
    let r = selection_result(received);
    assert_eq!(r.unwrap().len(), 2);
}

#[test]
fn selection_cancel_reported_apart_from_failure() {
    let r: Result<Vec<String>, SelectionError> = selection_result(Some(None));
    assert_eq!(r.unwrap_err(), SelectionError::Cancelled);
    let r: Result<Vec<String>, SelectionError> = selection_result(None);
    assert_eq!(r.unwrap_err(), SelectionError::ChannelClosed);
}

#[test]
fn selection_single_folder() {
    let r = selection_result(Some(Some("/data/out".to_string())));
    assert_eq!(r.unwrap(), "/data/out");
}

#[test]
fn save_filter_follows_suggested_name() {
    assert_eq!(save_filter_for("export.json"), SaveDialogFilter::Json);
    assert_eq!(save_filter_for("EXPORT.JSON"), SaveDialogFilter::Json);
    assert_eq!(save_filter_for("a.json.bak"), SaveDialogFilter::Json);
    assert_eq!(save_filter_for("export.csv"), SaveDialogFilter::Csv);
    assert_eq!(save_filter_for("j.son"), SaveDialogFilter::Csv);
    assert_eq!(save_filter_for(""), SaveDialogFilter::Csv);
}
