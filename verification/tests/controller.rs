use nonap::errors::ControlError;
use nonap::state::ServiceState;
use nonap::target::Target;

fn target(url: &str, min_delay: u64, max_delay: u64) -> Target {
    Target::new(url.to_string(), min_delay, max_delay)
}

fn urls(ts: &[Target]) -> Vec<String> {
    ts.iter().map(|t| t.url.clone()).collect()
}

#[test]
fn start_spawns_one_loop_per_target() {
    let mut s = ServiceState::new(vec![target("https://a.example", 1, 1), target(
        "https://b.example",
        2,
        5,
    )]);
    let plan = s.start().expect("first start succeeds");
    assert_eq!(urls(&plan), vec!["https://a.example", "https://b.example"]);
    assert!(s.status().running);
}

#[test]
fn start_when_running_fails_and_mutates_nothing() {
    let mut s = ServiceState::new(vec![target("https://a.example", 1, 1)]);
    s.start().expect("first start succeeds");
    let before = s.status();
    let err = s.start().expect_err("second start fails");
    assert_eq!(err, ControlError::AlreadyRunning);
    assert_eq!(err.message(), "Already running");
    let after = s.status();
    assert!(after.running);
    assert_eq!(urls(&after.targets), urls(&before.targets));
    assert_eq!(after.logs_count, before.logs_count);
}

#[test]
fn stop_when_stopped_fails_and_mutates_nothing() {
    let mut s = ServiceState::new(vec![target("https://a.example", 1, 1)]);
    let err = s.stop().expect_err("stop before start fails");
    assert_eq!(err, ControlError::AlreadyStopped);
    assert_eq!(err.message(), "Already stopped");
    assert!(!s.status().running);
    assert_eq!(s.status().targets.len(), 1);
}

#[test]
fn stop_clears_running() {
    let mut s = ServiceState::new(vec![target("https://a.example", 1, 1)]);
    s.start().expect("start succeeds");
    s.stop().expect("stop succeeds");
    assert!(!s.status().running);
}

#[test]
fn add_duplicate_fails_and_leaves_targets_unchanged() {
    let mut s = ServiceState::new(vec![target("https://a.example", 1, 1)]);
    let err = s.add_target(target("https://a.example", 2, 3)).expect_err("duplicate rejected");
    assert_eq!(err, ControlError::DuplicateTarget);
    assert_eq!(err.message(), "Target already exists");
    let ts = s.list_targets();
    assert_eq!(urls(&ts), vec!["https://a.example"]);
    assert_eq!(ts[0].min_delay, 1);
    assert_eq!(ts[0].max_delay, 1);
}

#[test]
fn add_while_stopped_appends_and_spawns_nothing() {
    let mut s = ServiceState::new(vec![target("https://a.example", 1, 1)]);
    let plan = s.add_target(target("https://b.example", 1, 2)).expect("add succeeds");
    assert!(plan.is_empty());
    assert_eq!(urls(&s.list_targets()), vec!["https://a.example", "https://b.example"]);
    assert!(!s.status().running);
}

#[test]
fn add_while_running_restarts_with_both_targets() {
    let mut s = ServiceState::new(vec![target("https://a.example", 1, 1)]);
    s.start().expect("start succeeds");
    let plan = s.add_target(target("https://b.example", 1, 1)).expect("add succeeds");
    assert_eq!(urls(&plan), vec!["https://a.example", "https://b.example"]);
    let st = s.status();
    assert!(st.running);
    assert_eq!(urls(&st.targets), vec!["https://a.example", "https://b.example"]);
}

#[test]
fn remove_absent_fails_and_leaves_targets_unchanged() {
    let mut s = ServiceState::new(vec![target("https://a.example", 1, 1)]);
    let err = s
        .remove_target(&"https://missing.example".to_string())
        .expect_err("absent URL rejected");
    assert_eq!(err, ControlError::TargetNotFound);
    assert_eq!(err.message(), "Target not found");
    assert_eq!(urls(&s.list_targets()), vec!["https://a.example"]);
}

#[test]
fn remove_keeps_the_others_in_order() {
    let mut s = ServiceState::new(vec![
        target("https://a.example", 1, 1),
        target("https://b.example", 2, 2),
        target("https://c.example", 3, 3),
    ]);
    let plan = s.remove_target(&"https://b.example".to_string()).expect("remove succeeds");
    assert!(plan.is_empty());
    assert_eq!(urls(&s.list_targets()), vec!["https://a.example", "https://c.example"]);
}

#[test]
fn remove_while_running_restarts_with_the_rest() {
    let mut s = ServiceState::new(vec![target("https://a.example", 1, 1), target(
        "https://b.example",
        2,
        2,
    )]);
    s.start().expect("start succeeds");
    let plan = s.remove_target(&"https://a.example".to_string()).expect("remove succeeds");
    assert_eq!(urls(&plan), vec!["https://b.example"]);
    assert!(s.status().running);
}

#[test]
fn reload_failure_leaves_state_untouched() {
    let mut s = ServiceState::new(vec![target("https://a.example", 1, 1)]);
    s.start().expect("start succeeds");
    let err = s
        .reload(Err("Failed to read targets.json: no such file".to_string()))
        .expect_err("failed load rejected");
    assert_eq!(
        err,
        ControlError::ReloadFailed("Failed to read targets.json: no such file".to_string())
    );
    assert_eq!(
        err.message(),
        "Failed to reload targets: Failed to read targets.json: no such file"
    );
    let st = s.status();
    assert!(st.running);
    assert_eq!(urls(&st.targets), vec!["https://a.example"]);
}

#[test]
fn reload_replaces_targets_wholesale() {
    let mut s = ServiceState::new(vec![target("https://a.example", 1, 1)]);
    s.start().expect("start succeeds");
    let plan = s
        .reload(Ok(vec![target("https://x.example", 1, 2), target("https://y.example", 3, 4)]))
        .expect("reload succeeds");
    assert_eq!(urls(&plan), vec!["https://x.example", "https://y.example"]);
    let st = s.status();
    assert!(st.running);
    assert_eq!(urls(&st.targets), vec!["https://x.example", "https://y.example"]);
}

#[test]
fn status_reports_log_count() {
    let mut s = ServiceState::new(vec![]);
    assert_eq!(s.status().logs_count, 0);
    s.append_log("something happened".to_string());
    assert_eq!(s.status().logs_count, 1);
}

#[test]
fn stopped_service_still_serves_recent_logs() {
    let mut s = ServiceState::new(vec![target("https://a.example", 1, 1)]);
    s.start().expect("start succeeds");
    for i in 0..8 {
        s.append_log(format!("event {}", i));
    }
    s.stop().expect("stop succeeds");
    assert!(!s.status().running);
    let t = s.tail_logs(5);
    assert_eq!(
        t,
        vec![
            "event 3".to_string(),
            "event 4".to_string(),
            "event 5".to_string(),
            "event 6".to_string(),
            "event 7".to_string(),
        ]
    );
}
