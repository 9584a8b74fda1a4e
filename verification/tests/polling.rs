use opencode_companion::{
    current_payload, emit_if_changed, idle_payload, same_payload, CompanionState, FileStamp, Payload,
    Poller, ReadAction, ReadOutcome, Session,
};
use serde_json::Value;

fn busy_state(version: Option<u32>) -> CompanionState {
    let session = Session {
        session_id: "s1".to_string(),
        cwd: Some("/proj".to_string()),
        active_agents: Some(vec!["fixer".to_string()]),
        active_agent: None,
        status: Some("busy".to_string()),
        pid: Some(7),
        config: None,
    };
    CompanionState { version, sessions: vec![session], config: Value::Null, window_positions: Value::Null }
}

fn stamp(secs: u64) -> Option<FileStamp> {
    Some(FileStamp { before_epoch: false, secs, nanos: 0 })
}

fn published(action: ReadAction) -> Payload {
    match action {
        ReadAction::Publish(p) => p,
        ReadAction::KeepLast { .. } => panic!("expected a payload"),
    }
}

fn kept(action: ReadAction) -> bool {
    match action {
        ReadAction::Publish(_) => panic!("expected the last state to be kept"),
        ReadAction::KeepLast { report_parse_error } => report_parse_error,
    }
}

#[test]
fn first_tick_reads_even_without_file() {
    let mut p = Poller::new();
    assert!(p.should_read(None));
    assert!(!p.should_read(None));
}

#[test]
fn rereads_only_when_mtime_changes() {
    let mut p = Poller::new();
    assert!(p.should_read(stamp(10)));
    assert!(!p.should_read(stamp(10)));
    assert!(p.should_read(stamp(11)));
    assert!(p.should_read(None));
    assert!(!p.should_read(None));
    assert!(p.should_read(Some(FileStamp { before_epoch: true, secs: 11, nanos: 0 })));
}

#[test]
fn missing_file_publishes_idle() {
    let mut p = Poller::new();
    let payload = published(p.on_read(ReadOutcome::Unreadable, None));
    assert!(same_payload(&payload, &idle_payload()));
}

#[test]
fn good_state_publishes_chosen_session() {
    let mut p = Poller::new();
    let payload = published(p.on_read(ReadOutcome::Decoded(Some(busy_state(Some(1)))), None));
    assert_eq!(payload.session_id, "s1");
    assert_eq!(payload.cwd, "/proj");
    assert_eq!(payload.status, "busy");
    assert_eq!(payload.active_agents, vec!["fixer".to_string()]);
}

#[test]
fn corrupt_state_keeps_last_and_reports_once() {
    let mut p = Poller::new();
    assert!(kept(p.on_read(ReadOutcome::Decoded(None), None)));
    assert!(!kept(p.on_read(ReadOutcome::Decoded(Some(busy_state(Some(9)))), None)));
    published(p.on_read(ReadOutcome::Decoded(Some(busy_state(None))), None));
    assert!(kept(p.on_read(ReadOutcome::Decoded(None), None)));
    published(p.on_read(ReadOutcome::Unreadable, None));
    assert!(kept(p.on_read(ReadOutcome::Decoded(None), None)));
}

#[test]
fn emits_only_on_change() {
    let mut last: Option<Payload> = None;
    assert!(emit_if_changed(&mut last, idle_payload()));
    assert!(!emit_if_changed(&mut last, idle_payload()));
    let mut p = Poller::new();
    let busy = published(p.on_read(ReadOutcome::Decoded(Some(busy_state(Some(1)))), None));
    assert!(emit_if_changed(&mut last, busy));
    assert_eq!(last.as_ref().unwrap().status, "busy");
    let busy_again = published(p.on_read(ReadOutcome::Decoded(Some(busy_state(Some(1)))), None));
    assert!(!emit_if_changed(&mut last, busy_again));
    assert!(emit_if_changed(&mut last, idle_payload()));
}

#[test]
fn current_payload_defaults_to_idle() {
    assert!(same_payload(&current_payload(&None), &idle_payload()));
    let mut p = Poller::new();
    let busy = published(p.on_read(ReadOutcome::Decoded(Some(busy_state(Some(1)))), None));
    let last = Some(busy);
    let current = current_payload(&last);
    assert_eq!(current.session_id, "s1");
    assert_eq!(current.status, "busy");
}

#[test]
fn payloads_differ_by_any_field() {
    let a = idle_payload();
    let mut b = idle_payload();
    b.active_agents.push("x".to_string());
    assert!(!same_payload(&a, &b));
    let mut c = idle_payload();
    c.message = Some(String::new());
    assert!(!same_payload(&a, &c));
    let mut d = idle_payload();
    d.cwd = "/".to_string();
    assert!(!same_payload(&a, &d));
}
