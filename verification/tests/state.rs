use opencode_companion::{
    build_payload, choose_session, idle_payload, parse_state, CompanionState, Payload, Session,
};
use serde_json::Value;

fn session(id: &str, status: &str, agents: &[&str]) -> Session {
    Session {
        session_id: id.to_string(),
        cwd: None,
        active_agents: Some(agents.iter().map(|a| a.to_string()).collect()),
        active_agent: None,
        status: Some(status.to_string()),
        pid: None,
        config: None,
    }
}

fn state(version: Option<u32>, sessions: Vec<Session>) -> CompanionState {
    CompanionState { version, sessions, config: Value::Null, window_positions: Value::Null }
}

fn sample_state() -> CompanionState {
    let mut s1 = session("s1", "busy", &["orchestrator"]);
    s1.cwd = Some("/proj/a".to_string());
    s1.pid = Some(100);
    let mut s2 = session("s2", "waiting-input", &["fixer"]);
    s2.cwd = Some("/proj/b".to_string());
    s2.pid = Some(200);
    state(Some(1), vec![s1, s2])
}

fn chosen_id(state: &CompanionState, pin: Option<&str>) -> String {
    choose_session(state, pin).unwrap().session_id.clone()
}

#[test]
fn parses_valid_state() {
    let state = parse_state(Some(state(Some(1), Vec::new())));
    assert!(state.is_some());
    assert!(state.unwrap().sessions.is_empty());
}

#[test]
fn rejects_corrupt_json() {
    assert!(parse_state(None).is_none());
}

#[test]
fn rejects_version_mismatch() {
    assert!(parse_state(Some(state(Some(2), Vec::new()))).is_none());
}

#[test]
fn accepts_missing_version() {
    assert!(parse_state(Some(state(None, Vec::new()))).is_some());
}

#[test]
fn empty_sessions_yields_none() {
    let state = parse_state(Some(state(Some(1), Vec::new()))).unwrap();
    assert!(choose_session(&state, None).is_none());
    assert!(choose_session(&state, Some("s1")).is_none());
}

#[test]
fn owner_session_priority() {
    let state = sample_state();
    // s2 is newer and waiting for input, but the pinned s1 wins.
    assert_eq!(chosen_id(&state, Some("s1")), "s1");
}

#[test]
fn owner_session_unknown_id_falls_through() {
    let state = sample_state();
    assert_eq!(chosen_id(&state, Some("nope")), "s2");
}

#[test]
fn waiting_input_priority() {
    let state = sample_state();
    assert_eq!(chosen_id(&state, None), "s2");
}

#[test]
fn active_agents_excluding_intro() {
    let state = state(Some(1), vec![session("s1", "idle", &["intro"]), session("s2", "idle", &["fixer"])]);
    assert_eq!(chosen_id(&state, None), "s2");
}

#[test]
fn busy_fallback() {
    let state = state(Some(1), vec![session("s1", "busy", &[]), session("s2", "idle", &[])]);
    assert_eq!(chosen_id(&state, None), "s1");
}

#[test]
fn newest_session_fallback() {
    let state = state(Some(1), vec![session("s1", "idle", &[]), session("s2", "idle", &[])]);
    assert_eq!(chosen_id(&state, None), "s2");
}

#[test]
fn no_session_yields_idle_payload() {
    let state = parse_state(Some(state(Some(1), Vec::new()))).unwrap();
    assert!(choose_session(&state, None).is_none());
    let payload = idle_payload();
    assert_eq!(payload.status, "idle");
    assert!(payload.active_agents.is_empty());
    assert!(payload.message.is_none());
}

#[test]
fn payload_shape() {
    let state = sample_state();
    let chosen = choose_session(&state, Some("s1")).unwrap();
    let payload = build_payload(chosen);
    assert_eq!(payload.session_id, "s1");
    assert_eq!(payload.cwd, "/proj/a");
    assert_eq!(payload.active_agents, vec!["orchestrator".to_string()]);
    assert_eq!(payload.status, "busy");
    assert!(payload.message.is_none());
}

#[test]
fn unknown_status_normalized_to_idle() {
    let state = state(Some(1), vec![session("s1", "weird", &[])]);
    let payload = build_payload(choose_session(&state, None).unwrap());
    assert_eq!(payload.status, "idle");
}

#[test]
fn newest_waiting_input_wins() {
    let state = state(Some(1), vec![session("s1", "waiting-input", &[]), session("s2", "waiting-input", &[])]);
    assert_eq!(chosen_id(&state, None), "s2");
}

#[test]
fn newest_active_agents_wins() {
    let state = state(Some(1), vec![session("s1", "idle", &["orchestrator"]), session("s2", "idle", &["fixer"])]);
    assert_eq!(chosen_id(&state, None), "s2");
}

#[test]
fn newest_busy_wins() {
    let state = state(Some(1), vec![session("s1", "busy", &[]), session("s2", "busy", &[])]);
    assert_eq!(chosen_id(&state, None), "s2");
}

#[test]
fn payload_missing_cwd_defaults_empty() {
    let state = state(Some(1), vec![session("s1", "busy", &[])]);
    let payload = build_payload(choose_session(&state, None).unwrap());
    assert_eq!(payload.cwd, "");
}

#[test]
fn pinned_session_beats_every_other_rule() {
    let state = state(
        Some(1),
        vec![session("a", "idle", &[]), session("b", "waiting-input", &["fixer"]), session("c", "busy", &[])],
    );
    assert_eq!(chosen_id(&state, Some("a")), "a");
}

#[test]
fn first_of_duplicate_pinned_ids_wins() {
    let mut first = session("dup", "idle", &[]);
    first.cwd = Some("/first".to_string());
    let mut second = session("dup", "idle", &[]);
    second.cwd = Some("/second".to_string());
    let state = state(Some(1), vec![first, second]);
    let chosen = choose_session(&state, Some("dup")).unwrap();
    assert_eq!(chosen.cwd.as_deref(), Some("/first"));
}

#[test]
fn intro_only_or_empty_agents_do_not_count() {
    let state = state(
        Some(1),
        vec![session("s1", "busy", &[]), session("s2", "idle", &["intro", "intro"]), session("s3", "idle", &[])],
    );
    assert_eq!(chosen_id(&state, None), "s1");
    let mixed = state_with_mixed_agents();
    assert_eq!(chosen_id(&mixed, None), "m");
}

fn state_with_mixed_agents() -> CompanionState {
    state(Some(1), vec![session("m", "idle", &["intro", "explorer"]), session("n", "idle", &[])])
}

#[test]
fn sessions_without_optional_fields() {
    let bare = Session {
        session_id: "bare".to_string(),
        cwd: None,
        active_agents: None,
        active_agent: None,
        status: None,
        pid: None,
        config: None,
    };
    let state = state(None, vec![bare]);
    let chosen = choose_session(&state, None).unwrap();
    let payload = build_payload(chosen);
    assert_eq!(payload.session_id, "bare");
    assert_eq!(payload.cwd, "");
    assert!(payload.active_agents.is_empty());
    assert_eq!(payload.status, "idle");
}

#[test]
fn known_statuses_pass_through() {
    for status in ["idle", "busy", "waiting-input"] {
        let payload: Payload = build_payload(&session("s", status, &[]));
        assert_eq!(payload.status, status);
    }
    let payload = build_payload(&session("s", "Busy", &[]));
    assert_eq!(payload.status, "idle");
}
