use opencode_companion::{
    argv_requests_toggle, is_wayland_from, is_x11, must_exit_without_session, parse_args_from,
    pinned_session_id, toggle_action, CliArgs, WindowToggle,
};

fn strings(items: &[&str]) -> Vec<String> {
    items.iter().map(|s| s.to_string()).collect()
}

#[test]
fn parses_dev_and_toggle_flags() {
    let args = parse_args_from(strings(&["--dev", "--toggle", "--unknown", "positional"]));
    assert!(args.dev);
    assert!(args.toggle);
}

#[test]
fn ignores_unknown_args() {
    let args = parse_args_from(strings(&["--bogus"]));
    assert!(!args.dev);
    assert!(!args.toggle);
}

#[test]
fn detects_wayland_from_session_type() {
    assert!(is_wayland_from(Some("wayland"), None));
    assert!(is_wayland_from(Some("Wayland"), None));
    assert!(is_wayland_from(Some("x11"), Some("wayland-0")));
    assert!(!is_wayland_from(Some("x11"), None));
    assert!(!is_wayland_from(None, None));
    assert!(!is_wayland_from(Some("x11"), Some("")));
}

#[test]
fn flags_are_exact_matches() {
    let args = parse_args_from(strings(&["--dev=1", "-dev", "--Toggle", "--toggle-x"]));
    assert!(!args.dev);
    assert!(!args.toggle);
    let empty = parse_args_from(Vec::new());
    assert_eq!(empty, CliArgs::default());
}

#[test]
fn wayland_word_anywhere_in_any_case() {
    assert!(is_wayland_from(Some("WAYLAND"), None));
    assert!(is_wayland_from(Some("my-WayLand-session"), None));
    assert!(!is_wayland_from(Some("waylan"), None));
    assert!(!is_wayland_from(Some("way land"), None));
    assert!(is_wayland_from(None, Some("wayland-1")));
    assert!(is_wayland_from(Some(""), Some(":0")));
}

#[test]
fn x11_is_the_complement_of_wayland() {
    assert!(is_x11(Some("x11"), None));
    assert!(is_x11(None, None));
    assert!(is_x11(Some("tty"), Some("")));
    assert!(!is_x11(Some("wayland"), None));
    assert!(!is_x11(None, Some("wayland-0")));
}

#[test]
fn empty_session_variable_is_no_pin() {
    assert_eq!(pinned_session_id(None), None);
    assert_eq!(pinned_session_id(Some(String::new())), None);
    assert_eq!(pinned_session_id(Some("s1".to_string())), Some("s1".to_string()));
}

#[test]
fn start_without_session_only_in_dev_or_toggle() {
    let plain = CliArgs { dev: false, toggle: false };
    let dev = CliArgs { dev: true, toggle: false };
    let toggle = CliArgs { dev: false, toggle: true };
    assert!(must_exit_without_session(&None, plain));
    assert!(!must_exit_without_session(&None, dev));
    assert!(!must_exit_without_session(&None, toggle));
    assert!(!must_exit_without_session(&Some("s1".to_string()), plain));
}

#[test]
fn second_instance_toggles_on_flag() {
    assert!(argv_requests_toggle(&strings(&["companion", "--toggle"])));
    assert!(!argv_requests_toggle(&strings(&["companion", "--dev"])));
    assert!(!argv_requests_toggle(&Vec::new()));
}

#[test]
fn toggle_hides_visible_and_shows_otherwise() {
    assert_eq!(toggle_action(Some(true)), WindowToggle::Hide);
    assert_eq!(toggle_action(Some(false)), WindowToggle::ShowAndFocusPrompt);
    assert_eq!(toggle_action(None), WindowToggle::ShowAndFocusPrompt);
}
