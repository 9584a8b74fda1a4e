use opencode_companion::state_file_path_from;

#[test]
fn path_under_xdg_data_home() {
    assert_eq!(
        state_file_path_from(Some("/data".to_string()), Some("/home/u".to_string())),
        "/data/opencode/storage/oh-my-opencode-slim/companion-state.json"
    );
    assert_eq!(
        state_file_path_from(Some("/data/".to_string()), None),
        "/data/opencode/storage/oh-my-opencode-slim/companion-state.json"
    );
}

#[test]
fn path_defaults_to_home_local_share() {
    assert_eq!(
        state_file_path_from(None, Some("/home/u".to_string())),
        "/home/u/.local/share/opencode/storage/oh-my-opencode-slim/companion-state.json"
    );
}

#[test]
fn path_with_nothing_set_is_relative() {
    assert_eq!(
        state_file_path_from(None, None),
        ".local/share/opencode/storage/oh-my-opencode-slim/companion-state.json"
    );
    assert_eq!(
        state_file_path_from(Some(String::new()), None),
        "opencode/storage/oh-my-opencode-slim/companion-state.json"
    );
}

#[test]
fn path_matches_std_path_join() {
    let expected = std::path::PathBuf::from("/home/u")
        .join(".local")
        .join("share")
        .join("opencode")
        .join("storage")
        .join("oh-my-opencode-slim")
        .join("companion-state.json");
    assert_eq!(
        state_file_path_from(None, Some("/home/u".to_string())),
        expected.to_str().unwrap()
    );
}
