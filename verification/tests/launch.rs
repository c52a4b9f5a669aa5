use prm::launch::{
    format_exit_code, format_lazygit_status, has_tmux_session, lazygit_launch_strategy,
    should_fallback_to_fullscreen, tmux_window_name, LazyGitLaunchOutcome, LazyGitLaunchStrategy,
};

#[test]
fn tmux_environment_prefers_popup_strategy() {
    assert_eq!(
        lazygit_launch_strategy(Some("/tmp/tmux-1000/default,123,0")),
        LazyGitLaunchStrategy::TryTmuxPopupFirst
    );
}

#[test]
fn no_tmux_environment_uses_fullscreen_strategy() {
    assert_eq!(
        lazygit_launch_strategy(None),
        LazyGitLaunchStrategy::FullscreenOnly
    );
}

#[test]
fn popup_failure_triggers_fullscreen_fallback() {
    assert!(should_fallback_to_fullscreen(false));
    assert!(!should_fallback_to_fullscreen(true));
}

#[test]
fn tmux_presence_detection_handles_empty_values() {
    assert!(has_tmux_session(Some("/tmp/tmux-1000/default,123,0")));
    assert!(!has_tmux_session(Some("")));
    assert!(!has_tmux_session(Some("   ")));
    assert!(!has_tmux_session(None));
}

#[test]
fn tmux_window_name_uses_project_name_prefix() {
    assert_eq!(tmux_window_name("demo"), "prm:demo");
    assert_eq!(tmux_window_name(""), "prm-shell");
}

#[test]
fn tmux_window_name_is_cut_to_forty_eight_bytes() {
    let long = "x".repeat(60);
    let name = tmux_window_name(&long);
    assert_eq!(name.len(), 48);
    assert!(name.starts_with("prm:xxxx"));
    // Never splits a character: 'é' takes two bytes.
    let accented = "é".repeat(30);
    let name = tmux_window_name(&accented);
    assert!(name.len() <= 48);
    assert!(name.is_char_boundary(name.len()));
}

#[test]
fn exit_codes_are_formatted() {
    assert_eq!(format_exit_code(Some(2)), "2");
    assert_eq!(format_exit_code(Some(-1)), "-1");
    assert_eq!(format_exit_code(None), "unknown");
}

#[test]
fn lazygit_outcomes_are_described() {
    assert_eq!(
        format_lazygit_status(LazyGitLaunchOutcome::PopupSuccess),
        "Closed lazygit popup; git state refreshed"
    );
    assert_eq!(
        format_lazygit_status(LazyGitLaunchOutcome::FullscreenSuccess { popup_failure: None }),
        "Closed lazygit; git state refreshed"
    );
    assert_eq!(
        format_lazygit_status(LazyGitLaunchOutcome::FullscreenSuccess {
            popup_failure: Some("boom".to_string())
        }),
        "tmux popup failed (boom); ran lazygit fullscreen; git state refreshed"
    );
    assert_eq!(
        format_lazygit_status(LazyGitLaunchOutcome::FullscreenNonZero {
            popup_failure: None,
            exit_code: Some(3)
        }),
        "lazygit exited with status 3; git state refreshed"
    );
    assert_eq!(
        format_lazygit_status(LazyGitLaunchOutcome::FullscreenNonZero {
            popup_failure: Some("boom".to_string()),
            exit_code: None
        }),
        "tmux popup failed (boom); lazygit exited with status unknown; git state refreshed"
    );
}
