use prm::git::{GitPipelineStatus, GitProjectStatus};
use prm::ui::theme::{
    detect_theme_mode_from_env, focus_border_style, git_status_style, parse_theme_override,
    pipeline_status_style, Color, Style, ThemeMode,
};

#[test]
fn theme_override_is_parsed_case_insensitively() {
    assert_eq!(parse_theme_override("COLOR"), Some(ThemeMode::Color));
    assert_eq!(parse_theme_override("mono"), Some(ThemeMode::Monochrome));
    assert_eq!(parse_theme_override("unknown"), None);
}

#[test]
fn theme_override_takes_precedence_over_no_color() {
    let mode = detect_theme_mode_from_env(Some("color"), true, Some("dumb"), Some("0"));
    assert_eq!(mode, ThemeMode::Color);
}

#[test]
fn no_color_switches_to_monochrome() {
    let mode = detect_theme_mode_from_env(None, true, Some("xterm-256color"), None);
    assert_eq!(mode, ThemeMode::Monochrome);
}

#[test]
fn clicolor_zero_switches_to_monochrome() {
    let mode = detect_theme_mode_from_env(None, false, Some("xterm-256color"), Some("0"));
    assert_eq!(mode, ThemeMode::Monochrome);
}

#[test]
fn dumb_term_switches_to_monochrome() {
    let mode = detect_theme_mode_from_env(None, false, Some("dumb"), None);
    assert_eq!(mode, ThemeMode::Monochrome);
}

#[test]
fn default_is_color() {
    let mode = detect_theme_mode_from_env(None, false, Some("xterm-256color"), None);
    assert_eq!(mode, ThemeMode::Color);
}

#[test]
fn unrecognised_override_falls_back_to_environment() {
    let mode = detect_theme_mode_from_env(Some("sparkly"), false, Some(" DUMB "), None);
    assert_eq!(mode, ThemeMode::Monochrome);
    assert_eq!(parse_theme_override("  Off "), Some(ThemeMode::Monochrome));
    assert_eq!(parse_theme_override("ansi"), Some(ThemeMode::Color));
}

#[test]
fn monochrome_styles_use_attributes_only() {
    let focus = focus_border_style(ThemeMode::Monochrome);
    assert_eq!(focus.fg, None);
    assert!(focus.bold);
    let changed = git_status_style(ThemeMode::Color, &GitProjectStatus::Changed);
    assert_eq!(changed, Style::plain().with_fg(Color::Yellow));
    let diverged = git_status_style(ThemeMode::Monochrome, &GitProjectStatus::Diverged);
    assert!(diverged.bold && diverged.reversed);
    let failing = pipeline_status_style(ThemeMode::Monochrome, &GitPipelineStatus::Failing);
    assert!(failing.reversed);
}
