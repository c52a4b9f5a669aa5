use prm::settings::{
    load_or_create, parse_bool, parse_settings, render_settings, settings_path, Settings,
    SettingsError,
};

#[test]
fn settings_parser_accepts_false_value() {
    let parsed = parse_settings("git_pipeline_check = false\n").expect("parse settings content");
    assert!(!parsed.git_pipeline_check);
}

#[test]
fn settings_parser_rejects_invalid_bool() {
    let result = parse_settings("git_pipeline_check = maybe\n");
    assert!(result.is_err());
}

#[test]
fn missing_settings_file_is_created_with_defaults() {
    let (settings, created) = load_or_create(None).expect("defaults");
    assert_eq!(settings, Settings::default());
    let content = created.expect("file text to create");
    assert!(content.contains("git_pipeline_check = true"));
}

#[test]
fn existing_settings_file_is_read_not_rewritten() {
    let (settings, created) = load_or_create(Some("git_pipeline_check = FALSE\n")).expect("parse");
    assert!(!settings.git_pipeline_check);
    assert!(created.is_none());
}

#[test]
fn settings_errors_name_the_line() {
    let err = parse_settings("# comment\n\nnot a pair\n").expect_err("missing equals");
    assert_eq!(err, SettingsError::MissingEquals { line: 3 });
    assert_eq!(err.message(), "line 3 must use key = value syntax");

    let err = parse_settings("git_pipeline_check = maybe # note\n").expect_err("bad bool");
    assert_eq!(
        err,
        SettingsError::InvalidBool {
            line: 1,
            value: "maybe".to_string()
        }
    );
    assert_eq!(
        err.message(),
        "line 1 has invalid boolean for git_pipeline_check: maybe"
    );
}

#[test]
fn unknown_keys_and_comments_are_ignored() {
    let parsed = parse_settings("# header\nother = 1\ngit_pipeline_check = true # on\n")
        .expect("parse");
    assert!(parsed.git_pipeline_check);
}

#[test]
fn booleans_ignore_ascii_case() {
    assert_eq!(parse_bool("TRUE"), Some(true));
    assert_eq!(parse_bool("False"), Some(false));
    assert_eq!(parse_bool("yes"), None);
}

#[test]
fn rendered_settings_parse_back() {
    for flag in [true, false] {
        let text = render_settings(Settings {
            git_pipeline_check: flag,
        });
        assert!(text.starts_with("# prm settings\n"));
        let parsed = parse_settings(&text).expect("round trip");
        assert_eq!(parsed.git_pipeline_check, flag);
    }
}

#[test]
fn settings_live_under_the_config_home() {
    let parts = settings_path(Some("/xdg"), Some("/home/u"), None).expect("xdg");
    assert_eq!(parts, vec!["/xdg", "prm", "settings.toml"]);
    let parts = settings_path(Some(""), Some("/home/u"), None).expect("home");
    assert_eq!(parts, vec!["/home/u", ".config", "prm", "settings.toml"]);
    let parts = settings_path(None, None, Some("C:\\Users\\u")).expect("profile");
    assert_eq!(parts, vec!["C:\\Users\\u", ".config", "prm", "settings.toml"]);
    let err = settings_path(None, Some(""), None).expect_err("nothing set");
    assert_eq!(
        err.message(),
        "could not determine XDG config home (XDG_CONFIG_HOME, HOME, USERPROFILE)"
    );
}
