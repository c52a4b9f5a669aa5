use prm::fs::agents::{agents_body, agents_from_read, AgentsContent};

#[test]
fn returns_missing_when_file_does_not_exist() {
    let content = agents_from_read(false, Err("unused".to_string()), "/p/AGENTS.md");
    assert_eq!(content, AgentsContent::Missing);
    assert_eq!(agents_body(&content), "No AGENTS.md found");
}

#[test]
fn returns_loaded_when_file_exists() {
    let content = agents_from_read(true, Ok("# Demo\nRules".to_string()), "/p/AGENTS.md");
    assert_eq!(content, AgentsContent::Loaded("# Demo\nRules".to_string()));
    assert_eq!(agents_body(&content), "# Demo\nRules");
}

#[test]
fn returns_error_when_file_is_unreadable() {
    let content = agents_from_read(true, Err("Is a directory (os error 21)".to_string()), "/p/AGENTS.md");
    match &content {
        AgentsContent::Error(m) => {
            assert_eq!(m, "failed to read /p/AGENTS.md: Is a directory (os error 21)")
        }
        other => panic!("expected error, got {other:?}"),
    }
    assert_eq!(
        agents_body(&content),
        "Read error: failed to read /p/AGENTS.md: Is a directory (os error 21)"
    );
}
