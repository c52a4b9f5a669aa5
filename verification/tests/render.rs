use prm::domain::project::Project;
use prm::git::{GitHistory, GitProjectStatus, GitRelease};
use prm::ui::view::{
    project_active_todo_count_prefix, project_release_suffix, project_row, release_line,
    scrolled_title,
};
use prm::ui::width::{input_view, truncate_with_ellipsis};

#[test]
fn project_active_todo_count_prefix_caps_after_single_digits() {
    assert_eq!(project_active_todo_count_prefix(0), " 0 ");
    assert_eq!(project_active_todo_count_prefix(9), " 9 ");
    assert_eq!(project_active_todo_count_prefix(10), "9+ ");
}

#[test]
fn truncate_with_ellipsis_keeps_short_text() {
    assert_eq!(truncate_with_ellipsis("short todo", 10), "short todo");
}

#[test]
fn truncate_with_ellipsis_marks_cut_text() {
    assert_eq!(truncate_with_ellipsis("long todo title", 10), "long to...");
}

#[test]
fn truncate_with_ellipsis_handles_tiny_widths() {
    assert_eq!(truncate_with_ellipsis("long", 0), "");
    assert_eq!(truncate_with_ellipsis("long", 1), ".");
    assert_eq!(truncate_with_ellipsis("long", 2), "..");
    assert_eq!(truncate_with_ellipsis("long", 3), "...");
}

#[test]
fn truncate_with_ellipsis_respects_wide_char_width() {
    assert_eq!(truncate_with_ellipsis("ab你好cd", 6), "ab...");
}

#[test]
fn titles_show_scroll_offsets() {
    assert_eq!(scrolled_title("Help", 0), "Help");
    assert_eq!(scrolled_title("[4] Git history", 12), "[4] Git history +12");
}

#[test]
fn release_text_describes_each_state() {
    let tagged = GitRelease::Tagged {
        tag: "v1.2.0".to_string(),
        commits_ahead: 0,
    };
    assert_eq!(release_line(&tagged), "Release: v1.2.0 (HEAD at tag)");
    assert_eq!(project_release_suffix(&tagged), "  v1.2.0");
    let ahead = GitRelease::Tagged {
        tag: "v1.2.0".to_string(),
        commits_ahead: 3,
    };
    assert_eq!(release_line(&ahead), "Release: v1.2.0 (+3 commits)");
    assert_eq!(release_line(&GitRelease::NoTags), "Release: no tags in history");
    assert_eq!(project_release_suffix(&GitRelease::NoTags), "");
    assert_eq!(
        project_release_suffix(&GitRelease::NoCommits),
        "  no-commits"
    );
    assert_eq!(
        release_line(&GitRelease::Error("boom".to_string())),
        "Release: read error (boom)"
    );
    assert_eq!(
        project_release_suffix(&GitRelease::Error("boom".to_string())),
        "  tag-error"
    );
    let lines = prm::ui::view::history_lines(&GitHistory::Empty);
    assert_eq!(lines, vec!["No commits yet".to_string()]);
}

#[test]
fn input_view_keeps_the_cursor_in_sight() {
    assert_eq!(input_view("hello", 5, 0), (String::new(), 0));
    assert_eq!(input_view("hello", 2, 10), ("hello".to_string(), 2));
    // Too wide: the start is cut and marked, the cursor stays visible.
    assert_eq!(input_view("abcdefghij", 10, 5), ("<ghij".to_string(), 5));
    // Cursor at the start: the tail is cut instead.
    assert_eq!(input_view("abcdefghij", 0, 5), ("abcde".to_string(), 0));
    // Cursor in the middle.
    assert_eq!(input_view("abcdefghij", 5, 4), ("<cde".to_string(), 4));
}

#[test]
fn project_rows_show_marker_count_badge_name_and_release() {
    let project = Project {
        id: 1,
        name: "demo".to_string(),
        path: "/work/demo".to_string(),
        archived: true,
        todo_source: "db".to_string(),
        created_at: "2024-01-01T00:00:00+00:00".to_string(),
        updated_at: "2024-01-01T00:00:00+00:00".to_string(),
    };
    let release = GitRelease::Tagged { tag: "v1.0.0".to_string(), commits_ahead: 0 };
    let row = project_row(&project, 12, &GitProjectStatus::WaitingToPush, &release);
    assert_eq!(row.marker, "[A] ");
    assert_eq!(row.count, "9+ ");
    assert_eq!(row.badge, "[PUSH]");
    assert_eq!(row.name, " demo");
    assert_eq!(row.release, "  v1.0.0");
}
