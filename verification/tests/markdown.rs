use prm::db::repo::MoveDirection;
use prm::fs::markdown::{
    active_todo_count, create_todo, delete_todo, lines_of, list_todos, move_todo,
    parse_todo_line, render_lines, toggle_todo, update_todo_title, MarkdownError,
};

/// A TODO.md as the files on disk would hold it, edited line by line.
fn file(content: &str) -> Vec<String> {
    lines_of(content)
}

/// Appends a created todo line the way the file writer does.
fn append(lines: &mut Vec<String>, title: &str) {
    let line = create_todo(title).expect("create todo");
    lines.push(line);
}

#[test]
fn list_todos_parses_mixed_lines() {
    let lines = file("# Header\n- [ ] Task A\nsome note\n- [x] Task B\n");
    let todos = list_todos(&lines, 1);
    assert_eq!(todos.len(), 2);
    assert_eq!(todos[0].id, 1);
    assert_eq!(todos[0].title, "Task A");
    assert!(!todos[0].done);
    assert_eq!(todos[1].id, 3);
    assert_eq!(todos[1].title, "Task B");
    assert!(todos[1].done);
}

#[test]
fn list_todos_returns_empty_when_file_missing() {
    let lines: Vec<String> = Vec::new();
    let todos = list_todos(&lines, 1);
    assert!(todos.is_empty());
}

#[test]
fn create_todo_appends_line() {
    let mut lines: Vec<String> = Vec::new();
    append(&mut lines, "New task");
    append(&mut lines, "Another task");
    let lines = file(&render_lines(&lines));
    let todos = list_todos(&lines, 1);
    assert_eq!(todos.len(), 2);
    assert_eq!(todos[0].title, "New task");
    assert_eq!(todos[1].title, "Another task");
}

#[test]
fn toggle_todo_flips_done_state() {
    let mut lines = file("- [ ] Task A\n- [x] Task B\n");
    toggle_todo(&mut lines, 0).expect("toggle A");
    toggle_todo(&mut lines, 1).expect("toggle B");
    let todos = list_todos(&lines, 1);
    assert!(todos[0].done);
    assert!(!todos[1].done);
}

#[test]
fn update_todo_title_preserves_done_state() {
    let mut lines = file("- [x] Old title\n");
    update_todo_title(&mut lines, 0, "New title").expect("update title");
    let todos = list_todos(&lines, 1);
    assert_eq!(todos[0].title, "New title");
    assert!(todos[0].done);
}

#[test]
fn delete_todo_removes_line() {
    let mut lines = file("- [ ] Keep\n- [ ] Delete me\n- [ ] Also keep\n");
    delete_todo(&mut lines, 1).expect("delete");
    let todos = list_todos(&lines, 1);
    assert_eq!(todos.len(), 2);
    assert_eq!(todos[0].title, "Keep");
    assert_eq!(todos[1].title, "Also keep");
}

#[test]
fn move_todo_up_swaps_with_previous() {
    let mut lines = file("- [ ] A\n- [ ] B\n- [ ] C\n");
    let moved = move_todo(&mut lines, 2, MoveDirection::Up);
    assert!(moved);
    let todos = list_todos(&lines, 1);
    assert_eq!(todos[0].title, "A");
    assert_eq!(todos[1].title, "C");
    assert_eq!(todos[2].title, "B");
}

#[test]
fn move_todo_down_swaps_with_next() {
    let mut lines = file("- [ ] A\n- [ ] B\n- [ ] C\n");
    let moved = move_todo(&mut lines, 0, MoveDirection::Down);
    assert!(moved);
    let todos = list_todos(&lines, 1);
    assert_eq!(todos[0].title, "B");
    assert_eq!(todos[1].title, "A");
    assert_eq!(todos[2].title, "C");
}

#[test]
fn move_todo_at_boundary_returns_false() {
    let mut lines = file("- [ ] A\n- [ ] B\n");
    assert!(!move_todo(&mut lines, 0, MoveDirection::Up));
    assert!(!move_todo(&mut lines, 1, MoveDirection::Down));
}

#[test]
fn move_todo_skips_non_todo_lines() {
    let mut lines = file("- [ ] A\nsome note\n- [ ] B\n");
    // B is at line_idx 2; moving up should swap with A at line_idx 0
    let moved = move_todo(&mut lines, 2, MoveDirection::Up);
    assert!(moved);
    let content = render_lines(&lines);
    let lines: Vec<&str> = content.lines().collect();
    assert_eq!(lines[0], "- [ ] B");
    assert_eq!(lines[1], "some note"); // non-todo line preserved
    assert_eq!(lines[2], "- [ ] A");
}

#[test]
fn parse_accepts_indented_and_upper_case_marks() {
    assert_eq!(
        parse_todo_line("   - [X] Shout"),
        Some((true, "Shout".to_string()))
    );
    assert_eq!(parse_todo_line("- [ ] "), Some((false, String::new())));
    assert_eq!(parse_todo_line("-[ ] no"), None);
}

#[test]
fn edits_refuse_lines_that_are_not_todos() {
    let mut lines = file("# Header\n- [ ] A\n");
    assert_eq!(toggle_todo(&mut lines, 0), Err(MarkdownError::NotTodoLine(0)));
    assert_eq!(toggle_todo(&mut lines, 5), Err(MarkdownError::IndexOutOfRange(5)));
    assert_eq!(create_todo("   "), Err(MarkdownError::EmptyTitle));
    assert_eq!(
        update_todo_title(&mut lines, 1, " "),
        Err(MarkdownError::EmptyTitle)
    );
    assert_eq!(
        MarkdownError::IndexOutOfRange(5).message(),
        "todo line index out of range: 5"
    );
    assert_eq!(MarkdownError::NotTodoLine(0).message(), "line 0 is not a todo line");
    assert_eq!(MarkdownError::EmptyTitle.message(), "todo title cannot be empty");
}

#[test]
fn open_todos_are_counted() {
    let lines = file("- [ ] A\n- [x] B\nnote\n- [ ] C\r\n");
    assert_eq!(active_todo_count(&lines), 2);
}

#[test]
fn toggling_twice_restores_the_file() {
    let original = "- [ ] A\n- [x] B\n";
    let mut lines = file(original);
    toggle_todo(&mut lines, 1).expect("first");
    toggle_todo(&mut lines, 1).expect("second");
    assert_eq!(render_lines(&lines), original);
}

#[test]
fn empty_file_renders_empty() {
    let lines: Vec<String> = Vec::new();
    assert_eq!(render_lines(&lines), "");
}
