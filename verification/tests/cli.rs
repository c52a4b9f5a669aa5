use prm::cli::{
    display_todo_source, ensure_todo_exists, find_project, list_header, list_row, truncate,
    upsert_line, FindError, MoveDirectionArg, TodoSourceArg,
};
use prm::db::repo::UpsertStatus;
use prm::domain::todo::Todo;
use prm::db::repo::MoveDirection;
use prm::domain::project::Project;

fn project(id: i64, name: &str, path: &str) -> Project {
    Project {
        id,
        name: name.to_string(),
        path: path.to_string(),
        archived: false,
        todo_source: "db".to_string(),
        created_at: String::new(),
        updated_at: String::new(),
    }
}

fn registered() -> Vec<Project> {
    vec![
        project(1, "alpha", "/work/alpha"),
        project(2, "Beta Tool", "/work/beta"),
        project(3, "beta-docs", "/work/docs"),
    ]
}

#[test]
fn projects_are_found_by_id_path_and_name() {
    let ps = registered();
    assert_eq!(find_project(&ps, " 2 ", None).map(|p| p.id), Ok(2));
    assert_eq!(find_project(&ps, "docs", Some("/work/docs")).map(|p| p.id), Ok(3));
    assert_eq!(find_project(&ps, "ALPHA", None).map(|p| p.id), Ok(1));
    assert_eq!(find_project(&ps, "/work/beta", None).map(|p| p.id), Ok(2));
    assert_eq!(find_project(&ps, "tool", None).map(|p| p.id), Ok(2));
}

#[test]
fn unknown_and_ambiguous_references_are_refused() {
    let ps = registered();
    assert_eq!(find_project(&ps, "   ", None), Err(FindError::EmptyReference));
    let err = find_project(&ps, "gamma", None).expect_err("not found");
    assert_eq!(
        err.message(),
        "project not found: gamma. Run `prm list --all` to see registered projects"
    );
    let err = find_project(&ps, "beta", None).expect_err("ambiguous");
    assert_eq!(
        err.message(),
        "project reference is ambiguous: beta. Matches: #2 Beta Tool, #3 beta-docs"
    );
}

#[test]
fn cli_helpers_name_sources_and_cut_names() {
    assert_eq!(display_todo_source("markdown"), "TODO.md");
    assert_eq!(display_todo_source("db"), "database");
    assert_eq!(TodoSourceArg::Markdown.as_str(), "markdown");
    assert_eq!(TodoSourceArg::Db.as_str(), "db");
    assert_eq!(MoveDirectionArg::Up.direction(), MoveDirection::Up);
    assert_eq!(truncate("short", 24), "short");
    assert_eq!(truncate("a very long project name here", 10), "a very ...");
    assert_eq!(truncate("abcdef", 2), "ab");
}

#[test]
fn cli_lines_are_formatted_in_columns() {
    let mut p = project(7, "a project with a rather long name", "/work/p");
    assert_eq!(
        list_header(),
        format!("{:<4} {:<24} {:<9} {:<8} {:<5} Path", "ID", "Name", "Status", "Todos", "Src")
    );
    assert_eq!(
        list_row(&p, 3),
        format!(
            "{:<4} {:<24} {:<9} {:<8} {:<5} {}",
            7, "a project with a rath...", "active", 3, "db", "/work/p"
        )
    );
    p.archived = true;
    assert!(list_row(&p, 0).contains(" archived "));
    assert_eq!(upsert_line(UpsertStatus::Added, &p), "added: a project with a rather long name (/work/p)");
    assert_eq!(upsert_line(UpsertStatus::Existing, &p), "already exists: a project with a rather long name (/work/p)");
}

#[test]
fn todo_ids_must_belong_to_the_project() {
    let p = project(4, "demo", "/work/demo");
    let todos = vec![Todo {
        id: 9,
        project_id: 4,
        title: "t".to_string(),
        done: false,
        sort_order: 0,
        created_at: String::new(),
        updated_at: String::new(),
    }];
    assert_eq!(ensure_todo_exists(&todos, 9, &p), Ok(()));
    assert_eq!(
        ensure_todo_exists(&todos, 8, &p),
        Err("todo #8 was not found in demo. Run `prm todo list -p 4` to see valid ids".to_string())
    );
}
