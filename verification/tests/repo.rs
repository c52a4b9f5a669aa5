use prm::db::repo::{
    list_projects_query, move_plan, normalize_project_name, normalize_todo_title, plan_upsert,
    project_filter_pattern, sort_order_plan, MoveDirection, RepoError, UpsertPlan,
};
use prm::domain::project::Project;

fn project(id: i64, name: &str, path: &str) -> Project {
    Project {
        id,
        name: name.to_string(),
        path: path.to_string(),
        archived: false,
        todo_source: "db".to_string(),
        created_at: "2024-01-01T00:00:00+00:00".to_string(),
        updated_at: "2024-01-01T00:00:00+00:00".to_string(),
    }
}

#[test]
fn upsert_project_is_idempotent() {
    let first = plan_upsert(None, "/work/demo", Some("demo"), None);
    assert_eq!(
        first,
        UpsertPlan::Insert {
            name: "demo".to_string()
        }
    );
    let stored = project(1, "demo", "/work/demo");
    let second = plan_upsert(Some(&stored), "/work/demo", Some("demo"), None);
    assert_eq!(second, UpsertPlan::Keep);
}

#[test]
fn upsert_with_a_new_name_renames() {
    let stored = project(7, "demo", "/work/demo");
    assert_eq!(
        plan_upsert(Some(&stored), "/work/demo", Some("demo"), Some("  Demo App ")),
        UpsertPlan::Rename {
            project_id: 7,
            name: "Demo App".to_string()
        }
    );
    assert_eq!(
        plan_upsert(Some(&stored), "/work/demo", Some("demo"), Some("demo")),
        UpsertPlan::Keep
    );
    assert_eq!(
        plan_upsert(Some(&stored), "/work/demo", Some("demo"), Some("   ")),
        UpsertPlan::Keep
    );
}

#[test]
fn new_projects_are_named_after_the_directory() {
    assert_eq!(
        plan_upsert(None, "/work/demo", Some("demo"), Some(" ")),
        UpsertPlan::Insert {
            name: "demo".to_string()
        }
    );
    assert_eq!(
        plan_upsert(None, "/", None, None),
        UpsertPlan::Insert {
            name: "/".to_string()
        }
    );
}

#[test]
fn move_todo_maintains_contiguous_order() {
    let ids = [11, 12, 13];
    let moved = move_plan(&ids, 13, MoveDirection::Up).expect("moved");
    assert_eq!(moved, vec![11, 13, 12]);
    let (parked, placed) = sort_order_plan(&moved);
    assert_eq!(parked, vec![(11, 10000), (13, 10001), (12, 10002)]);
    assert_eq!(placed, vec![(11, 0), (13, 1), (12, 2)]);
    assert_eq!(move_plan(&ids, 11, MoveDirection::Up), None);
}

#[test]
fn moves_stop_at_either_end() {
    let ids = [1, 2];
    assert_eq!(move_plan(&ids, 2, MoveDirection::Down), None);
    assert_eq!(move_plan(&ids, 3, MoveDirection::Down), None);
    assert_eq!(move_plan(&ids, 1, MoveDirection::Down), Some(vec![2, 1]));
}

#[test]
fn names_and_titles_are_trimmed_and_required() {
    assert_eq!(normalize_project_name("  demo "), Ok("demo".to_string()));
    assert_eq!(normalize_project_name(" "), Err(RepoError::EmptyProjectName));
    assert_eq!(
        RepoError::EmptyProjectName.message(),
        "project name cannot be empty"
    );
    assert_eq!(normalize_todo_title("\tship it\n"), Ok("ship it".to_string()));
    assert_eq!(normalize_todo_title(""), Err(RepoError::EmptyTodoTitle));
    assert_eq!(RepoError::EmptyTodoTitle.message(), "todo title cannot be empty");
}

#[test]
fn filters_become_like_patterns() {
    assert_eq!(project_filter_pattern(None), None);
    assert_eq!(project_filter_pattern(Some("  ")), None);
    assert_eq!(project_filter_pattern(Some(" dem ")), Some("%dem%".to_string()));
}

#[test]
fn archived_projects_are_listed_only_when_asked() {
    assert!(list_projects_query(false, false).contains("WHERE archived = 0"));
    assert!(!list_projects_query(true, false).contains("WHERE"));
    assert!(list_projects_query(true, true).contains("LIKE ?1"));
    assert!(list_projects_query(false, true).contains("archived = 0 AND"));
}
