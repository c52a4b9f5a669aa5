use std::collections::HashMap;

use prm::app::state::{
    AddProjectField, AddProjectModal, AppState, Chore, ConfirmAction, ExternalCommand, FocusPane,
    InputPurpose, KeyCode, KeyInput, Modal, MouseInput, MouseKind, PaneAreas, Rect, Reply,
    Request, SingleInputModal,
};
use prm::db::repo::{move_plan, normalize_project_name, normalize_todo_title, plan_upsert, UpsertPlan, UpsertStatus};
use prm::domain::project::Project;
use prm::domain::todo::Todo;
use prm::fs::markdown;

/// An in-memory stand-in for the database and the TODO.md files.
#[derive(Default)]
struct Store {
    projects: Vec<Project>,
    todos: Vec<Todo>,
    files: HashMap<String, Vec<String>>,
    next_id: i64,
    version: i64,
}

impl Store {
    fn touch(&mut self) {
        self.version += 1;
    }

    fn upsert(&mut self, path: &str, name: Option<&str>) -> (UpsertStatus, Project) {
        let existing = self.projects.iter().find(|p| p.path == path).cloned();
        let file_name = path.rsplit('/').next().filter(|s| !s.is_empty());
        match plan_upsert(existing.as_ref(), path, file_name, name) {
            UpsertPlan::Insert { name } => {
                self.next_id += 1;
                let p = Project {
                    id: self.next_id,
                    name,
                    path: path.to_string(),
                    archived: false,
                    todo_source: "db".to_string(),
                    created_at: "t".to_string(),
                    updated_at: "t".to_string(),
                };
                self.projects.push(p.clone());
                self.touch();
                (UpsertStatus::Added, p)
            }
            UpsertPlan::Rename { project_id, name } => {
                let p = self.projects.iter_mut().find(|p| p.id == project_id).unwrap();
                p.name = name;
                let p = p.clone();
                self.touch();
                (UpsertStatus::Updated, p)
            }
            UpsertPlan::Keep => (UpsertStatus::Existing, existing.unwrap()),
        }
    }

    fn create_todo(&mut self, project_id: i64, title: &str) -> Result<Todo, String> {
        let title = normalize_todo_title(title).map_err(|e| e.message())?;
        let order = self
            .todos
            .iter()
            .filter(|t| t.project_id == project_id)
            .map(|t| t.sort_order)
            .max()
            .unwrap_or(-1)
            + 1;
        self.next_id += 1;
        let t = Todo {
            id: self.next_id,
            project_id,
            title,
            done: false,
            sort_order: order,
            created_at: "t".to_string(),
            updated_at: "t".to_string(),
        };
        self.todos.push(t.clone());
        self.touch();
        Ok(t)
    }

    fn list_todos(&self, project_id: i64) -> Vec<Todo> {
        let mut v: Vec<Todo> = self
            .todos
            .iter()
            .filter(|t| t.project_id == project_id)
            .cloned()
            .collect();
        v.sort_by_key(|t| (t.done, t.sort_order, t.id));
        v
    }

    fn renumber(&mut self, project_id: i64, ids: &[i64]) {
        for (i, id) in ids.iter().enumerate() {
            if let Some(t) = self.todos.iter_mut().find(|t| t.id == *id && t.project_id == project_id) {
                t.sort_order = i as i64;
            }
        }
    }

    fn file(&mut self, path: &str) -> &mut Vec<String> {
        self.files.entry(path.to_string()).or_default()
    }

    fn perform(&mut self, request: Request) -> Reply {
        match request {
            Request::ListProjects { show_archived, filter } => {
                let mut v: Vec<Project> = self
                    .projects
                    .iter()
                    .filter(|p| show_archived || !p.archived)
                    .filter(|p| match &filter {
                        Some(f) => {
                            let f = f.trim().to_lowercase();
                            p.name.to_lowercase().contains(&f) || p.path.to_lowercase().contains(&f)
                        }
                        None => true,
                    })
                    .cloned()
                    .collect();
                v.sort_by_key(|p| (p.archived, p.name.to_lowercase()));
                Reply::Projects(v)
            }
            Request::CountActiveTodos { db_project_ids, markdown_projects } => {
                let mut counts = Vec::new();
                for id in db_project_ids {
                    let n = self.todos.iter().filter(|t| t.project_id == id && !t.done).count();
                    if n > 0 {
                        counts.push((id, n));
                    }
                }
                for (id, path) in markdown_projects {
                    let lines = self.file(&path).clone();
                    counts.push((id, markdown::active_todo_count(&lines)));
                }
                Reply::Counts(counts)
            }
            Request::LoadDbTodos { project_id } => Reply::Todos(self.list_todos(project_id)),
            Request::LoadMarkdownTodos { project_path, project_id } => {
                let lines = self.file(&project_path).clone();
                Reply::Todos(markdown::list_todos(&lines, project_id))
            }
            Request::SetTodoSource { project_id, source } => {
                self.projects.iter_mut().find(|p| p.id == project_id).unwrap().todo_source = source;
                self.touch();
                Reply::Done
            }
            Request::SetProjectArchived { project_id, archived } => {
                self.projects.iter_mut().find(|p| p.id == project_id).unwrap().archived = archived;
                self.touch();
                Reply::Done
            }
            Request::ToggleDbTodo { todo_id } => {
                let t = self.todos.iter_mut().find(|t| t.id == todo_id).unwrap();
                t.done = !t.done;
                self.touch();
                Reply::Done
            }
            Request::ToggleMarkdownTodo { project_path, line } => {
                match markdown::toggle_todo(self.file(&project_path), line) {
                    Ok(()) => Reply::Done,
                    Err(e) => Reply::Failed(e.message()),
                }
            }
            Request::DeleteDbTodo { todo_id } => {
                let project_id = self.todos.iter().find(|t| t.id == todo_id).map(|t| t.project_id);
                self.todos.retain(|t| t.id != todo_id);
                if let Some(project_id) = project_id {
                    let ids: Vec<i64> = self.list_todos(project_id).iter().map(|t| t.id).collect();
                    self.renumber(project_id, &ids);
                }
                self.touch();
                Reply::Done
            }
            Request::DeleteMarkdownTodo { project_path, line } => {
                match markdown::delete_todo(self.file(&project_path), line) {
                    Ok(()) => Reply::Done,
                    Err(e) => Reply::Failed(e.message()),
                }
            }
            Request::MoveDbTodo { todo_id, direction } => {
                let Some(project_id) = self.todos.iter().find(|t| t.id == todo_id).map(|t| t.project_id) else {
                    return Reply::Moved(false);
                };
                let ids: Vec<i64> = self.list_todos(project_id).iter().map(|t| t.id).collect();
                match move_plan(&ids, todo_id, direction) {
                    Some(order) => {
                        self.renumber(project_id, &order);
                        self.touch();
                        Reply::Moved(true)
                    }
                    None => Reply::Moved(false),
                }
            }
            Request::MoveMarkdownTodo { project_path, line, direction } => {
                Reply::Moved(markdown::move_todo(self.file(&project_path), line, direction))
            }
            Request::RenameProject { project_id, name } => match normalize_project_name(&name) {
                Ok(name) => {
                    self.projects.iter_mut().find(|p| p.id == project_id).unwrap().name = name;
                    self.touch();
                    Reply::Done
                }
                Err(e) => Reply::Failed(e.message()),
            },
            Request::CreateDbTodo { project_id, title } => match self.create_todo(project_id, &title) {
                Ok(t) => Reply::CreatedTodo(t.id),
                Err(e) => Reply::Failed(e),
            },
            Request::CreateMarkdownTodo { project_path, title } => match markdown::create_todo(&title) {
                Ok(line) => {
                    self.file(&project_path).push(line);
                    Reply::Done
                }
                Err(e) => Reply::Failed(e.message()),
            },
            Request::UpdateDbTodoTitle { todo_id, title } => match normalize_todo_title(&title) {
                Ok(title) => {
                    self.todos.iter_mut().find(|t| t.id == todo_id).unwrap().title = title;
                    self.touch();
                    Reply::Done
                }
                Err(e) => Reply::Failed(e.message()),
            },
            Request::UpdateMarkdownTodoTitle { project_path, line, title } => {
                match markdown::update_todo_title(self.file(&project_path), line, &title) {
                    Ok(()) => Reply::Done,
                    Err(e) => Reply::Failed(e.message()),
                }
            }
            Request::AddProject { path, name } => {
                let (status, p) = self.upsert(&path, name.as_deref());
                Reply::Upserted(status, p)
            }
            Request::DeleteProject { project_id } => {
                self.projects.retain(|p| p.id != project_id);
                self.todos.retain(|t| t.project_id != project_id);
                self.touch();
                Reply::Done
            }
        }
    }
}

/// Answers the state's requests until its operation ends.
fn drive(state: &mut AppState, store: &mut Store, first: Option<Request>) {
    let mut next = first;
    let mut steps = 0;
    while let Some(request) = next {
        let reply = store.perform(request);
        next = state.resume(reply);
        steps += 1;
        assert!(steps < 50, "operation did not end");
    }
    for chore in state.take_chores() {
        if chore == Chore::SyncDbVersion {
            state.sync_db_version(store.version);
        }
    }
}

fn press(state: &mut AppState, store: &mut Store, key: KeyInput) {
    let request = state.handle_key_event(key);
    drive(state, store, request);
}

fn key(code: KeyCode) -> KeyInput {
    KeyInput::new(code)
}

fn ch(c: char) -> KeyInput {
    KeyInput::new(KeyCode::Char(c))
}

fn start(store: &mut Store) -> AppState {
    let (mut state, request) = AppState::new();
    drive(&mut state, store, Some(request));
    assert!(state.load_error.is_none());
    state
}

fn test_state() -> (AppState, Store) {
    let mut store = Store::default();
    store.upsert("/tmp/demo", Some("demo"));
    let state = start(&mut store);
    (state, store)
}

fn panes() -> PaneAreas {
    PaneAreas {
        projects: Rect::new(0, 0, 20, 10),
        todos: Rect::new(21, 0, 20, 10),
        agents: Rect::new(42, 0, 20, 5),
        git_history: Rect::new(42, 5, 20, 5),
    }
}

fn mouse(state: &mut AppState, store: &mut Store, kind: MouseKind, column: u16, row: u16) {
    let request = state.handle_mouse_event(MouseInput { kind, column, row }, panes());
    drive(state, store, request);
}

#[test]
fn focus_cycles_with_tab() {
    let (mut state, mut store) = test_state();
    assert_eq!(state.focus, FocusPane::Projects);

    press(&mut state, &mut store, key(KeyCode::Tab));
    assert_eq!(state.focus, FocusPane::Todos);

    press(&mut state, &mut store, key(KeyCode::Tab));
    assert_eq!(state.focus, FocusPane::Agents);

    press(&mut state, &mut store, key(KeyCode::Tab));
    assert_eq!(state.focus, FocusPane::GitHistory);

    press(&mut state, &mut store, key(KeyCode::BackTab));
    assert_eq!(state.focus, FocusPane::Agents);
}

#[test]
fn show_archived_toggle_changes_visibility() {
    let (mut state, mut store) = test_state();
    let project_id = state.selected_project().expect("project").id;

    press(&mut state, &mut store, ch('x'));
    assert_eq!(state.project_count(), 0);

    press(&mut state, &mut store, ch('A'));
    assert_eq!(state.project_count(), 1);
    assert_eq!(state.selected_project().expect("project").id, project_id);
}

#[test]
fn project_delete_shortcut_opens_confirmation_without_deleting() {
    let (mut state, mut store) = test_state();
    let project_id = state.selected_project().expect("project").id;

    press(&mut state, &mut store, ch('d'));

    assert_eq!(state.project_count(), 1);
    match state.modal {
        Some(Modal::Confirm(ref confirm)) => {
            assert_eq!(confirm.title, "Delete project");
            assert!(confirm.message.contains("demo"));
            assert!(matches!(
                confirm.action,
                ConfirmAction::DeleteProject(id) if id == project_id
            ));
        }
        _ => panic!("expected delete-project confirmation modal"),
    }
}

#[test]
fn project_delete_confirmation_can_be_canceled() {
    let (mut state, mut store) = test_state();

    press(&mut state, &mut store, ch('d'));
    press(&mut state, &mut store, ch('n'));

    assert_eq!(state.project_count(), 1);
    assert!(state.modal.is_none());
    assert_eq!(state.status, "Canceled");
}

#[test]
fn project_delete_confirmation_deletes_after_acceptance() {
    let (mut state, mut store) = test_state();

    press(&mut state, &mut store, ch('d'));
    press(&mut state, &mut store, ch('y'));

    assert_eq!(state.project_count(), 0);
    assert!(state.modal.is_none());
    assert_eq!(state.status, "Deleted project");
}

#[test]
fn git_history_pane_scrolls_with_j_k() {
    let (mut state, mut store) = test_state();
    state.focus = FocusPane::GitHistory;

    press(&mut state, &mut store, ch('j'));
    assert_eq!(state.git_history_scroll, 1);

    press(&mut state, &mut store, ch('k'));
    assert_eq!(state.git_history_scroll, 0);
}

#[test]
fn pane_focus_shortcuts_use_number_keys() {
    let (mut state, mut store) = test_state();
    assert_eq!(state.focus, FocusPane::Projects);

    press(&mut state, &mut store, ch('2'));
    assert_eq!(state.focus, FocusPane::Todos);

    press(&mut state, &mut store, ch('3'));
    assert_eq!(state.focus, FocusPane::Agents);

    press(&mut state, &mut store, ch('4'));
    assert_eq!(state.focus, FocusPane::GitHistory);

    press(&mut state, &mut store, ch('1'));
    assert_eq!(state.focus, FocusPane::Projects);
}

#[test]
fn arrow_keys_navigate_between_panes_and_rows() {
    let (mut state, mut store) = test_state();
    state.focus = FocusPane::GitHistory;

    press(&mut state, &mut store, key(KeyCode::Down));
    assert_eq!(state.git_history_scroll, 1);

    press(&mut state, &mut store, key(KeyCode::Up));
    assert_eq!(state.git_history_scroll, 0);

    press(&mut state, &mut store, key(KeyCode::Left));
    assert_eq!(state.focus, FocusPane::Agents);

    press(&mut state, &mut store, key(KeyCode::Right));
    assert_eq!(state.focus, FocusPane::GitHistory);
}

#[test]
fn mouse_click_focuses_pane_and_selects_rows() {
    let (mut state, mut store) = test_state();
    store.upsert("/tmp/demo-2", Some("demo-2"));
    // Reload the project list as the fetch shortcut does.
    press(&mut state, &mut store, ch('f'));

    mouse(&mut state, &mut store, MouseKind::LeftDown, 1, 2);

    assert_eq!(state.focus, FocusPane::Projects);
    assert_eq!(state.selected_project, 1);
}

#[test]
fn todo_reorder_via_uppercase_keys() {
    let (mut state, mut store) = test_state();
    let project_id = state.selected_project().expect("project").id;

    store.create_todo(project_id, "one").expect("create first todo");
    store.create_todo(project_id, "two").expect("create second todo");
    store.create_todo(project_id, "three").expect("create third todo");
    // Load the todos for the state, as a fetch does.
    press(&mut state, &mut store, ch('f'));

    state.focus = FocusPane::Todos;
    state.selected_todo = 2;
    press(&mut state, &mut store, ch('K'));

    assert_eq!(state.todos[1].title, "three");
    assert_eq!(state.todos[2].title, "two");
}

#[test]
fn fetch_shortcut_refreshes_state() {
    let (mut state, mut store) = test_state();
    press(&mut state, &mut store, ch('f'));
    assert_eq!(state.status, "Fetched latest database and git state");
}

#[test]
fn lazygit_shortcut_queues_external_command() {
    let (mut state, mut store) = test_state();

    press(&mut state, &mut store, ch('g'));

    assert_eq!(
        state.take_pending_external_command(),
        Some(ExternalCommand::OpenLazyGit {
            project_path: state.selected_project().expect("project").path.clone(),
        })
    );
}

#[test]
fn lazygit_shortcut_is_ignored_while_filtering() {
    let (mut state, mut store) = test_state();
    state.filter_mode = true;

    press(&mut state, &mut store, ch('g'));

    assert!(state.take_pending_external_command().is_none());
    assert_eq!(state.filter_input, "g");
}

#[test]
fn lazygit_shortcut_is_ignored_while_help_is_open() {
    let (mut state, mut store) = test_state();
    state.show_help = true;

    press(&mut state, &mut store, ch('g'));

    assert!(state.take_pending_external_command().is_none());
}

#[test]
fn help_overlay_scrolls_with_keyboard_and_resets_when_closed() {
    let (mut state, mut store) = test_state();

    press(&mut state, &mut store, ch('?'));
    assert!(state.show_help);
    assert_eq!(state.help_scroll, 0);

    press(&mut state, &mut store, ch('j'));
    press(&mut state, &mut store, key(KeyCode::Down));
    assert_eq!(state.help_scroll, 2);

    press(&mut state, &mut store, key(KeyCode::PageDown));
    assert_eq!(state.help_scroll, 14);

    press(&mut state, &mut store, key(KeyCode::PageUp));
    assert_eq!(state.help_scroll, 2);

    press(&mut state, &mut store, key(KeyCode::Home));
    assert_eq!(state.help_scroll, 0);

    press(&mut state, &mut store, key(KeyCode::Esc));
    assert!(!state.show_help);
    assert_eq!(state.help_scroll, 0);
}

#[test]
fn help_overlay_scrolls_with_mouse_wheel() {
    let (mut state, mut store) = test_state();
    state.show_help = true;

    mouse(&mut state, &mut store, MouseKind::ScrollDown, 0, 0);
    assert_eq!(state.help_scroll, 1);

    mouse(&mut state, &mut store, MouseKind::ScrollUp, 0, 0);
    assert_eq!(state.help_scroll, 0);
}

fn empty_add_project_modal() -> Modal {
    Modal::AddProject(AddProjectModal {
        path: String::new(),
        name: String::new(),
        path_cursor: 0,
        name_cursor: 0,
        active_field: AddProjectField::Path,
    })
}

#[test]
fn lazygit_shortcut_is_ignored_while_modal_is_open() {
    let (mut state, mut store) = test_state();
    state.modal = Some(empty_add_project_modal());

    press(&mut state, &mut store, ch('g'));

    assert!(state.take_pending_external_command().is_none());
    match state.modal {
        Some(Modal::AddProject(ref add)) => assert_eq!(add.path, "g"),
        _ => panic!("expected add-project modal"),
    }
}

fn add_todo_modal(project_id: i64, value: &str, cursor: usize) -> Modal {
    Modal::Input(SingleInputModal {
        title: "Add todo".to_string(),
        prompt: "Todo".to_string(),
        value: value.to_string(),
        cursor,
        purpose: InputPurpose::AddTodo(project_id),
    })
}

#[test]
fn input_modal_accepts_q_and_only_escape_cancels() {
    let (mut state, mut store) = test_state();
    let project_id = state.selected_project().expect("project").id;
    state.modal = Some(add_todo_modal(project_id, "", 0));

    press(&mut state, &mut store, ch('q'));

    assert!(!state.should_quit());
    match state.modal {
        Some(Modal::Input(ref input)) => assert_eq!(input.value, "q"),
        _ => panic!("expected input modal"),
    }

    press(&mut state, &mut store, key(KeyCode::Esc));

    assert!(state.modal.is_none());
    assert_eq!(state.status, "Canceled");
}

#[test]
fn input_modal_keeps_shift_q_and_global_shortcuts_local() {
    let (mut state, mut store) = test_state();
    let project_id = state.selected_project().expect("project").id;
    state.modal = Some(add_todo_modal(project_id, "", 0));

    press(&mut state, &mut store, KeyInput::shifted(KeyCode::Char('Q')));
    press(&mut state, &mut store, ch('f'));
    press(&mut state, &mut store, ch('g'));

    assert!(!state.should_quit());
    assert!(state.take_pending_external_command().is_none());
    match state.modal {
        Some(Modal::Input(ref input)) => assert_eq!(input.value, "Qfg"),
        _ => panic!("expected input modal"),
    }
}

#[test]
fn input_modal_edits_at_cursor() {
    let (mut state, mut store) = test_state();
    let project_id = state.selected_project().expect("project").id;
    state.modal = Some(add_todo_modal(project_id, "ab", 1));

    press(&mut state, &mut store, ch('é'));
    press(&mut state, &mut store, key(KeyCode::Left));
    press(&mut state, &mut store, key(KeyCode::Backspace));
    press(&mut state, &mut store, ch('z'));

    match state.modal {
        Some(Modal::Input(ref input)) => {
            assert_eq!(input.value, "zéb");
            assert_eq!(input.cursor, 1);
        }
        _ => panic!("expected input modal"),
    }
}

#[test]
fn add_project_modal_tracks_cursor_per_field() {
    let (mut state, mut store) = test_state();
    state.modal = Some(Modal::AddProject(AddProjectModal {
        path: "ac".to_string(),
        name: "xz".to_string(),
        path_cursor: 1,
        name_cursor: 1,
        active_field: AddProjectField::Path,
    }));

    press(&mut state, &mut store, ch('b'));
    press(&mut state, &mut store, key(KeyCode::Tab));
    press(&mut state, &mut store, ch('y'));

    match state.modal {
        Some(Modal::AddProject(ref add)) => {
            assert_eq!(add.path, "abc");
            assert_eq!(add.path_cursor, 2);
            assert_eq!(add.name, "xyz");
            assert_eq!(add.name_cursor, 2);
        }
        _ => panic!("expected add-project modal"),
    }
}

#[test]
fn filter_mode_edits_at_cursor() {
    let (mut state, mut store) = test_state();
    state.filter_mode = true;
    state.filter_input = "ac".to_string();
    state.filter_cursor = 1;

    press(&mut state, &mut store, ch('b'));
    press(&mut state, &mut store, key(KeyCode::Left));
    press(&mut state, &mut store, key(KeyCode::Delete));

    assert_eq!(state.filter_input, "ac");
    assert_eq!(state.filter_cursor, 1);
}

#[test]
fn global_quit_only_runs_in_normal_state() {
    let (mut state, mut store) = test_state();

    press(&mut state, &mut store, ch('Q'));

    assert!(state.should_quit());
}

#[test]
fn filter_mode_keeps_shift_q_and_global_shortcuts_local() {
    let (mut state, mut store) = test_state();
    state.filter_mode = true;

    press(&mut state, &mut store, KeyInput::shifted(KeyCode::Char('Q')));
    press(&mut state, &mut store, ch('f'));
    press(&mut state, &mut store, ch('g'));

    assert!(!state.should_quit());
    assert!(state.take_pending_external_command().is_none());
    assert_eq!(state.filter_input, "Qfg");
}

#[test]
fn help_overlay_blocks_global_quit_and_external_shortcuts() {
    let (mut state, mut store) = test_state();
    state.show_help = true;

    press(&mut state, &mut store, KeyInput::shifted(KeyCode::Char('Q')));
    press(&mut state, &mut store, ch('g'));

    assert!(!state.should_quit());
    assert!(state.take_pending_external_command().is_none());
    assert!(state.show_help);
}

#[test]
fn terminal_shortcut_queues_external_command() {
    let (mut state, mut store) = test_state();
    let selected_project = state.selected_project().expect("project").clone();

    press(&mut state, &mut store, ch('t'));

    assert_eq!(
        state.take_pending_external_command(),
        Some(ExternalCommand::OpenProjectTerminal {
            project_path: selected_project.path,
            project_name: selected_project.name,
        })
    );
}

#[test]
fn terminal_shortcut_is_ignored_while_filtering() {
    let (mut state, mut store) = test_state();
    state.filter_mode = true;

    press(&mut state, &mut store, ch('t'));

    assert!(state.take_pending_external_command().is_none());
    assert_eq!(state.filter_input, "t");
}

#[test]
fn terminal_shortcut_is_ignored_while_help_is_open() {
    let (mut state, mut store) = test_state();
    state.show_help = true;

    press(&mut state, &mut store, ch('t'));

    assert!(state.take_pending_external_command().is_none());
}

#[test]
fn terminal_shortcut_is_ignored_while_modal_is_open() {
    let (mut state, mut store) = test_state();
    state.modal = Some(empty_add_project_modal());

    press(&mut state, &mut store, ch('t'));

    assert!(state.take_pending_external_command().is_none());
    match state.modal {
        Some(Modal::AddProject(ref add)) => assert_eq!(add.path, "t"),
        _ => panic!("expected add-project modal"),
    }
}

#[test]
fn tick_auto_refreshes_after_external_db_change() {
    let mut store = Store::default();
    store.upsert("/tmp/alpha", Some("alpha"));
    let mut state = start(&mut store);
    assert_eq!(state.project_count(), 1);

    store.upsert("/tmp/beta", Some("beta"));
    let request = state.observe_db_version(store.version);
    drive(&mut state, &mut store, request);

    assert_eq!(state.project_count(), 2);
    assert_eq!(state.status, "Detected external database changes");
}

#[test]
fn todos_are_added_toggled_and_deleted_with_double_d() {
    let (mut state, mut store) = test_state();
    state.focus = FocusPane::Todos;

    press(&mut state, &mut store, ch('n'));
    for c in "write docs".chars() {
        press(&mut state, &mut store, ch(c));
    }
    press(&mut state, &mut store, key(KeyCode::Enter));
    assert_eq!(state.status, "Added todo");
    assert_eq!(state.todo_count(), 1);
    let id = state.todos[0].id;
    assert_eq!(state.project_active_todo_count(state.selected_project().unwrap().id), 1);

    press(&mut state, &mut store, ch(' '));
    assert_eq!(state.status, "Toggled todo");
    assert!(state.todos[0].done);
    assert_eq!(state.todos[0].id, id);

    press(&mut state, &mut store, ch('d'));
    assert_eq!(state.status, "Press d again to delete todo");
    assert_eq!(state.todo_count(), 1);
    press(&mut state, &mut store, ch('d'));
    assert_eq!(state.status, "Deleted todo");
    assert_eq!(state.todo_count(), 0);
}

#[test]
fn an_empty_todo_title_is_refused() {
    let (mut state, mut store) = test_state();
    state.focus = FocusPane::Todos;
    press(&mut state, &mut store, ch('n'));
    press(&mut state, &mut store, key(KeyCode::Enter));
    assert_eq!(state.status, "Action failed: todo title cannot be empty");
    assert!(state.modal.is_none());
    assert_eq!(state.todo_count(), 0);
}

#[test]
fn switching_to_markdown_reads_todo_md() {
    let (mut state, mut store) = test_state();
    store.file("/tmp/demo").extend(["# Plan".to_string(), "- [ ] Ship".to_string()]);
    press(&mut state, &mut store, ch('m'));
    assert_eq!(state.status, "Switched to TODO.md todo storage");
    assert_eq!(state.todo_count(), 1);
    assert_eq!(state.todos[0].id, 1);
    assert_eq!(state.todos[0].title, "Ship");

    state.focus = FocusPane::Todos;
    press(&mut state, &mut store, ch(' '));
    assert!(state.todos[0].done);
    assert_eq!(store.file("/tmp/demo")[1], "- [x] Ship");
}

#[test]
fn adding_a_project_selects_it() {
    let (mut state, mut store) = test_state();
    press(&mut state, &mut store, ch('a'));
    for c in "/tmp/zeta".chars() {
        press(&mut state, &mut store, ch(c));
    }
    press(&mut state, &mut store, key(KeyCode::Enter));
    assert_eq!(state.status, "Added project zeta");
    assert_eq!(state.project_count(), 2);
    assert_eq!(state.selected_project().unwrap().name, "zeta");
}

#[test]
fn renaming_a_project_updates_the_list() {
    let (mut state, mut store) = test_state();
    press(&mut state, &mut store, ch('r'));
    match state.modal {
        Some(Modal::Input(ref input)) => {
            assert_eq!(input.value, "demo");
            assert_eq!(input.cursor, 4);
        }
        _ => panic!("expected rename modal"),
    }
    press(&mut state, &mut store, ch('!'));
    press(&mut state, &mut store, key(KeyCode::Enter));
    assert_eq!(state.status, "Renamed project");
    assert_eq!(state.selected_project().unwrap().name, "demo!");
}

#[test]
fn keys_are_ignored_while_the_store_is_asked() {
    let (mut state, _store) = test_state();
    let request = state.handle_key_event(ch('f'));
    assert!(matches!(request, Some(Request::ListProjects { .. })));
    assert!(state.handle_key_event(ch('Q')).is_none());
    assert!(!state.should_quit());
}

#[test]
fn todo_reorder_via_page_and_shifted_arrow_keys() {
    let (mut state, mut store) = test_state();
    let project_id = state.selected_project().expect("project").id;
    store.create_todo(project_id, "one").expect("create first todo");
    store.create_todo(project_id, "two").expect("create second todo");
    store.create_todo(project_id, "three").expect("create third todo");
    press(&mut state, &mut store, ch('f'));

    state.focus = FocusPane::Todos;
    state.selected_todo = 0;
    press(&mut state, &mut store, key(KeyCode::PageDown));
    assert_eq!(state.todos[0].title, "two");
    assert_eq!(state.todos[1].title, "one");
    assert_eq!(state.selected_todo, 1);
    assert_eq!(state.status, "Reordered todo");

    press(&mut state, &mut store, KeyInput::shifted(KeyCode::Down));
    assert_eq!(state.todos[2].title, "one");
    assert_eq!(state.selected_todo, 2);

    press(&mut state, &mut store, KeyInput::shifted(KeyCode::Up));
    assert_eq!(state.todos[1].title, "one");
    assert_eq!(state.selected_todo, 1);

    press(&mut state, &mut store, key(KeyCode::PageUp));
    assert_eq!(state.todos[0].title, "one");
    assert_eq!(state.selected_todo, 0);

    // Plain arrows only move the selection.
    press(&mut state, &mut store, key(KeyCode::Down));
    assert_eq!(state.todos[0].title, "one");
    assert_eq!(state.selected_todo, 1);
}

#[test]
fn page_keys_do_nothing_outside_the_todos_pane() {
    let (mut state, mut store) = test_state();
    state.focus = FocusPane::Projects;
    let before = state.selected_project;
    press(&mut state, &mut store, key(KeyCode::PageDown));
    assert_eq!(state.selected_project, before);
    assert_eq!(state.focus, FocusPane::Projects);
}
