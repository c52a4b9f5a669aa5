//! The interactive application's state and what each key press, mouse event
//! and store reply does to it.
//!
//! The state never touches the database, the files or git itself. A key press
//! may start an operation that needs the store: it then returns a [`Request`].
//! The caller performs it and hands the outcome back through
//! [`AppState::resume`], which either asks for the next request or finishes
//! the operation. Work that only refreshes caches of git results is left as
//! [`Chore`]s for the caller to pick up.
use vstd::prelude::*;

use crate::app::input::{
    byte_len, clamp_cursor, clamp_spec, cursor_pos, delete_at_cursor, delete_before_cursor,
    insert_at_cursor, insert_spec, move_cursor_left, move_cursor_right, off,
};
use crate::db::repo::{MoveDirection, UpsertStatus};
use crate::domain::project::Project;
use crate::domain::todo::Todo;
use crate::text::{concat, owned, push_str, trim};

verus! {

/// The four panes of the main screen.
#[derive(Debug, Clone, Copy, PartialEq, Eq, Structural)]
pub enum FocusPane {
    Projects,
    Todos,
    Agents,
    GitHistory,
}

impl FocusPane {
    pub open spec fn next_spec(self) -> FocusPane {
        match self {
            FocusPane::Projects => FocusPane::Todos,
            FocusPane::Todos => FocusPane::Agents,
            FocusPane::Agents => FocusPane::GitHistory,
            FocusPane::GitHistory => FocusPane::Projects,
        }
    }

    pub open spec fn prev_spec(self) -> FocusPane {
        match self {
            FocusPane::Projects => FocusPane::GitHistory,
            FocusPane::Todos => FocusPane::Projects,
            FocusPane::Agents => FocusPane::Todos,
            FocusPane::GitHistory => FocusPane::Agents,
        }
    }

    /// The pane to the right, wrapping around.
    pub fn next(self) -> (r: FocusPane)
        ensures
            r == self.next_spec(),
    {
        match self {
            FocusPane::Projects => FocusPane::Todos,
            FocusPane::Todos => FocusPane::Agents,
            FocusPane::Agents => FocusPane::GitHistory,
            FocusPane::GitHistory => FocusPane::Projects,
        }
    }

    /// The pane to the left, wrapping around.
    pub fn prev(self) -> (r: FocusPane)
        ensures
            r == self.prev_spec(),
    {
        match self {
            FocusPane::Projects => FocusPane::GitHistory,
            FocusPane::Todos => FocusPane::Projects,
            FocusPane::Agents => FocusPane::Todos,
            FocusPane::GitHistory => FocusPane::Agents,
        }
    }
}

/// A rectangle of terminal cells.
#[derive(Debug, Clone, Copy, PartialEq, Eq, Structural)]
pub struct Rect {
    pub x: u16,
    pub y: u16,
    pub width: u16,
    pub height: u16,
}

impl Rect {
    pub fn new(x: u16, y: u16, width: u16, height: u16) -> (r: Rect)
        ensures
            r == (Rect { x, y, width, height }),
    {
        Rect { x, y, width, height }
    }
}

/// Where each pane was last drawn.
#[derive(Debug, Clone, Copy, PartialEq, Eq, Structural)]
pub struct PaneAreas {
    pub projects: Rect,
    pub todos: Rect,
    pub agents: Rect,
    pub git_history: Rect,
}

/// `a + b`, held at `u16::MAX`.
pub open spec fn sat_add(a: u16, b: u16) -> u16 {
    if a + b > u16::MAX {
        u16::MAX
    } else {
        (a + b) as u16
    }
}

/// `a - b`, held at zero.
pub open spec fn sat_sub(a: u16, b: u16) -> u16 {
    if a < b {
        0
    } else {
        (a - b) as u16
    }
}

pub open spec fn rect_contains_spec(rect: Rect, column: u16, row: u16) -> bool {
    &&& rect.x <= column < sat_add(rect.x, rect.width)
    &&& rect.y <= row < sat_add(rect.y, rect.height)
}

/// Whether the cell lies inside the rectangle (its far edges held at the screen's limit).
pub fn rect_contains(rect: Rect, column: u16, row: u16) -> (r: bool)
    ensures
        r == rect_contains_spec(rect, column, row),
{
    let max_x = rect.x.saturating_add(rect.width);
    let max_y = rect.y.saturating_add(rect.height);
    column >= rect.x && column < max_x && row >= rect.y && row < max_y
}

pub open spec fn pane_at_spec(areas: PaneAreas, column: u16, row: u16) -> Option<FocusPane> {
    if rect_contains_spec(areas.projects, column, row) {
        Some(FocusPane::Projects)
    } else if rect_contains_spec(areas.todos, column, row) {
        Some(FocusPane::Todos)
    } else if rect_contains_spec(areas.agents, column, row) {
        Some(FocusPane::Agents)
    } else if rect_contains_spec(areas.git_history, column, row) {
        Some(FocusPane::GitHistory)
    } else {
        None
    }
}

impl PaneAreas {
    /// The pane under the cell; the first in the order projects, todos,
    /// agents, git history where they overlap.
    pub fn pane_at(&self, column: u16, row: u16) -> (r: Option<FocusPane>)
        ensures
            r == pane_at_spec(*self, column, row),
    {
        if rect_contains(self.projects, column, row) {
            Some(FocusPane::Projects)
        } else if rect_contains(self.todos, column, row) {
            Some(FocusPane::Todos)
        } else if rect_contains(self.agents, column, row) {
            Some(FocusPane::Agents)
        } else if rect_contains(self.git_history, column, row) {
            Some(FocusPane::GitHistory)
        } else {
            None
        }
    }
}

pub open spec fn pane_list_index_spec(area: Rect, row: u16) -> Option<usize> {
    let start = sat_add(area.y, 1);
    let end = sat_add(area.y, sat_sub(area.height, 1));
    if area.height <= 2 || row < start || row >= end {
        None
    } else {
        Some((row - start) as usize)
    }
}

/// The list row under screen row `row` of a bordered pane: the rows between
/// the top and the bottom border count from zero.
pub fn pane_list_index(area: Rect, row: u16) -> (r: Option<usize>)
    ensures
        r == pane_list_index_spec(area, row),
{
    if area.height <= 2 {
        return None;
    }
    let list_start = area.y.saturating_add(1);
    let list_end = area.y.saturating_add(area.height.saturating_sub(1));
    if row < list_start || row >= list_end {
        return None;
    }
    Some(row.saturating_sub(list_start) as usize)
}

/// What a text field is for.
#[derive(Debug, Clone, Copy, PartialEq, Eq, Structural)]
pub enum InputPurpose {
    RenameProject(i64),
    AddTodo(i64),
    EditTodo(i64),
}

/// A dialog with one text field.
#[derive(Debug, Clone)]
pub struct SingleInputModal {
    pub title: String,
    pub prompt: String,
    pub value: String,
    pub cursor: usize,
    pub purpose: InputPurpose,
}

#[derive(Debug, Clone, Copy, PartialEq, Eq, Structural)]
pub enum AddProjectField {
    Path,
    Name,
}

/// The dialog that registers a project: a path and an optional name.
#[derive(Debug, Clone)]
pub struct AddProjectModal {
    pub path: String,
    pub name: String,
    pub path_cursor: usize,
    pub name_cursor: usize,
    pub active_field: AddProjectField,
}

#[derive(Debug, Clone, Copy, PartialEq, Eq, Structural)]
pub enum ConfirmAction {
    DeleteProject(i64),
    DeleteTodo(i64),
}

/// A yes/no question.
#[derive(Debug, Clone)]
pub struct ConfirmModal {
    pub title: String,
    pub message: String,
    pub action: ConfirmAction,
}

#[derive(Debug, Clone)]
pub enum Modal {
    Input(SingleInputModal),
    AddProject(AddProjectModal),
    Confirm(ConfirmModal),
}

/// A program to start outside the interface.
#[derive(Debug, Clone, PartialEq, Eq)]
pub enum ExternalCommand {
    OpenLazyGit { project_path: String },
    OpenProjectTerminal { project_path: String, project_name: String },
}

/// The key of a key press.
#[derive(Debug, Clone, Copy, PartialEq, Eq, Structural)]
pub enum KeyCode {
    Tab,
    BackTab,
    Enter,
    Esc,
    Backspace,
    Delete,
    Left,
    Right,
    Up,
    Down,
    Home,
    End,
    PageUp,
    PageDown,
    Char(char),
    /// Any key the interface has no use for.
    Other,
}

/// The modifier keys held during a key press.
#[derive(Debug, Clone, Copy, PartialEq, Eq, Structural)]
pub struct KeyModifiers {
    pub shift: bool,
    pub control: bool,
    pub alt: bool,
    /// Super, hyper or meta.
    pub other: bool,
}

/// A key press.
#[derive(Debug, Clone, Copy, PartialEq, Eq, Structural)]
pub struct KeyInput {
    pub code: KeyCode,
    pub modifiers: KeyModifiers,
}

impl KeyModifiers {
    pub open spec fn typing_spec(self) -> bool {
        !self.control && !self.alt && !self.other
    }

    /// No modifier, or Shift alone: the key types its character.
    pub fn typing(&self) -> (r: bool)
        ensures
            r == self.typing_spec(),
    {
        !self.control && !self.alt && !self.other
    }
}

impl KeyInput {
    /// A key pressed without modifiers.
    pub fn new(code: KeyCode) -> (r: KeyInput)
        ensures
            r.code == code,
            r.modifiers == (KeyModifiers { shift: false, control: false, alt: false, other: false }),
    {
        KeyInput {
            code,
            modifiers: KeyModifiers { shift: false, control: false, alt: false, other: false },
        }
    }

    /// A key pressed with Shift.
    pub fn shifted(code: KeyCode) -> (r: KeyInput)
        ensures
            r.code == code,
            r.modifiers == (KeyModifiers { shift: true, control: false, alt: false, other: false }),
    {
        KeyInput {
            code,
            modifiers: KeyModifiers { shift: true, control: false, alt: false, other: false },
        }
    }
}

#[derive(Debug, Clone, Copy, PartialEq, Eq, Structural)]
pub enum MouseKind {
    LeftDown,
    ScrollDown,
    ScrollUp,
    Other,
}

/// A mouse event at a cell.
#[derive(Debug, Clone, Copy, PartialEq, Eq, Structural)]
pub struct MouseInput {
    pub kind: MouseKind,
    pub column: u16,
    pub row: u16,
}



pub enum ModalView {
    Input { title: Seq<char>, prompt: Seq<char>, value: Seq<char>, cursor: usize, purpose: InputPurpose },
    AddProject {
        path: Seq<char>,
        name: Seq<char>,
        path_cursor: usize,
        name_cursor: usize,
        active_field: AddProjectField,
    },
    Confirm { title: Seq<char>, message: Seq<char>, action: ConfirmAction },
}

impl View for Modal {
    type V = ModalView;

    open spec fn view(&self) -> ModalView {
        match self {
            Modal::Input(m) => ModalView::Input {
                title: m.title@,
                prompt: m.prompt@,
                value: m.value@,
                cursor: m.cursor,
                purpose: m.purpose,
            },
            Modal::AddProject(m) => ModalView::AddProject {
                path: m.path@,
                name: m.name@,
                path_cursor: m.path_cursor,
                name_cursor: m.name_cursor,
                active_field: m.active_field,
            },
            Modal::Confirm(m) => ModalView::Confirm {
                title: m.title@,
                message: m.message@,
                action: m.action,
            },
        }
    }
}

pub enum ExternalCommandView {
    OpenLazyGit { project_path: Seq<char> },
    OpenProjectTerminal { project_path: Seq<char>, project_name: Seq<char> },
}

impl View for ExternalCommand {
    type V = ExternalCommandView;

    open spec fn view(&self) -> ExternalCommandView {
        match self {
            ExternalCommand::OpenLazyGit { project_path } => ExternalCommandView::OpenLazyGit {
                project_path: project_path@,
            },
            ExternalCommand::OpenProjectTerminal { project_path, project_name } =>
                ExternalCommandView::OpenProjectTerminal {
                project_path: project_path@,
                project_name: project_name@,
            },
        }
    }
}

/// Work on the store that the state needs done before it can go on.
#[derive(Debug, Clone, PartialEq, Eq)]
pub enum Request {
    /// The projects to show; `filter`, where given, is matched against names and paths.
    ListProjects { show_archived: bool, filter: Option<String> },
    /// Open todos per project: counted in the database for the first list,
    /// in each project's TODO.md for the second.
    CountActiveTodos { db_project_ids: Vec<i64>, markdown_projects: Vec<(i64, String)> },
    LoadDbTodos { project_id: i64 },
    LoadMarkdownTodos { project_path: String, project_id: i64 },
    SetTodoSource { project_id: i64, source: String },
    SetProjectArchived { project_id: i64, archived: bool },
    ToggleDbTodo { todo_id: i64 },
    ToggleMarkdownTodo { project_path: String, line: usize },
    DeleteDbTodo { todo_id: i64 },
    DeleteMarkdownTodo { project_path: String, line: usize },
    MoveDbTodo { todo_id: i64, direction: MoveDirection },
    MoveMarkdownTodo { project_path: String, line: usize, direction: MoveDirection },
    RenameProject { project_id: i64, name: String },
    CreateDbTodo { project_id: i64, title: String },
    CreateMarkdownTodo { project_path: String, title: String },
    UpdateDbTodoTitle { todo_id: i64, title: String },
    UpdateMarkdownTodoTitle { project_path: String, line: usize, title: String },
    /// Register the directory at `path` (resolved by the store), named `name` where given.
    AddProject { path: String, name: Option<String> },
    DeleteProject { project_id: i64 },
}

pub enum RequestView {
    ListProjects { show_archived: bool, filter: Option<Seq<char>> },
    CountActiveTodos { db_project_ids: Seq<i64>, markdown_projects: Seq<(i64, Seq<char>)> },
    LoadDbTodos { project_id: i64 },
    LoadMarkdownTodos { project_path: Seq<char>, project_id: i64 },
    SetTodoSource { project_id: i64, source: Seq<char> },
    SetProjectArchived { project_id: i64, archived: bool },
    ToggleDbTodo { todo_id: i64 },
    ToggleMarkdownTodo { project_path: Seq<char>, line: usize },
    DeleteDbTodo { todo_id: i64 },
    DeleteMarkdownTodo { project_path: Seq<char>, line: usize },
    MoveDbTodo { todo_id: i64, direction: MoveDirection },
    MoveMarkdownTodo { project_path: Seq<char>, line: usize, direction: MoveDirection },
    RenameProject { project_id: i64, name: Seq<char> },
    CreateDbTodo { project_id: i64, title: Seq<char> },
    CreateMarkdownTodo { project_path: Seq<char>, title: Seq<char> },
    UpdateDbTodoTitle { todo_id: i64, title: Seq<char> },
    UpdateMarkdownTodoTitle { project_path: Seq<char>, line: usize, title: Seq<char> },
    AddProject { path: Seq<char>, name: Option<Seq<char>> },
    DeleteProject { project_id: i64 },
}

pub open spec fn opt_str(o: Option<String>) -> Option<Seq<char>> {
    match o {
        Some(x) => Some(x@),
        None => None,
    }
}

pub open spec fn id_paths(v: Seq<(i64, String)>) -> Seq<(i64, Seq<char>)> {
    v.map_values(|e: (i64, String)| (e.0, e.1@))
}

impl View for Request {
    type V = RequestView;

    open spec fn view(&self) -> RequestView {
        match self {
            Request::ListProjects { show_archived, filter } => RequestView::ListProjects {
                show_archived: *show_archived,
                filter: opt_str(*filter),
            },
            Request::CountActiveTodos { db_project_ids, markdown_projects } =>
                RequestView::CountActiveTodos {
                db_project_ids: db_project_ids@,
                markdown_projects: id_paths(markdown_projects@),
            },
            Request::LoadDbTodos { project_id } => RequestView::LoadDbTodos {
                project_id: *project_id,
            },
            Request::LoadMarkdownTodos { project_path, project_id } =>
                RequestView::LoadMarkdownTodos { project_path: project_path@, project_id: *project_id },
            Request::SetTodoSource { project_id, source } => RequestView::SetTodoSource {
                project_id: *project_id,
                source: source@,
            },
            Request::SetProjectArchived { project_id, archived } =>
                RequestView::SetProjectArchived { project_id: *project_id, archived: *archived },
            Request::ToggleDbTodo { todo_id } => RequestView::ToggleDbTodo { todo_id: *todo_id },
            Request::ToggleMarkdownTodo { project_path, line } => RequestView::ToggleMarkdownTodo {
                project_path: project_path@,
                line: *line,
            },
            Request::DeleteDbTodo { todo_id } => RequestView::DeleteDbTodo { todo_id: *todo_id },
            Request::DeleteMarkdownTodo { project_path, line } => RequestView::DeleteMarkdownTodo {
                project_path: project_path@,
                line: *line,
            },
            Request::MoveDbTodo { todo_id, direction } => RequestView::MoveDbTodo {
                todo_id: *todo_id,
                direction: *direction,
            },
            Request::MoveMarkdownTodo { project_path, line, direction } =>
                RequestView::MoveMarkdownTodo {
                project_path: project_path@,
                line: *line,
                direction: *direction,
            },
            Request::RenameProject { project_id, name } => RequestView::RenameProject {
                project_id: *project_id,
                name: name@,
            },
            Request::CreateDbTodo { project_id, title } => RequestView::CreateDbTodo {
                project_id: *project_id,
                title: title@,
            },
            Request::CreateMarkdownTodo { project_path, title } => RequestView::CreateMarkdownTodo {
                project_path: project_path@,
                title: title@,
            },
            Request::UpdateDbTodoTitle { todo_id, title } => RequestView::UpdateDbTodoTitle {
                todo_id: *todo_id,
                title: title@,
            },
            Request::UpdateMarkdownTodoTitle { project_path, line, title } =>
                RequestView::UpdateMarkdownTodoTitle {
                project_path: project_path@,
                line: *line,
                title: title@,
            },
            Request::AddProject { path, name } => RequestView::AddProject {
                path: path@,
                name: opt_str(*name),
            },
            Request::DeleteProject { project_id } => RequestView::DeleteProject {
                project_id: *project_id,
            },
        }
    }
}

/// How the store answered a [`Request`].
#[derive(Debug, Clone)]
pub enum Reply {
    Done,
    Failed(String),
    Projects(Vec<Project>),
    Counts(Vec<(i64, usize)>),
    Todos(Vec<Todo>),
    Moved(bool),
    CreatedTodo(i64),
    Upserted(UpsertStatus, Project),
}

pub enum ReplyView {
    Done,
    Failed(Seq<char>),
    Projects(Seq<Project>),
    Counts(Seq<(i64, usize)>),
    Todos(Seq<Todo>),
    Moved(bool),
    CreatedTodo(i64),
    Upserted(UpsertStatus, Project),
}

impl View for Reply {
    type V = ReplyView;

    open spec fn view(&self) -> ReplyView {
        match self {
            Reply::Done => ReplyView::Done,
            Reply::Failed(e) => ReplyView::Failed(e@),
            Reply::Projects(ps) => ReplyView::Projects(ps@),
            Reply::Counts(cs) => ReplyView::Counts(cs@),
            Reply::Todos(ts) => ReplyView::Todos(ts@),
            Reply::Moved(b) => ReplyView::Moved(*b),
            Reply::CreatedTodo(id) => ReplyView::CreatedTodo(*id),
            Reply::Upserted(st, p) => ReplyView::Upserted(*st, *p),
        }
    }
}

/// Cache upkeep for the caller: nothing the state reads depends on it.
#[derive(Debug, Clone, PartialEq, Eq)]
pub enum Chore {
    RefreshGitHistory { project_path: String, force: bool },
    RefreshGitRelease { project_path: String, force: bool },
    /// Probe status and release of the project now and reload its history.
    RefreshGitTracking { project_path: String },
    StartGitRefresh,
    StopGitRefresh,
    SyncDbVersion,
    ClearCaches,
    MarkRefreshed,
}

pub enum ChoreView {
    RefreshGitHistory { project_path: Seq<char>, force: bool },
    RefreshGitRelease { project_path: Seq<char>, force: bool },
    RefreshGitTracking { project_path: Seq<char> },
    StartGitRefresh,
    StopGitRefresh,
    SyncDbVersion,
    ClearCaches,
    MarkRefreshed,
}

impl View for Chore {
    type V = ChoreView;

    open spec fn view(&self) -> ChoreView {
        match self {
            Chore::RefreshGitHistory { project_path, force } => ChoreView::RefreshGitHistory {
                project_path: project_path@,
                force: *force,
            },
            Chore::RefreshGitRelease { project_path, force } => ChoreView::RefreshGitRelease {
                project_path: project_path@,
                force: *force,
            },
            Chore::RefreshGitTracking { project_path } => ChoreView::RefreshGitTracking {
                project_path: project_path@,
            },
            Chore::StartGitRefresh => ChoreView::StartGitRefresh,
            Chore::StopGitRefresh => ChoreView::StopGitRefresh,
            Chore::SyncDbVersion => ChoreView::SyncDbVersion,
            Chore::ClearCaches => ChoreView::ClearCaches,
            Chore::MarkRefreshed => ChoreView::MarkRefreshed,
        }
    }
}

/// The operation under way; it decides what is shown when it ends.
#[derive(Debug, Clone)]
pub enum Flow {
    Startup,
    ShowArchived,
    Archive { name: String, archived: bool },
    SwitchSource { markdown: bool },
    ToggleTodo { todo_id: i64 },
    DeleteTodo,
    MoveTodo { markdown: bool, todo_id: i64, index: usize, direction: MoveDirection },
    Fetch,
    Filter,
    Navigate { release: bool },
    Rename,
    AddTodo { markdown: bool },
    AddedTodo { todo_id: i64 },
    EditTodo { todo_id: i64 },
    AddProject,
    AddedProject { status: UpsertStatus, project_id: i64, name: String },
    SelectedAdded { status: UpsertStatus, name: String },
    DeleteProject,
    ConfirmDeleteTodo,
    ExternalChange,
}

pub enum FlowView {
    Startup,
    ShowArchived,
    Archive { name: Seq<char>, archived: bool },
    SwitchSource { markdown: bool },
    ToggleTodo { todo_id: i64 },
    DeleteTodo,
    MoveTodo { markdown: bool, todo_id: i64, index: usize, direction: MoveDirection },
    Fetch,
    Filter,
    Navigate { release: bool },
    Rename,
    AddTodo { markdown: bool },
    AddedTodo { todo_id: i64 },
    EditTodo { todo_id: i64 },
    AddProject,
    AddedProject { status: UpsertStatus, project_id: i64, name: Seq<char> },
    SelectedAdded { status: UpsertStatus, name: Seq<char> },
    DeleteProject,
    ConfirmDeleteTodo,
    ExternalChange,
}

impl View for Flow {
    type V = FlowView;

    open spec fn view(&self) -> FlowView {
        match self {
            Flow::Startup => FlowView::Startup,
            Flow::ShowArchived => FlowView::ShowArchived,
            Flow::Archive { name, archived } => FlowView::Archive {
                name: name@,
                archived: *archived,
            },
            Flow::SwitchSource { markdown } => FlowView::SwitchSource { markdown: *markdown },
            Flow::ToggleTodo { todo_id } => FlowView::ToggleTodo { todo_id: *todo_id },
            Flow::DeleteTodo => FlowView::DeleteTodo,
            Flow::MoveTodo { markdown, todo_id, index, direction } => FlowView::MoveTodo {
                markdown: *markdown,
                todo_id: *todo_id,
                index: *index,
                direction: *direction,
            },
            Flow::Fetch => FlowView::Fetch,
            Flow::Filter => FlowView::Filter,
            Flow::Navigate { release } => FlowView::Navigate { release: *release },
            Flow::Rename => FlowView::Rename,
            Flow::AddTodo { markdown } => FlowView::AddTodo { markdown: *markdown },
            Flow::AddedTodo { todo_id } => FlowView::AddedTodo { todo_id: *todo_id },
            Flow::EditTodo { todo_id } => FlowView::EditTodo { todo_id: *todo_id },
            Flow::AddProject => FlowView::AddProject,
            Flow::AddedProject { status, project_id, name } => FlowView::AddedProject {
                status: *status,
                project_id: *project_id,
                name: name@,
            },
            Flow::SelectedAdded { status, name } => FlowView::SelectedAdded {
                status: *status,
                name: name@,
            },
            Flow::DeleteProject => FlowView::DeleteProject,
            Flow::ConfirmDeleteTodo => FlowView::ConfirmDeleteTodo,
            Flow::ExternalChange => FlowView::ExternalChange,
        }
    }
}

/// Which reply the operation under way waits for.
#[derive(Debug, Clone, Copy, PartialEq, Eq, Structural)]
pub enum Stage {
    /// The outcome of a change to the store.
    Mutation,
    /// The project list of a reload.
    Projects { refresh_git: bool, previous_id: Option<i64> },
    /// The open-todo counts of a reload.
    Counts { refresh_git: bool, previous_id: Option<i64> },
    /// The todos of the selected project; `reload` is set inside a reload.
    Todos { reload: Option<bool> },
}

/// Everything the interface shows and remembers between events.
#[derive(Debug)]
pub struct AppState {
    pub projects: Vec<Project>,
    pub selected_project: usize,
    pub todos: Vec<Todo>,
    pub selected_todo: usize,
    pub focus: FocusPane,
    pub show_archived: bool,
    pub filter_mode: bool,
    pub filter_input: String,
    pub filter_cursor: usize,
    pub show_help: bool,
    pub help_scroll: u16,
    pub status: String,
    pub modal: Option<Modal>,
    pub agents_scroll: u16,
    pub git_history_scroll: u16,
    /// Open todos per project id.
    pub active_todo_counts: Vec<(i64, usize)>,
    pub pending_external_command: Option<ExternalCommand>,
    pub pending_todo_delete: bool,
    pub quit: bool,
    pub last_external_db_version: Option<i64>,
    /// Why the first load failed, if it did.
    pub load_error: Option<String>,
    /// The operation waiting for the store.
    pub pending: Option<(Flow, Stage)>,
    pub chores: Vec<Chore>,
}

pub struct AppView {
    pub projects: Seq<Project>,
    pub selected_project: usize,
    pub todos: Seq<Todo>,
    pub selected_todo: usize,
    pub focus: FocusPane,
    pub show_archived: bool,
    pub filter_mode: bool,
    pub filter_input: Seq<char>,
    pub filter_cursor: usize,
    pub show_help: bool,
    pub help_scroll: u16,
    pub status: Seq<char>,
    pub modal: Option<ModalView>,
    pub agents_scroll: u16,
    pub git_history_scroll: u16,
    pub active_todo_counts: Seq<(i64, usize)>,
    pub pending_external_command: Option<ExternalCommandView>,
    pub pending_todo_delete: bool,
    pub quit: bool,
    pub last_external_db_version: Option<i64>,
    pub load_error: Option<Seq<char>>,
    pub pending: Option<(FlowView, Stage)>,
    pub chores: Seq<ChoreView>,
}

pub open spec fn modal_view(m: Option<Modal>) -> Option<ModalView> {
    match m {
        Some(x) => Some(x@),
        None => None,
    }
}

pub open spec fn command_view(c: Option<ExternalCommand>) -> Option<ExternalCommandView> {
    match c {
        Some(x) => Some(x@),
        None => None,
    }
}

pub open spec fn request_view(r: Option<Request>) -> Option<RequestView> {
    match r {
        Some(x) => Some(x@),
        None => None,
    }
}

pub open spec fn pending_view(p: Option<(Flow, Stage)>) -> Option<(FlowView, Stage)> {
    match p {
        Some(x) => Some((x.0@, x.1)),
        None => None,
    }
}

pub open spec fn chore_views(v: Seq<Chore>) -> Seq<ChoreView> {
    v.map_values(|c: Chore| c@)
}

impl View for AppState {
    type V = AppView;

    open spec fn view(&self) -> AppView {
        AppView {
            projects: self.projects@,
            selected_project: self.selected_project,
            todos: self.todos@,
            selected_todo: self.selected_todo,
            focus: self.focus,
            show_archived: self.show_archived,
            filter_mode: self.filter_mode,
            filter_input: self.filter_input@,
            filter_cursor: self.filter_cursor,
            show_help: self.show_help,
            help_scroll: self.help_scroll,
            status: self.status@,
            modal: modal_view(self.modal),
            agents_scroll: self.agents_scroll,
            git_history_scroll: self.git_history_scroll,
            active_todo_counts: self.active_todo_counts@,
            pending_external_command: command_view(self.pending_external_command),
            pending_todo_delete: self.pending_todo_delete,
            quit: self.quit,
            last_external_db_version: self.last_external_db_version,
            load_error: opt_str(self.load_error),
            pending: pending_view(self.pending),
            chores: chore_views(self.chores@),
        }
    }
}

pub open spec fn is_markdown_spec(p: Project) -> bool {
    p.todo_source@ == "markdown"@
}

/// Whether the project keeps its todos in its TODO.md.
pub fn is_markdown(p: &Project) -> (r: bool)
    ensures
        r == is_markdown_spec(*p),
{
    crate::text::str_eq(p.todo_source.as_str(), "markdown")
}

pub open spec fn open_todo_count(todos: Seq<Todo>) -> nat
    decreases todos.len(),
{
    if todos.len() == 0 {
        0
    } else {
        open_todo_count(todos.drop_last()) + if todos.last().done {
            0nat
        } else {
            1nat
        }
    }
}

/// The first entry for `id`.
pub open spec fn count_index(counts: Seq<(i64, usize)>, id: i64, k: int) -> int
    decreases counts.len() - k,
{
    if k < 0 || k >= counts.len() {
        counts.len() as int
    } else if counts[k].0 == id {
        k
    } else {
        count_index(counts, id, k + 1)
    }
}

pub open spec fn count_of(counts: Seq<(i64, usize)>, id: i64) -> usize {
    let k = count_index(counts, id, 0);
    if k < counts.len() {
        counts[k].1
    } else {
        0
    }
}

/// `counts` with the entry for `id` set to `n`.
pub open spec fn set_count_spec(counts: Seq<(i64, usize)>, id: i64, n: usize) -> Seq<(i64, usize)> {
    let k = count_index(counts, id, 0);
    if k < counts.len() {
        counts.update(k, (id, n))
    } else {
        counts.push((id, n))
    }
}

pub proof fn lemma_count_index_bounds(counts: Seq<(i64, usize)>, id: i64, k: int)
    requires
        0 <= k <= counts.len(),
    ensures
        k <= count_index(counts, id, k) <= counts.len(),
        count_index(counts, id, k) < counts.len() ==> counts[count_index(counts, id, k)].0 == id,
        forall|j: int| k <= j < count_index(counts, id, k) ==> counts[j].0 != id,
    decreases counts.len() - k,
{
    if k < counts.len() && counts[k].0 != id {
        lemma_count_index_bounds(counts, id, k + 1);
    }
}

fn find_count(counts: &Vec<(i64, usize)>, id: i64) -> (r: usize)
    ensures
        r == count_index(counts@, id, 0),
{
    let mut k: usize = 0;
    while k < counts.len()
        invariant
            k <= counts@.len(),
            count_index(counts@, id, 0) == count_index(counts@, id, k as int),
        decreases counts@.len() - k,
    {
        if counts[k].0 == id {
            return k;
        }
        k = k + 1;
    }
    k
}

fn set_count(counts: &mut Vec<(i64, usize)>, id: i64, n: usize)
    ensures
        final(counts)@ == set_count_spec(old(counts)@, id, n),
{
    let k = find_count(counts, id);
    if k < counts.len() {
        counts.set(k, (id, n));
    } else {
        counts.push((id, n));
    }
}

fn count_open(todos: &Vec<Todo>) -> (n: usize)
    ensures
        n == open_todo_count(todos@),
{
    let mut n: usize = 0;
    let mut k: usize = 0;
    while k < todos.len()
        invariant
            k <= todos@.len(),
            n == open_todo_count(todos@.take(k as int)),
            n <= k,
        decreases todos@.len() - k,
    {
        proof {
            assert(todos@.take(k as int + 1).drop_last() =~= todos@.take(k as int));
        }
        if !todos[k].done {
            n = n + 1;
        }
        k = k + 1;
    }
    proof {
        assert(todos@.take(k as int) =~= todos@);
    }
    n
}

/// The first project with `id`.
pub open spec fn project_index(ps: Seq<Project>, id: i64, k: int) -> int
    decreases ps.len() - k,
{
    if k < 0 || k >= ps.len() {
        ps.len() as int
    } else if ps[k].id == id {
        k
    } else {
        project_index(ps, id, k + 1)
    }
}

/// The first todo with `id`.
pub open spec fn todo_index(ts: Seq<Todo>, id: i64, k: int) -> int
    decreases ts.len() - k,
{
    if k < 0 || k >= ts.len() {
        ts.len() as int
    } else if ts[k].id == id {
        k
    } else {
        todo_index(ts, id, k + 1)
    }
}

proof fn lemma_project_index_bounds(ps: Seq<Project>, id: i64, k: int)
    requires
        0 <= k <= ps.len(),
    ensures
        k <= project_index(ps, id, k) <= ps.len(),
    decreases ps.len() - k,
{
    if k < ps.len() && ps[k].id != id {
        lemma_project_index_bounds(ps, id, k + 1);
    }
}

proof fn lemma_todo_index_bounds(ts: Seq<Todo>, id: i64, k: int)
    requires
        0 <= k <= ts.len(),
    ensures
        k <= todo_index(ts, id, k) <= ts.len(),
    decreases ts.len() - k,
{
    if k < ts.len() && ts[k].id != id {
        lemma_todo_index_bounds(ts, id, k + 1);
    }
}

fn find_project(ps: &Vec<Project>, id: i64) -> (r: usize)
    ensures
        r == project_index(ps@, id, 0),
{
    let mut k: usize = 0;
    while k < ps.len()
        invariant
            k <= ps@.len(),
            project_index(ps@, id, 0) == project_index(ps@, id, k as int),
        decreases ps@.len() - k,
    {
        if ps[k].id == id {
            return k;
        }
        k = k + 1;
    }
    k
}

fn find_todo(ts: &Vec<Todo>, id: i64) -> (r: usize)
    ensures
        r == todo_index(ts@, id, 0),
{
    let mut k: usize = 0;
    while k < ts.len()
        invariant
            k <= ts@.len(),
            todo_index(ts@, id, 0) == todo_index(ts@, id, k as int),
        decreases ts@.len() - k,
    {
        if ts[k].id == id {
            return k;
        }
        k = k + 1;
    }
    k
}

pub open spec fn has_selected(s: AppView) -> bool {
    s.selected_project < s.projects.len()
}

pub open spec fn sel(s: AppView) -> Project {
    s.projects[s.selected_project as int]
}

pub open spec fn has_selected_todo(s: AppView) -> bool {
    s.selected_todo < s.todos.len()
}

pub open spec fn sel_todo(s: AppView) -> Todo {
    s.todos[s.selected_todo as int]
}

pub open spec fn selected_id(s: AppView) -> Option<i64> {
    if has_selected(s) {
        Some(sel(s).id)
    } else {
        None
    }
}

pub open spec fn selected_markdown(s: AppView) -> bool {
    has_selected(s) && is_markdown_spec(sel(s))
}

/// The path of the selected project, empty where none is selected.
pub open spec fn selected_path(s: AppView) -> Seq<char> {
    if has_selected(s) {
        sel(s).path@
    } else {
        Seq::empty()
    }
}

pub open spec fn with_status(s: AppView, m: Seq<char>) -> AppView {
    AppView { status: m, ..s }
}

pub open spec fn add_chores(s: AppView, cs: Seq<ChoreView>) -> AppView {
    AppView { chores: s.chores + cs, ..s }
}


pub open spec fn filter_arg(input: Seq<char>) -> Option<Seq<char>> {
    if trim(input).len() > 0 {
        Some(input)
    } else {
        None
    }
}

pub open spec fn reload_request(s: AppView) -> RequestView {
    RequestView::ListProjects { show_archived: s.show_archived, filter: filter_arg(s.filter_input) }
}

/// A reload of the project list begins: the selected project's id is kept to
/// find it again.
pub open spec fn start_reload_spec(s: AppView, flow: FlowView, refresh_git: bool) -> (
    AppView,
    Option<RequestView>,
) {
    (
        AppView {
            pending: Some(
                (flow, Stage::Projects { refresh_git, previous_id: selected_id(s) }),
            ),
            ..s
        },
        Some(reload_request(s)),
    )
}

pub open spec fn load_request(p: Project) -> RequestView {
    if is_markdown_spec(p) {
        RequestView::LoadMarkdownTodos { project_path: p.path@, project_id: p.id }
    } else {
        RequestView::LoadDbTodos { project_id: p.id }
    }
}

/// The todos of the selected project are asked for.
pub open spec fn begin_load_spec(s: AppView, flow: FlowView, reload: Option<bool>) -> (
    AppView,
    Option<RequestView>,
) {
    (
        AppView { pending_todo_delete: false, pending: Some((flow, Stage::Todos { reload })), ..s },
        Some(load_request(sel(s))),
    )
}

/// No project is selected: no todos.
pub open spec fn cleared(s: AppView) -> AppView {
    AppView { pending_todo_delete: false, todos: Seq::empty(), selected_todo: 0, ..s }
}

/// The loaded todos replace the shown ones; the selection stays where it
/// was, moved onto the last todo where the list got shorter.
pub open spec fn applied(s: AppView, ts: Seq<Todo>) -> AppView {
    AppView {
        todos: ts,
        selected_todo: if ts.len() == 0 {
            0
        } else if s.selected_todo < ts.len() {
            s.selected_todo
        } else {
            (ts.len() - 1) as usize
        },
        active_todo_counts: if has_selected(s) {
            set_count_spec(s.active_todo_counts, sel(s).id, open_todo_count(ts) as usize)
        } else {
            s.active_todo_counts
        },
        ..s
    }
}

/// The end of a reload: git refreshed where asked, scroll positions reset.
pub open spec fn reload_tail(s: AppView, reload: Option<bool>) -> AppView {
    match reload {
        None => s,
        Some(refresh_git) => {
            let git = if refresh_git {
                (if has_selected(s) {
                    seq![
                        ChoreView::RefreshGitHistory { project_path: sel(s).path@, force: true },
                        ChoreView::RefreshGitRelease { project_path: sel(s).path@, force: true },
                    ]
                } else {
                    Seq::empty()
                }) + seq![ChoreView::StartGitRefresh]
            } else {
                Seq::empty()
            };
            AppView {
                agents_scroll: 0,
                git_history_scroll: 0,
                chores: s.chores + git + seq![ChoreView::SyncDbVersion],
                ..s
            }
        },
    }
}

/// Where the selection lands after a reload: on the project selected before
/// if it is still listed, else on the first; with nothing selected before,
/// the old position held within the list.
pub open spec fn reselect(s: AppView, previous_id: Option<i64>) -> usize {
    match previous_id {
        Some(id) => {
            let k = project_index(s.projects, id, 0);
            if k < s.projects.len() {
                k as usize
            } else {
                0
            }
        },
        None => if s.selected_project < s.projects.len() {
            s.selected_project
        } else {
            (s.projects.len() - 1) as usize
        },
    }
}

pub open spec fn preserve_index(s: AppView, todo_id: i64) -> usize {
    let k = todo_index(s.todos, todo_id, 0);
    if k < s.todos.len() {
        k as usize
    } else {
        s.selected_todo
    }
}

pub open spec fn moved_index(index: usize, direction: MoveDirection, len: nat) -> usize {
    match direction {
        MoveDirection::Up => if index == 0 {
            0
        } else {
            (index - 1) as usize
        },
        MoveDirection::Down => {
            let last: int = if len == 0 {
                0
            } else {
                len - 1
            };
            if index < last {
                (index + 1) as usize
            } else {
                last as usize
            }
        },
    }
}

pub open spec fn status_or(s: AppView, res: Result<(), Seq<char>>, ok: Seq<char>, err: Seq<char>) -> AppView {
    match res {
        Ok(_) => with_status(s, ok),
        Err(e) => with_status(s, err + e),
    }
}

pub open spec fn preserve_or(
    s: AppView,
    res: Result<(), Seq<char>>,
    todo_id: i64,
    ok: Seq<char>,
    err: Seq<char>,
) -> AppView {
    match res {
        Ok(_) => with_status(AppView { selected_todo: preserve_index(s, todo_id), ..s }, ok),
        Err(e) => with_status(s, err + e),
    }
}

pub open spec fn upsert_message(status: UpsertStatus, name: Seq<char>) -> Seq<char> {
    match status {
        UpsertStatus::Added => "Added project "@ + name,
        UpsertStatus::Updated => "Updated project "@ + name,
        UpsertStatus::Existing => "Project already exists: "@ + name,
    }
}

/// The end of adding a project: its git state is refreshed and the store's
/// answer shown.
pub open spec fn finish_added_spec(s: AppView, status: UpsertStatus, name: Seq<char>) -> AppView {
    let git = if has_selected(s) {
        seq![
            ChoreView::RefreshGitHistory { project_path: sel(s).path@, force: true },
            ChoreView::RefreshGitRelease { project_path: sel(s).path@, force: true },
        ]
    } else {
        Seq::empty()
    };
    with_status(
        AppView { git_history_scroll: 0, chores: s.chores + git, ..s },
        upsert_message(status, name),
    )
}

/// What an operation does once its reload or load has ended, well or not.
pub open spec fn complete_spec(s: AppView, flow: FlowView, res: Result<(), Seq<char>>) -> (
    AppView,
    Option<RequestView>,
) {
    match flow {
        FlowView::Startup => (
            match res {
                Ok(_) => add_chores(s, seq![ChoreView::StartGitRefresh, ChoreView::SyncDbVersion]),
                Err(e) => AppView { load_error: Some(e), ..s },
            },
            None,
        ),
        FlowView::ShowArchived => (
            status_or(
                s,
                res,
                if s.show_archived {
                    "Showing archived projects"@
                } else {
                    "Hiding archived projects"@
                },
                "Failed to toggle archived view: "@,
            ),
            None,
        ),
        FlowView::Archive { name, archived } => (
            status_or(
                s,
                res,
                (if archived {
                    "Archived "@
                } else {
                    "Unarchived "@
                }) + name,
                "Failed to archive project: "@,
            ),
            None,
        ),
        FlowView::SwitchSource { markdown } => (
            status_or(
                s,
                res,
                if markdown {
                    "Switched to TODO.md todo storage"@
                } else {
                    "Switched to database todo storage"@
                },
                "Toggled todo storage but reload failed: "@,
            ),
            None,
        ),
        FlowView::ToggleTodo { todo_id } => (
            preserve_or(s, res, todo_id, "Toggled todo"@, "Failed to refresh todos: "@),
            None,
        ),
        FlowView::DeleteTodo => (
            status_or(s, res, "Deleted todo"@, "Deleted todo but refresh failed: "@),
            None,
        ),
        FlowView::MoveTodo { markdown, todo_id, index, direction } => (
            match res {
                Ok(_) => with_status(
                    AppView {
                        selected_todo: if markdown {
                            moved_index(index, direction, s.todos.len())
                        } else {
                            preserve_index(s, todo_id)
                        },
                        ..s
                    },
                    "Reordered todo"@,
                ),
                Err(e) => with_status(s, "Moved todo but failed to refresh: "@ + e),
            },
            None,
        ),
        FlowView::Fetch => (
            match res {
                Ok(_) => with_status(
                    add_chores(s, seq![ChoreView::MarkRefreshed, ChoreView::SyncDbVersion]),
                    "Fetched latest database and git state"@,
                ),
                Err(e) => with_status(s, "Fetch failed: "@ + e),
            },
            None,
        ),
        FlowView::Filter => (
            match res {
                Ok(_) => s,
                Err(e) => with_status(s, "Failed to apply filter: "@ + e),
            },
            None,
        ),
        FlowView::Navigate { release } => {
            let s1 = match res {
                Ok(_) => s,
                Err(e) => with_status(s, "Failed to load todos: "@ + e),
            };
            let git = if has_selected(s1) {
                seq![ChoreView::RefreshGitHistory { project_path: sel(s1).path@, force: false }]
                    + if release {
                    seq![ChoreView::RefreshGitRelease { project_path: sel(s1).path@, force: false }]
                } else {
                    Seq::empty()
                }
            } else {
                Seq::empty()
            };
            (AppView { agents_scroll: 0, git_history_scroll: 0, chores: s1.chores + git, ..s1 }, None)
        },
        FlowView::Rename => (status_or(s, res, "Renamed project"@, "Action failed: "@), None),
        FlowView::AddTodo { markdown } => (
            match res {
                Ok(_) => with_status(
                    AppView {
                        selected_todo: if s.todos.len() > 0 {
                            (s.todos.len() - 1) as usize
                        } else {
                            s.selected_todo
                        },
                        ..s
                    },
                    "Added todo"@,
                ),
                Err(e) => with_status(s, "Action failed: "@ + e),
            },
            None,
        ),
        FlowView::AddedTodo { todo_id } => (
            preserve_or(s, res, todo_id, "Added todo"@, "Action failed: "@),
            None,
        ),
        FlowView::EditTodo { todo_id } => (
            preserve_or(s, res, todo_id, "Updated todo"@, "Action failed: "@),
            None,
        ),
        FlowView::AddProject => (s, None),
        FlowView::AddedProject { status, project_id, name } => match res {
            Err(e) => (with_status(s, "Action failed: "@ + e), None),
            Ok(_) => {
                let k = project_index(s.projects, project_id, 0);
                let s1 = if k < s.projects.len() {
                    AppView { selected_project: k as usize, ..s }
                } else {
                    s
                };
                if has_selected(s1) {
                    begin_load_spec(s1, FlowView::SelectedAdded { status, name }, None)
                } else {
                    (finish_added_spec(cleared(s1), status, name), None)
                }
            },
        },
        FlowView::SelectedAdded { status, name } => (finish_added_spec(s, status, name), None),
        FlowView::DeleteProject => (status_or(s, res, "Deleted project"@, "Action failed: "@), None),
        FlowView::ConfirmDeleteTodo => (
            status_or(s, res, "Deleted todo"@, "Action failed: "@),
            None,
        ),
        FlowView::ExternalChange => (
            status_or(
                s,
                res,
                "Detected external database changes"@,
                "Failed to refresh changed database: "@,
            ),
            None,
        ),
    }
}

pub open spec fn reply_err(r: ReplyView) -> Seq<char> {
    match r {
        ReplyView::Failed(e) => e,
        _ => "unexpected reply from the store"@,
    }
}

pub open spec fn load_or_complete_spec(s: AppView, flow: FlowView) -> (AppView, Option<RequestView>) {
    if has_selected(s) {
        begin_load_spec(s, flow, None)
    } else {
        complete_spec(cleared(s), flow, Ok(()))
    }
}

pub open spec fn fail_with(s: AppView, prefix: Seq<char>, r: ReplyView) -> (AppView, Option<RequestView>) {
    (with_status(s, prefix + reply_err(r)), None)
}

/// What an operation does with the store's answer to its change.
pub open spec fn after_mutation_spec(s: AppView, flow: FlowView, reply: ReplyView) -> (
    AppView,
    Option<RequestView>,
) {
    let done = reply is Done;
    match flow {
        FlowView::Archive { .. } => if done {
            start_reload_spec(s, flow, true)
        } else {
            fail_with(s, "Failed to archive project: "@, reply)
        },
        FlowView::SwitchSource { .. } => if done {
            start_reload_spec(s, flow, true)
        } else {
            fail_with(s, "Failed to toggle todo storage: "@, reply)
        },
        FlowView::ToggleTodo { .. } => if done {
            load_or_complete_spec(s, flow)
        } else {
            fail_with(s, "Failed to toggle todo: "@, reply)
        },
        FlowView::DeleteTodo => if done {
            load_or_complete_spec(s, flow)
        } else {
            fail_with(s, "Failed to delete todo: "@, reply)
        },
        FlowView::MoveTodo { .. } => match reply {
            ReplyView::Moved(true) => load_or_complete_spec(s, flow),
            ReplyView::Moved(false) => (with_status(s, "Todo already at boundary"@), None),
            _ => fail_with(s, "Failed to reorder todo: "@, reply),
        },
        FlowView::Rename => if done {
            start_reload_spec(s, flow, true)
        } else {
            fail_with(s, "Action failed: "@, reply)
        },
        FlowView::AddTodo { markdown } => if markdown {
            if done {
                load_or_complete_spec(s, flow)
            } else {
                fail_with(s, "Action failed: "@, reply)
            }
        } else {
            match reply {
                ReplyView::CreatedTodo(id) => load_or_complete_spec(
                    s,
                    FlowView::AddedTodo { todo_id: id },
                ),
                _ => fail_with(s, "Action failed: "@, reply),
            }
        },
        FlowView::EditTodo { .. } => if done {
            load_or_complete_spec(s, flow)
        } else {
            fail_with(s, "Action failed: "@, reply)
        },
        FlowView::AddProject => match reply {
            ReplyView::Upserted(status, p) => start_reload_spec(
                s,
                FlowView::AddedProject { status, project_id: p.id, name: p.name@ },
                true,
            ),
            _ => fail_with(s, "Action failed: "@, reply),
        },
        FlowView::DeleteProject => if done {
            start_reload_spec(s, flow, true)
        } else {
            fail_with(s, "Action failed: "@, reply)
        },
        FlowView::ConfirmDeleteTodo => if done {
            load_or_complete_spec(s, flow)
        } else {
            fail_with(s, "Action failed: "@, reply)
        },
        _ => (s, None),
    }
}

/// Ids of the projects that keep their todos in the database, in order.
pub open spec fn db_ids(ps: Seq<Project>) -> Seq<i64>
    decreases ps.len(),
{
    if ps.len() == 0 {
        Seq::empty()
    } else if is_markdown_spec(ps.last()) {
        db_ids(ps.drop_last())
    } else {
        db_ids(ps.drop_last()).push(ps.last().id)
    }
}

/// Ids and paths of the projects that keep their todos in TODO.md, in order.
pub open spec fn md_projects(ps: Seq<Project>) -> Seq<(i64, Seq<char>)>
    decreases ps.len(),
{
    if ps.len() == 0 {
        Seq::empty()
    } else if is_markdown_spec(ps.last()) {
        md_projects(ps.drop_last()).push((ps.last().id, ps.last().path@))
    } else {
        md_projects(ps.drop_last())
    }
}

pub open spec fn count_request(ps: Seq<Project>) -> RequestView {
    RequestView::CountActiveTodos { db_project_ids: db_ids(ps), markdown_projects: md_projects(ps) }
}

/// What the store's answer does to the operation under way.
pub open spec fn resume_spec(s: AppView, reply: ReplyView) -> (AppView, Option<RequestView>) {
    match s.pending {
        None => (s, None),
        Some((flow, stage)) => {
            let s0 = AppView { pending: None, ..s };
            match stage {
                Stage::Mutation => after_mutation_spec(s0, flow, reply),
                Stage::Projects { refresh_git, previous_id } => match reply {
                    ReplyView::Projects(ps) => (
                        AppView {
                            projects: ps,
                            active_todo_counts: Seq::empty(),
                            pending: Some((flow, Stage::Counts { refresh_git, previous_id })),
                            ..s0
                        },
                        Some(count_request(ps)),
                    ),
                    _ => complete_spec(s0, flow, Err(reply_err(reply))),
                },
                Stage::Counts { refresh_git, previous_id } => match reply {
                    ReplyView::Counts(cs) => {
                        let s1 = AppView { active_todo_counts: cs, ..s0 };
                        if s1.projects.len() == 0 {
                            complete_spec(
                                AppView {
                                    selected_project: 0,
                                    todos: Seq::empty(),
                                    selected_todo: 0,
                                    chores: s1.chores.push(ChoreView::StopGitRefresh),
                                    ..s1
                                },
                                flow,
                                Ok(()),
                            )
                        } else {
                            begin_load_spec(
                                AppView { selected_project: reselect(s1, previous_id), ..s1 },
                                flow,
                                Some(refresh_git),
                            )
                        }
                    },
                    _ => complete_spec(s0, flow, Err(reply_err(reply))),
                },
                Stage::Todos { reload } => match reply {
                    ReplyView::Todos(ts) => complete_spec(
                        reload_tail(applied(s0, ts), reload),
                        flow,
                        Ok(()),
                    ),
                    _ => complete_spec(s0, flow, Err(reply_err(reply))),
                },
            }
        },
    }
}

pub open spec fn res_view(r: Result<(), String>) -> Result<(), Seq<char>> {
    match r {
        Ok(_) => Ok(()),
        Err(e) => Err(e@),
    }
}

proof fn lemma_chores_push(v: Seq<Chore>, c: Chore)
    ensures
        chore_views(v.push(c)) == chore_views(v).push(c@),
{
    assert(chore_views(v.push(c)) =~= chore_views(v).push(c@));
}


fn reply_error(reply: Reply) -> (e: String)
    ensures
        e@ == reply_err(reply@),
{
    match reply {
        Reply::Failed(e) => e,
        _ => owned("unexpected reply from the store"),
    }
}

fn moved_index_exec(index: usize, direction: MoveDirection, len: usize) -> (r: usize)
    ensures
        r == moved_index(index, direction, len as nat),
{
    match direction {
        MoveDirection::Up => if index == 0 {
            0
        } else {
            index - 1
        },
        MoveDirection::Down => {
            let last = if len == 0 {
                0
            } else {
                len - 1
            };
            if index < last {
                index + 1
            } else {
                last
            }
        },
    }
}

impl AppState {
    fn push_chore(&mut self, c: Chore)
        ensures
            final(self)@ == add_chores(old(self)@, seq![c@]),
    {
        proof {
            lemma_chores_push(self.chores@, c);
            assert(chore_views(self.chores@).push(c@) =~= chore_views(self.chores@) + seq![c@]);
        }
        self.chores.push(c);
    }

    fn selected_id(&self) -> (r: Option<i64>)
        ensures
            r == selected_id(self@),
    {
        if self.selected_project < self.projects.len() {
            Some(self.projects[self.selected_project].id)
        } else {
            None
        }
    }

    fn set_status(&mut self, text: &str)
        ensures
            final(self)@ == with_status(old(self)@, text@),
    {
        self.status = owned(text);
    }

    fn set_status_error(&mut self, prefix: &str, err: &str)
        ensures
            final(self)@ == with_status(old(self)@, prefix@ + err@),
    {
        self.status = concat(prefix, err);
    }

    fn status_or(&mut self, res: Result<(), String>, ok: &str, err: &str)
        ensures
            final(self)@ == status_or(old(self)@, res_view(res), ok@, err@),
    {
        match res {
            Ok(()) => self.set_status(ok),
            Err(e) => self.set_status_error(err, e.as_str()),
        }
    }

    fn preserve_index(&self, todo_id: i64) -> (r: usize)
        ensures
            r == preserve_index(self@, todo_id),
    {
        let k = find_todo(&self.todos, todo_id);
        if k < self.todos.len() {
            k
        } else {
            self.selected_todo
        }
    }

    fn preserve_or(&mut self, res: Result<(), String>, todo_id: i64, ok: &str, err: &str)
        ensures
            final(self)@ == preserve_or(old(self)@, res_view(res), todo_id, ok@, err@),
    {
        match res {
            Ok(()) => {
                self.selected_todo = self.preserve_index(todo_id);
                self.set_status(ok);
            },
            Err(e) => self.set_status_error(err, e.as_str()),
        }
    }

    fn start_reload(&mut self, flow: Flow, refresh_git: bool) -> (r: Option<Request>)
        ensures
            (final(self)@, request_view(r)) == start_reload_spec(old(self)@, flow@, refresh_git),
    {
        let previous_id = self.selected_id();
        let cs = crate::text::chars_of(self.filter_input.as_str());
        let t = crate::text::trim_chars(cs.as_slice());
        let filter = if t.len() > 0 {
            Some(self.filter_input.clone())
        } else {
            None
        };
        self.pending = Some((flow, Stage::Projects { refresh_git, previous_id }));
        Some(Request::ListProjects { show_archived: self.show_archived, filter })
    }

    fn begin_load(&mut self, flow: Flow, reload: Option<bool>) -> (r: Option<Request>)
        requires
            has_selected(old(self)@),
        ensures
            (final(self)@, request_view(r)) == begin_load_spec(old(self)@, flow@, reload),
    {
        self.pending_todo_delete = false;
        let p = &self.projects[self.selected_project];
        let req = if is_markdown(p) {
            Request::LoadMarkdownTodos { project_path: p.path.clone(), project_id: p.id }
        } else {
            Request::LoadDbTodos { project_id: p.id }
        };
        self.pending = Some((flow, Stage::Todos { reload }));
        Some(req)
    }

    fn clear_todos(&mut self)
        ensures
            final(self)@ == cleared(old(self)@),
    {
        self.pending_todo_delete = false;
        self.todos = Vec::new();
        self.selected_todo = 0;
    }

    fn apply_todos(&mut self, ts: Vec<Todo>)
        ensures
            final(self)@ == applied(old(self)@, ts@),
    {
        let n = count_open(&ts);
        if self.selected_project < self.projects.len() {
            let id = self.projects[self.selected_project].id;
            set_count(&mut self.active_todo_counts, id, n);
        }
        let len = ts.len();
        self.selected_todo = if len == 0 {
            0
        } else if self.selected_todo < len {
            self.selected_todo
        } else {
            len - 1
        };
        self.todos = ts;
    }

    fn reload_tail(&mut self, reload: Option<bool>)
        ensures
            final(self)@ == reload_tail(old(self)@, reload),
    {
        match reload {
            None => {},
            Some(refresh_git) => {
                let ghost s0 = self@;
                if refresh_git {
                    if self.selected_project < self.projects.len() {
                        let path = self.projects[self.selected_project].path.clone();
                        let path2 = path.clone();
                        self.push_chore(Chore::RefreshGitHistory { project_path: path, force: true });
                        self.push_chore(Chore::RefreshGitRelease { project_path: path2, force: true });
                    }
                    self.push_chore(Chore::StartGitRefresh);
                }
                self.agents_scroll = 0;
                self.git_history_scroll = 0;
                self.push_chore(Chore::SyncDbVersion);
                proof {
                    let git = if refresh_git {
                        (if has_selected(s0) {
                            seq![
                                ChoreView::RefreshGitHistory { project_path: sel(s0).path@, force: true },
                                ChoreView::RefreshGitRelease { project_path: sel(s0).path@, force: true },
                            ]
                        } else {
                            Seq::empty()
                        }) + seq![ChoreView::StartGitRefresh]
                    } else {
                        Seq::empty()
                    };
                    assert(self@.chores =~= s0.chores + git + seq![ChoreView::SyncDbVersion]);
                }
            },
        }
    }

    fn finish_added(&mut self, status: UpsertStatus, name: String)
        ensures
            final(self)@ == finish_added_spec(old(self)@, status, name@),
    {
        let ghost s0 = self@;
        if self.selected_project < self.projects.len() {
            let path = self.projects[self.selected_project].path.clone();
            let path2 = path.clone();
            self.push_chore(Chore::RefreshGitHistory { project_path: path, force: true });
            self.push_chore(Chore::RefreshGitRelease { project_path: path2, force: true });
        }
        self.git_history_scroll = 0;
        self.status = match status {
            UpsertStatus::Added => concat("Added project ", name.as_str()),
            UpsertStatus::Updated => concat("Updated project ", name.as_str()),
            UpsertStatus::Existing => concat("Project already exists: ", name.as_str()),
        };
        proof {
            let git = if has_selected(s0) {
                seq![
                    ChoreView::RefreshGitHistory { project_path: sel(s0).path@, force: true },
                    ChoreView::RefreshGitRelease { project_path: sel(s0).path@, force: true },
                ]
            } else {
                Seq::empty()
            };
            assert(self@.chores =~= s0.chores + git);
        }
    }

    #[verifier::spinoff_prover]
    fn complete_status(&mut self, flow: Flow, res: Result<(), String>) -> (r: Option<Request>)
        requires
            flow is ShowArchived || flow is Archive || flow is SwitchSource || flow is DeleteTodo || flow is Rename || flow is DeleteProject || flow is ConfirmDeleteTodo || flow is ExternalChange || flow is Filter,
        ensures
            (final(self)@, request_view(r)) == complete_spec(old(self)@, flow@, res_view(res)),
    {
        match flow {
            Flow::ShowArchived => {
                let ok = if self.show_archived {
                    "Showing archived projects"
                } else {
                    "Hiding archived projects"
                };
                self.status_or(res, ok, "Failed to toggle archived view: ");
                None
            },
            Flow::Archive { name, archived } => {
                let ok = if archived {
                    concat("Archived ", name.as_str())
                } else {
                    concat("Unarchived ", name.as_str())
                };
                self.status_or(res, ok.as_str(), "Failed to archive project: ");
                None
            },
            Flow::SwitchSource { markdown } => {
                let ok = if markdown {
                    "Switched to TODO.md todo storage"
                } else {
                    "Switched to database todo storage"
                };
                self.status_or(res, ok, "Toggled todo storage but reload failed: ");
                None
            },
            Flow::DeleteTodo => {
                self.status_or(res, "Deleted todo", "Deleted todo but refresh failed: ");
                None
            },
            Flow::Rename => {
                self.status_or(res, "Renamed project", "Action failed: ");
                None
            },
            Flow::DeleteProject => {
                self.status_or(res, "Deleted project", "Action failed: ");
                None
            },
            Flow::ConfirmDeleteTodo => {
                self.status_or(res, "Deleted todo", "Action failed: ");
                None
            },
            Flow::ExternalChange => {
                self.status_or(
                    res,
                    "Detected external database changes",
                    "Failed to refresh changed database: ",
                );
                None
            },
            Flow::Filter => {
                if let Err(e) = res {
                    self.set_status_error("Failed to apply filter: ", e.as_str());
                }
                None
            },
            _ => None,
        }
    }

    #[verifier::spinoff_prover]
    fn complete_todos(&mut self, flow: Flow, res: Result<(), String>) -> (r: Option<Request>)
        requires
            flow is ToggleTodo || flow is AddedTodo || flow is EditTodo || flow is AddTodo || flow is MoveTodo,
        ensures
            (final(self)@, request_view(r)) == complete_spec(old(self)@, flow@, res_view(res)),
    {
        match flow {
            Flow::ToggleTodo { todo_id } => {
                self.preserve_or(res, todo_id, "Toggled todo", "Failed to refresh todos: ");
                None
            },
            Flow::AddedTodo { todo_id } => {
                self.preserve_or(res, todo_id, "Added todo", "Action failed: ");
                None
            },
            Flow::EditTodo { todo_id } => {
                self.preserve_or(res, todo_id, "Updated todo", "Action failed: ");
                None
            },
            Flow::AddTodo { markdown } => {
                match res {
                    Ok(()) => {
                        if self.todos.len() > 0 {
                            self.selected_todo = self.todos.len() - 1;
                        }
                        self.set_status("Added todo");
                    },
                    Err(e) => self.set_status_error("Action failed: ", e.as_str()),
                }
                None
            },
            Flow::MoveTodo { markdown, todo_id, index, direction } => {
                match res {
                    Ok(()) => {
                        self.selected_todo = if markdown {
                            moved_index_exec(index, direction, self.todos.len())
                        } else {
                            self.preserve_index(todo_id)
                        };
                        self.set_status("Reordered todo");
                    },
                    Err(e) => self.set_status_error("Moved todo but failed to refresh: ", e.as_str()),
                }
                None
            },
            _ => None,
        }
    }

    #[verifier::spinoff_prover]
    fn complete_other(&mut self, flow: Flow, res: Result<(), String>) -> (r: Option<Request>)
        requires
            flow is Startup || flow is Fetch || flow is Navigate || flow is AddProject || flow is AddedProject || flow is SelectedAdded,
        ensures
            (final(self)@, request_view(r)) == complete_spec(old(self)@, flow@, res_view(res)),
    {
        match flow {
            Flow::Startup => {
                match res {
                    Ok(()) => {
                        let ghost s0 = self@;
                        self.push_chore(Chore::StartGitRefresh);
                        self.push_chore(Chore::SyncDbVersion);
                        proof {
                            assert(self@.chores =~= s0.chores + seq![
                                ChoreView::StartGitRefresh,
                                ChoreView::SyncDbVersion,
                            ]);
                        }
                    },
                    Err(e) => {
                        self.load_error = Some(e);
                    },
                }
                None
            },
            Flow::Fetch => {
                match res {
                    Ok(()) => {
                        let ghost s0 = self@;
                        self.push_chore(Chore::MarkRefreshed);
                        self.push_chore(Chore::SyncDbVersion);
                        self.set_status("Fetched latest database and git state");
                        proof {
                            assert(self@.chores =~= s0.chores + seq![
                                ChoreView::MarkRefreshed,
                                ChoreView::SyncDbVersion,
                            ]);
                        }
                    },
                    Err(e) => self.set_status_error("Fetch failed: ", e.as_str()),
                }
                None
            },
            Flow::Navigate { release } => {
                if let Err(e) = res {
                    self.set_status_error("Failed to load todos: ", e.as_str());
                }
                let ghost s1 = self@;
                if self.selected_project < self.projects.len() {
                    let path = self.projects[self.selected_project].path.clone();
                    let path2 = path.clone();
                    self.push_chore(Chore::RefreshGitHistory { project_path: path, force: false });
                    if release {
                        self.push_chore(
                            Chore::RefreshGitRelease { project_path: path2, force: false },
                        );
                    }
                }
                self.agents_scroll = 0;
                self.git_history_scroll = 0;
                proof {
                    let git = if has_selected(s1) {
                        seq![ChoreView::RefreshGitHistory { project_path: sel(s1).path@, force: false }]
                            + if release {
                            seq![
                                ChoreView::RefreshGitRelease {
                                    project_path: sel(s1).path@,
                                    force: false,
                                },
                            ]
                        } else {
                            Seq::empty()
                        }
                    } else {
                        Seq::empty()
                    };
                    assert(self@.chores =~= s1.chores + git);
                }
                None
            },
            Flow::AddProject => None,
            Flow::AddedProject { status, project_id, name } => {
                match res {
                    Err(e) => {
                        self.set_status_error("Action failed: ", e.as_str());
                        None
                    },
                    Ok(()) => {
                        let k = find_project(&self.projects, project_id);
                        if k < self.projects.len() {
                            self.selected_project = k;
                        }
                        if self.selected_project < self.projects.len() {
                            self.begin_load(Flow::SelectedAdded { status, name }, None)
                        } else {
                            self.clear_todos();
                            self.finish_added(status, name);
                            None
                        }
                    },
                }
            },
            Flow::SelectedAdded { status, name } => {
                self.finish_added(status, name);
                None
            },
            _ => None,
        }
    }

    fn complete(&mut self, flow: Flow, res: Result<(), String>) -> (r: Option<Request>)
        ensures
            (final(self)@, request_view(r)) == complete_spec(old(self)@, flow@, res_view(res)),
    {
        match flow {
            f @ Flow::ShowArchived { .. } => self.complete_status(f, res),
            f @ Flow::Archive { .. } => self.complete_status(f, res),
            f @ Flow::SwitchSource { .. } => self.complete_status(f, res),
            f @ Flow::DeleteTodo { .. } => self.complete_status(f, res),
            f @ Flow::Rename { .. } => self.complete_status(f, res),
            f @ Flow::DeleteProject { .. } => self.complete_status(f, res),
            f @ Flow::ConfirmDeleteTodo { .. } => self.complete_status(f, res),
            f @ Flow::ExternalChange { .. } => self.complete_status(f, res),
            f @ Flow::Filter { .. } => self.complete_status(f, res),
            f @ Flow::ToggleTodo { .. } => self.complete_todos(f, res),
            f @ Flow::AddedTodo { .. } => self.complete_todos(f, res),
            f @ Flow::EditTodo { .. } => self.complete_todos(f, res),
            f @ Flow::AddTodo { .. } => self.complete_todos(f, res),
            f @ Flow::MoveTodo { .. } => self.complete_todos(f, res),
            f @ Flow::Startup { .. } => self.complete_other(f, res),
            f @ Flow::Fetch { .. } => self.complete_other(f, res),
            f @ Flow::Navigate { .. } => self.complete_other(f, res),
            f @ Flow::AddProject { .. } => self.complete_other(f, res),
            f @ Flow::AddedProject { .. } => self.complete_other(f, res),
            f @ Flow::SelectedAdded { .. } => self.complete_other(f, res),
        }
    }

    fn load_or_complete(&mut self, flow: Flow) -> (r: Option<Request>)
        ensures
            (final(self)@, request_view(r)) == load_or_complete_spec(old(self)@, flow@),
    {
        if self.selected_project < self.projects.len() {
            self.begin_load(flow, None)
        } else {
            self.clear_todos();
            self.complete(flow, Ok(()))
        }
    }

    fn fail_with(&mut self, prefix: &str, reply: Reply) -> (r: Option<Request>)
        ensures
            (final(self)@, request_view(r)) == fail_with(old(self)@, prefix@, reply@),
    {
        let e = reply_error(reply);
        self.set_status_error(prefix, e.as_str());
        None
    }

    fn after_mutation(&mut self, flow: Flow, reply: Reply) -> (r: Option<Request>)
        ensures
            (final(self)@, request_view(r)) == after_mutation_spec(old(self)@, flow@, reply@),
    {
        let done = matches!(reply, Reply::Done);
        match flow {
            Flow::Archive { name, archived } => if done {
                self.start_reload(Flow::Archive { name, archived }, true)
            } else {
                self.fail_with("Failed to archive project: ", reply)
            },
            Flow::SwitchSource { markdown } => if done {
                self.start_reload(Flow::SwitchSource { markdown }, true)
            } else {
                self.fail_with("Failed to toggle todo storage: ", reply)
            },
            Flow::ToggleTodo { todo_id } => if done {
                self.load_or_complete(Flow::ToggleTodo { todo_id })
            } else {
                self.fail_with("Failed to toggle todo: ", reply)
            },
            Flow::DeleteTodo => if done {
                self.load_or_complete(Flow::DeleteTodo)
            } else {
                self.fail_with("Failed to delete todo: ", reply)
            },
            Flow::MoveTodo { markdown, todo_id, index, direction } => match reply {
                Reply::Moved(true) => self.load_or_complete(
                    Flow::MoveTodo { markdown, todo_id, index, direction },
                ),
                Reply::Moved(false) => {
                    self.set_status("Todo already at boundary");
                    None
                },
                other => self.fail_with("Failed to reorder todo: ", other),
            },
            Flow::Rename => if done {
                self.start_reload(Flow::Rename, true)
            } else {
                self.fail_with("Action failed: ", reply)
            },
            Flow::AddTodo { markdown } => if markdown {
                if done {
                    self.load_or_complete(Flow::AddTodo { markdown })
                } else {
                    self.fail_with("Action failed: ", reply)
                }
            } else {
                match reply {
                    Reply::CreatedTodo(id) => self.load_or_complete(Flow::AddedTodo { todo_id: id }),
                    other => self.fail_with("Action failed: ", other),
                }
            },
            Flow::EditTodo { todo_id } => if done {
                self.load_or_complete(Flow::EditTodo { todo_id })
            } else {
                self.fail_with("Action failed: ", reply)
            },
            Flow::AddProject => match reply {
                Reply::Upserted(status, p) => self.start_reload(
                    Flow::AddedProject { status, project_id: p.id, name: p.name },
                    true,
                ),
                other => self.fail_with("Action failed: ", other),
            },
            Flow::DeleteProject => if done {
                self.start_reload(Flow::DeleteProject, true)
            } else {
                self.fail_with("Action failed: ", reply)
            },
            Flow::ConfirmDeleteTodo => if done {
                self.load_or_complete(Flow::ConfirmDeleteTodo)
            } else {
                self.fail_with("Action failed: ", reply)
            },
            _ => None,
        }
    }

    fn count_request(&self) -> (r: Request)
        ensures
            r@ == count_request(self.projects@),
    {
        let mut ids: Vec<i64> = Vec::new();
        let mut md: Vec<(i64, String)> = Vec::new();
        let mut k: usize = 0;
        proof {
            assert(self.projects@.take(0) =~= Seq::<Project>::empty());
            assert(id_paths(md@) =~= Seq::<(i64, Seq<char>)>::empty());
        }
        while k < self.projects.len()
            invariant
                k <= self.projects@.len(),
                ids@ == db_ids(self.projects@.take(k as int)),
                id_paths(md@) == md_projects(self.projects@.take(k as int)),
            decreases self.projects@.len() - k,
        {
            let p = &self.projects[k];
            proof {
                assert(self.projects@.take(k as int + 1).drop_last() =~= self.projects@.take(
                    k as int,
                ));
            }
            if is_markdown(p) {
                let ghost before = md@;
                md.push((p.id, p.path.clone()));
                proof {
                    assert(id_paths(md@) =~= id_paths(before).push((p.id, p.path@)));
                }
            } else {
                ids.push(p.id);
            }
            k = k + 1;
        }
        proof {
            assert(self.projects@.take(k as int) =~= self.projects@);
        }
        Request::CountActiveTodos { db_project_ids: ids, markdown_projects: md }
    }

    fn reselect(&self, previous_id: Option<i64>) -> (r: usize)
        requires
            self.projects@.len() > 0,
        ensures
            r == reselect(self@, previous_id),
            r < self.projects@.len(),
    {
        proof {
            if let Some(id) = previous_id {
                lemma_project_index_bounds(self.projects@, id, 0);
            }
        }
        match previous_id {
            Some(id) => {
                let k = find_project(&self.projects, id);
                if k < self.projects.len() {
                    k
                } else {
                    0
                }
            },
            None => if self.selected_project < self.projects.len() {
                self.selected_project
            } else {
                self.projects.len() - 1
            },
        }
    }

    /// Takes the store's answer to the last request and goes on with the
    /// operation under way: the next request, or `None` once it has ended.
    pub fn resume(&mut self, reply: Reply) -> (r: Option<Request>)
        ensures
            (final(self)@, request_view(r)) == resume_spec(old(self)@, reply@),
    {
        let pending = self.pending.take();
        match pending {
            None => None,
            Some((flow, stage)) => match stage {
                Stage::Mutation => self.after_mutation(flow, reply),
                Stage::Projects { refresh_git, previous_id } => match reply {
                    Reply::Projects(ps) => {
                        self.projects = ps;
                        self.active_todo_counts = Vec::new();
                        let req = self.count_request();
                        self.pending = Some((flow, Stage::Counts { refresh_git, previous_id }));
                        Some(req)
                    },
                    other => {
                        let e = reply_error(other);
                        self.complete(flow, Err(e))
                    },
                },
                Stage::Counts { refresh_git, previous_id } => match reply {
                    Reply::Counts(cs) => {
                        self.active_todo_counts = cs;
                        if self.projects.len() == 0 {
                            let ghost s1 = self@;
                            self.selected_project = 0;
                            self.todos = Vec::new();
                            self.selected_todo = 0;
                            self.push_chore(Chore::StopGitRefresh);
                            proof {
                                assert(self@.chores =~= s1.chores.push(ChoreView::StopGitRefresh));
                            }
                            self.complete(flow, Ok(()))
                        } else {
                            self.selected_project = self.reselect(previous_id);
                            self.begin_load(flow, Some(refresh_git))
                        }
                    },
                    other => {
                        let e = reply_error(other);
                        self.complete(flow, Err(e))
                    },
                },
                Stage::Todos { reload } => match reply {
                    Reply::Todos(ts) => {
                        self.apply_todos(ts);
                        self.reload_tail(reload);
                        self.complete(flow, Ok(()))
                    },
                    other => {
                        let e = reply_error(other);
                        self.complete(flow, Err(e))
                    },
                },
            },
        }
    }
}


pub open spec fn set_focus_spec(s: AppView, pane: FocusPane) -> AppView {
    AppView { focus: pane, pending_todo_delete: false, ..s }
}

/// A change to the store is asked for; `flow` goes on with its answer.
pub open spec fn mutate_spec(s: AppView, flow: FlowView, req: RequestView) -> (
    AppView,
    Option<RequestView>,
) {
    (AppView { pending: Some((flow, Stage::Mutation)), ..s }, Some(req))
}

pub open spec fn help_key_spec(s: AppView, code: KeyCode) -> AppView {
    match code {
        KeyCode::Esc => AppView { show_help: false, help_scroll: 0, ..s },
        KeyCode::Char(c) => if c == '?' || c == 'q' {
            AppView { show_help: false, help_scroll: 0, ..s }
        } else if c == 'j' {
            AppView { help_scroll: sat_add(s.help_scroll, 1), ..s }
        } else if c == 'k' {
            AppView { help_scroll: sat_sub(s.help_scroll, 1), ..s }
        } else {
            s
        },
        KeyCode::Down => AppView { help_scroll: sat_add(s.help_scroll, 1), ..s },
        KeyCode::Up => AppView { help_scroll: sat_sub(s.help_scroll, 1), ..s },
        KeyCode::PageDown => AppView { help_scroll: sat_add(s.help_scroll, 12), ..s },
        KeyCode::PageUp => AppView { help_scroll: sat_sub(s.help_scroll, 12), ..s },
        KeyCode::Home => AppView { help_scroll: 0, ..s },
        _ => s,
    }
}

/// A text field after an editing key: (text, cursor). Keys that do not edit
/// leave both as they are.
pub open spec fn edit_field(v: Seq<char>, c: usize, key: KeyInput) -> (Seq<char>, usize) {
    let k = cursor_pos(v, c as nat);
    match key.code {
        KeyCode::Backspace => if k == 0 {
            (v, 0)
        } else {
            (v.remove(k - 1), off(v, k - 1) as usize)
        },
        KeyCode::Delete => if k < v.len() {
            (v.remove(k), c)
        } else {
            (v, c)
        },
        KeyCode::Left => (
            v,
            if k == 0 {
                0
            } else {
                off(v, k - 1) as usize
            },
        ),
        KeyCode::Right => (
            v,
            if k == v.len() {
                off(v, k) as usize
            } else {
                off(v, k + 1) as usize
            },
        ),
        KeyCode::Home => (v, 0),
        KeyCode::End => (v, crate::launch::utf8_len(v) as usize),
        KeyCode::Char(ch) => if key.modifiers.typing_spec() {
            (insert_spec(v, k, ch), off(insert_spec(v, k, ch), k + 1) as usize)
        } else {
            (v, c)
        },
        _ => (v, c),
    }
}

/// Whether the key changes a text field's text (and not only its cursor).
pub open spec fn edits_text(key: KeyInput) -> bool {
    match key.code {
        KeyCode::Backspace | KeyCode::Delete => true,
        KeyCode::Char(_) => key.modifiers.typing_spec(),
        _ => false,
    }
}

pub open spec fn filter_key_spec(s: AppView, key: KeyInput) -> (AppView, Option<RequestView>) {
    match key.code {
        KeyCode::Esc => (with_status(AppView { filter_mode: false, ..s }, "Filter closed"@), None),
        KeyCode::Enter => (
            with_status(AppView { filter_mode: false, ..s }, "Filter applied"@),
            None,
        ),
        _ => if key.code == KeyCode::Char('q') {
            (with_status(AppView { filter_mode: false, ..s }, "Filter closed"@), None)
        } else {
            let (v, c) = edit_field(s.filter_input, s.filter_cursor, key);
            let s1 = AppView { filter_input: v, filter_cursor: c, ..s };
            if edits_text(key) {
                start_reload_spec(s1, FlowView::Filter, true)
            } else {
                (s1, None)
            }
        },
    }
}

pub open spec fn normalize_spec(m: ModalView) -> ModalView {
    match m {
        ModalView::Input { title, prompt, value, cursor, purpose } => ModalView::Input {
            title,
            prompt,
            value,
            cursor: clamp_spec(value, cursor as nat) as usize,
            purpose,
        },
        ModalView::AddProject { path, name, path_cursor, name_cursor, active_field } =>
            ModalView::AddProject {
            path,
            name,
            path_cursor: clamp_spec(path, path_cursor as nat) as usize,
            name_cursor: clamp_spec(name, name_cursor as nat) as usize,
            active_field,
        },
        ModalView::Confirm { .. } => m,
    }
}

pub open spec fn submit_input_spec(s: AppView, value: Seq<char>, purpose: InputPurpose) -> (
    AppView,
    Option<RequestView>,
) {
    match purpose {
        InputPurpose::RenameProject(id) => mutate_spec(
            s,
            FlowView::Rename,
            RequestView::RenameProject { project_id: id, name: value },
        ),
        InputPurpose::AddTodo(id) => if selected_markdown(s) {
            mutate_spec(
                s,
                FlowView::AddTodo { markdown: true },
                RequestView::CreateMarkdownTodo { project_path: sel(s).path@, title: value },
            )
        } else {
            mutate_spec(
                s,
                FlowView::AddTodo { markdown: false },
                RequestView::CreateDbTodo { project_id: id, title: value },
            )
        },
        InputPurpose::EditTodo(id) => if selected_markdown(s) {
            mutate_spec(
                s,
                FlowView::EditTodo { todo_id: id },
                RequestView::UpdateMarkdownTodoTitle {
                    project_path: sel(s).path@,
                    line: id as usize,
                    title: value,
                },
            )
        } else {
            mutate_spec(
                s,
                FlowView::EditTodo { todo_id: id },
                RequestView::UpdateDbTodoTitle { todo_id: id, title: value },
            )
        },
    }
}

/// The path as typed, trimmed, `.` when blank; the name trimmed, left out when blank.
pub open spec fn submit_add_spec(s: AppView, path: Seq<char>, name: Seq<char>) -> (
    AppView,
    Option<RequestView>,
) {
    mutate_spec(
        s,
        FlowView::AddProject,
        RequestView::AddProject {
            path: if trim(path).len() == 0 {
                "."@
            } else {
                trim(path)
            },
            name: if trim(name).len() == 0 {
                None
            } else {
                Some(trim(name))
            },
        },
    )
}

pub open spec fn submit_confirm_spec(s: AppView, action: ConfirmAction) -> (
    AppView,
    Option<RequestView>,
) {
    match action {
        ConfirmAction::DeleteProject(id) => mutate_spec(
            s,
            FlowView::DeleteProject,
            RequestView::DeleteProject { project_id: id },
        ),
        ConfirmAction::DeleteTodo(id) => if selected_markdown(s) {
            mutate_spec(
                s,
                FlowView::ConfirmDeleteTodo,
                RequestView::DeleteMarkdownTodo { project_path: sel(s).path@, line: id as usize },
            )
        } else {
            mutate_spec(s, FlowView::ConfirmDeleteTodo, RequestView::DeleteDbTodo { todo_id: id })
        },
    }
}

pub open spec fn modal_key_spec(s: AppView, key: KeyInput) -> (AppView, Option<RequestView>) {
    if key.code == KeyCode::Esc {
        (with_status(AppView { modal: None, ..s }, "Canceled"@), None)
    } else {
        match s.modal {
            None => (s, None),
            Some(m) => {
                let s0 = AppView { modal: None, ..s };
                match normalize_spec(m) {
                    ModalView::Input { title, prompt, value, cursor, purpose } => if key.code
                        == KeyCode::Enter {
                        submit_input_spec(s0, value, purpose)
                    } else {
                        let (v, c) = edit_field(value, cursor, key);
                        (
                            AppView {
                                modal: Some(
                                    ModalView::Input { title, prompt, value: v, cursor: c, purpose },
                                ),
                                ..s0
                            },
                            None,
                        )
                    },
                    ModalView::AddProject { path, name, path_cursor, name_cursor, active_field } =>
                        if key.code == KeyCode::Enter {
                        submit_add_spec(s0, path, name)
                    } else if key.code == KeyCode::Tab {
                        (
                            AppView {
                                modal: Some(
                                    ModalView::AddProject {
                                        path,
                                        name,
                                        path_cursor,
                                        name_cursor,
                                        active_field: match active_field {
                                            AddProjectField::Path => AddProjectField::Name,
                                            AddProjectField::Name => AddProjectField::Path,
                                        },
                                    },
                                ),
                                ..s0
                            },
                            None,
                        )
                    } else {
                        let m2 = match active_field {
                            AddProjectField::Path => {
                                let (v, c) = edit_field(path, path_cursor, key);
                                ModalView::AddProject {
                                    path: v,
                                    name,
                                    path_cursor: c,
                                    name_cursor,
                                    active_field,
                                }
                            },
                            AddProjectField::Name => {
                                let (v, c) = edit_field(name, name_cursor, key);
                                ModalView::AddProject {
                                    path,
                                    name: v,
                                    path_cursor,
                                    name_cursor: c,
                                    active_field,
                                }
                            },
                        };
                        (AppView { modal: Some(m2), ..s0 }, None)
                    },
                    ModalView::Confirm { title, message, action } => if key.code == KeyCode::Enter
                        || key.code == KeyCode::Char('y') || key.code == KeyCode::Char('Y') {
                        submit_confirm_spec(s0, action)
                    } else if key.code == KeyCode::Char('n') || key.code == KeyCode::Char('N') {
                        (with_status(s0, "Canceled"@), None)
                    } else {
                        (AppView { modal: Some(ModalView::Confirm { title, message, action }), ..s0 }, None)
                    },
                }
            },
        }
    }
}

pub open spec fn move_down_spec(s: AppView) -> (AppView, Option<RequestView>) {
    match s.focus {
        FocusPane::Projects => if s.projects.len() == 0 {
            (s, None)
        } else {
            let n: int = if s.selected_project < s.projects.len() - 1 {
                s.selected_project + 1
            } else {
                s.projects.len() - 1
            };
            load_or_complete_spec(
                AppView { selected_project: n as usize, ..s },
                FlowView::Navigate { release: true },
            )
        },
        FocusPane::Todos => if s.todos.len() == 0 {
            (s, None)
        } else {
            let n: int = if s.selected_todo < s.todos.len() - 1 {
                s.selected_todo + 1
            } else {
                s.todos.len() - 1
            };
            (AppView { selected_todo: n as usize, ..s }, None)
        },
        FocusPane::Agents => (AppView { agents_scroll: sat_add(s.agents_scroll, 1), ..s }, None),
        FocusPane::GitHistory => (
            AppView { git_history_scroll: sat_add(s.git_history_scroll, 1), ..s },
            None,
        ),
    }
}

pub open spec fn move_up_spec(s: AppView) -> (AppView, Option<RequestView>) {
    match s.focus {
        FocusPane::Projects => if s.projects.len() == 0 {
            (s, None)
        } else {
            let n: int = if s.selected_project == 0 {
                0
            } else {
                s.selected_project - 1
            };
            load_or_complete_spec(
                AppView { selected_project: n as usize, ..s },
                FlowView::Navigate { release: true },
            )
        },
        FocusPane::Todos => if s.todos.len() == 0 {
            (s, None)
        } else {
            let n: int = if s.selected_todo == 0 {
                0
            } else {
                s.selected_todo - 1
            };
            (AppView { selected_todo: n as usize, ..s }, None)
        },
        FocusPane::Agents => (AppView { agents_scroll: sat_sub(s.agents_scroll, 1), ..s }, None),
        FocusPane::GitHistory => (
            AppView { git_history_scroll: sat_sub(s.git_history_scroll, 1), ..s },
            None,
        ),
    }
}

pub open spec fn move_todo_spec(s: AppView, direction: MoveDirection) -> (AppView, Option<RequestView>) {
    if s.focus == FocusPane::Todos && has_selected_todo(s) {
        let t = sel_todo(s);
        if selected_markdown(s) {
            mutate_spec(
                s,
                FlowView::MoveTodo { markdown: true, todo_id: t.id, index: s.selected_todo, direction },
                RequestView::MoveMarkdownTodo {
                    project_path: sel(s).path@,
                    line: t.id as usize,
                    direction,
                },
            )
        } else {
            mutate_spec(
                s,
                FlowView::MoveTodo {
                    markdown: false,
                    todo_id: t.id,
                    index: s.selected_todo,
                    direction,
                },
                RequestView::MoveDbTodo { todo_id: t.id, direction },
            )
        }
    } else {
        (s, None)
    }
}

pub open spec fn delete_key_spec(s: AppView) -> (AppView, Option<RequestView>) {
    match s.focus {
        FocusPane::Projects => if has_selected(s) {
            (
                AppView {
                    modal: Some(
                        ModalView::Confirm {
                            title: "Delete project"@,
                            message: "Delete '"@ + sel(s).name@
                                + "' from prm and remove its registered todos?"@,
                            action: ConfirmAction::DeleteProject(sel(s).id),
                        },
                    ),
                    ..s
                },
                None,
            )
        } else {
            (s, None)
        },
        FocusPane::Todos => if has_selected_todo(s) {
            if s.pending_todo_delete {
                let s1 = AppView { pending_todo_delete: false, ..s };
                let t = sel_todo(s);
                if selected_markdown(s) {
                    mutate_spec(
                        s1,
                        FlowView::DeleteTodo,
                        RequestView::DeleteMarkdownTodo {
                            project_path: sel(s).path@,
                            line: t.id as usize,
                        },
                    )
                } else {
                    mutate_spec(s1, FlowView::DeleteTodo, RequestView::DeleteDbTodo { todo_id: t.id })
                }
            } else {
                (
                    with_status(
                        AppView { pending_todo_delete: true, ..s },
                        "Press d again to delete todo"@,
                    ),
                    None,
                )
            }
        } else {
            (s, None)
        },
        _ => (s, None),
    }
}

pub open spec fn lazygit_spec(s: AppView) -> AppView {
    if has_selected(s) {
        with_status(
            AppView {
                pending_external_command: Some(
                    ExternalCommandView::OpenLazyGit { project_path: sel(s).path@ },
                ),
                ..s
            },
            "Opening lazygit..."@,
        )
    } else {
        with_status(s, "No project selected"@)
    }
}

pub open spec fn terminal_spec(s: AppView) -> AppView {
    if has_selected(s) {
        with_status(
            AppView {
                pending_external_command: Some(
                    ExternalCommandView::OpenProjectTerminal {
                        project_path: sel(s).path@,
                        project_name: sel(s).name@,
                    },
                ),
                ..s
            },
            "Opening project terminal..."@,
        )
    } else {
        with_status(s, "No project selected"@)
    }
}

/// Keys of the main screen that act on the projects pane.
pub open spec fn project_key_spec(s: AppView, c: char) -> (AppView, Option<RequestView>) {
    if s.focus != FocusPane::Projects {
        (s, None)
    } else if c == 'a' {
        (
            AppView {
                modal: Some(
                    ModalView::AddProject {
                        path: Seq::empty(),
                        name: Seq::empty(),
                        path_cursor: 0,
                        name_cursor: 0,
                        active_field: AddProjectField::Path,
                    },
                ),
                ..s
            },
            None,
        )
    } else if !has_selected(s) {
        (s, None)
    } else if c == 'r' {
        (
            AppView {
                modal: Some(
                    ModalView::Input {
                        title: "Rename project"@,
                        prompt: "Name"@,
                        value: sel(s).name@,
                        cursor: crate::launch::utf8_len(sel(s).name@) as usize,
                        purpose: InputPurpose::RenameProject(sel(s).id),
                    },
                ),
                ..s
            },
            None,
        )
    } else if c == 'x' {
        mutate_spec(
            s,
            FlowView::Archive { name: sel(s).name@, archived: !sel(s).archived },
            RequestView::SetProjectArchived { project_id: sel(s).id, archived: !sel(s).archived },
        )
    } else {
        let md = is_markdown_spec(sel(s));
        mutate_spec(
            s,
            FlowView::SwitchSource { markdown: !md },
            RequestView::SetTodoSource {
                project_id: sel(s).id,
                source: if md {
                    "db"@
                } else {
                    "markdown"@
                },
            },
        )
    }
}

/// Keys of the main screen that act on the todos pane.
pub open spec fn todo_key_spec(s: AppView, c: char) -> (AppView, Option<RequestView>) {
    if s.focus != FocusPane::Todos {
        (s, None)
    } else if c == 'n' {
        if has_selected(s) {
            (
                AppView {
                    modal: Some(
                        ModalView::Input {
                            title: "Add todo"@,
                            prompt: "Todo"@,
                            value: Seq::empty(),
                            cursor: 0,
                            purpose: InputPurpose::AddTodo(sel(s).id),
                        },
                    ),
                    ..s
                },
                None,
            )
        } else {
            (s, None)
        }
    } else if !has_selected_todo(s) {
        (s, None)
    } else if c == 'e' {
        (
            AppView {
                modal: Some(
                    ModalView::Input {
                        title: "Edit todo"@,
                        prompt: "Todo"@,
                        value: sel_todo(s).title@,
                        cursor: crate::launch::utf8_len(sel_todo(s).title@) as usize,
                        purpose: InputPurpose::EditTodo(sel_todo(s).id),
                    },
                ),
                ..s
            },
            None,
        )
    } else {
        let t = sel_todo(s);
        if selected_markdown(s) {
            mutate_spec(
                s,
                FlowView::ToggleTodo { todo_id: t.id },
                RequestView::ToggleMarkdownTodo { project_path: sel(s).path@, line: t.id as usize },
            )
        } else {
            mutate_spec(s, FlowView::ToggleTodo { todo_id: t.id }, RequestView::ToggleDbTodo { todo_id: t.id })
        }
    }
}

pub open spec fn char_key_spec(s: AppView, c: char) -> (AppView, Option<RequestView>) {
    if c == 'h' {
        (set_focus_spec(s, s.focus.prev_spec()), None)
    } else if c == 'l' {
        (set_focus_spec(s, s.focus.next_spec()), None)
    } else if c == '1' {
        (set_focus_spec(s, FocusPane::Projects), None)
    } else if c == '2' {
        (set_focus_spec(s, FocusPane::Todos), None)
    } else if c == '3' {
        (set_focus_spec(s, FocusPane::Agents), None)
    } else if c == '4' {
        (set_focus_spec(s, FocusPane::GitHistory), None)
    } else if c == '/' {
        (AppView { filter_mode: true, ..s }, None)
    } else if c == '?' {
        (AppView { show_help: true, help_scroll: 0, ..s }, None)
    } else if c == 'f' {
        start_reload_spec(add_chores(s, seq![ChoreView::ClearCaches]), FlowView::Fetch, true)
    } else if c == 'g' {
        (lazygit_spec(s), None)
    } else if c == 't' {
        (terminal_spec(s), None)
    } else if c == 'A' {
        start_reload_spec(AppView { show_archived: !s.show_archived, ..s }, FlowView::ShowArchived, true)
    } else if c == 'q' {
        (with_status(s, "Press Q to quit"@), None)
    } else if c == 'j' {
        move_down_spec(s)
    } else if c == 'k' {
        move_up_spec(s)
    } else if c == 'J' {
        move_todo_spec(s, MoveDirection::Down)
    } else if c == 'K' {
        move_todo_spec(s, MoveDirection::Up)
    } else if c == 'a' || c == 'r' || c == 'x' || c == 'm' {
        project_key_spec(s, c)
    } else if c == 'd' {
        delete_key_spec(s)
    } else if c == 'n' || c == 'e' || c == ' ' {
        todo_key_spec(s, c)
    } else {
        (s, None)
    }
}

/// Shift with no other modifier.
pub open spec fn shift_only(m: KeyModifiers) -> bool {
    m.shift && !m.control && !m.alt && !m.other
}

/// Shift+Up and Shift+Down move the active todo when the Todos pane has
/// focus; elsewhere, and without Shift, the arrows move the selection.
pub open spec fn moves_todo(s: AppView, key: KeyInput) -> bool {
    s.focus == FocusPane::Todos && shift_only(key.modifiers)
}

/// A key on the main screen, with no dialog, filter or help open.
pub open spec fn normal_key_spec(s: AppView, key: KeyInput) -> (AppView, Option<RequestView>) {
    if key.code == KeyCode::Char('Q') {
        (AppView { quit: true, ..s }, None)
    } else {
        let s1 = if key.code == KeyCode::Char('d') {
            s
        } else {
            AppView { pending_todo_delete: false, ..s }
        };
        match key.code {
            KeyCode::Tab => (set_focus_spec(s1, s1.focus.next_spec()), None),
            KeyCode::BackTab => (set_focus_spec(s1, s1.focus.prev_spec()), None),
            KeyCode::Left => (set_focus_spec(s1, s1.focus.prev_spec()), None),
            KeyCode::Right => (set_focus_spec(s1, s1.focus.next_spec()), None),
            KeyCode::Down => if moves_todo(s1, key) {
                move_todo_spec(s1, MoveDirection::Down)
            } else {
                move_down_spec(s1)
            },
            KeyCode::Up => if moves_todo(s1, key) {
                move_todo_spec(s1, MoveDirection::Up)
            } else {
                move_up_spec(s1)
            },
            KeyCode::PageDown => if s1.focus == FocusPane::Todos {
                move_todo_spec(s1, MoveDirection::Down)
            } else {
                (s1, None)
            },
            KeyCode::PageUp => if s1.focus == FocusPane::Todos {
                move_todo_spec(s1, MoveDirection::Up)
            } else {
                (s1, None)
            },
            KeyCode::Enter => todo_key_spec(s1, 'e'),
            KeyCode::Char(c) => char_key_spec(s1, c),
            _ => (s1, None),
        }
    }
}

/// What a key press does: the help overlay takes every key while it is
/// open, then an open dialog, then the filter line; only then the main screen.
pub open spec fn key_spec(s: AppView, key: KeyInput) -> (AppView, Option<RequestView>) {
    if s.pending is Some {
        (s, None)
    } else if s.show_help {
        (help_key_spec(s, key.code), None)
    } else if s.modal is Some {
        modal_key_spec(s, key)
    } else if s.filter_mode {
        filter_key_spec(s, key)
    } else {
        normal_key_spec(s, key)
    }
}


fn shift_alone(m: KeyModifiers) -> (r: bool)
    ensures
        r == shift_only(m),
{
    m.shift && !m.control && !m.alt && !m.other
}

fn edits_text_exec(key: KeyInput) -> (r: bool)
    ensures
        r == edits_text(key),
{
    match key.code {
        KeyCode::Backspace | KeyCode::Delete => true,
        KeyCode::Char(_) => key.modifiers.typing(),
        _ => false,
    }
}

/// Applies an editing key to a text field.
fn edit_field_exec(value: &mut String, cursor: &mut usize, key: KeyInput)
    ensures
        (final(value)@, *final(cursor)) == edit_field(old(value)@, *old(cursor), key),
{
    proof {
        crate::app::input::lemma_pos_from_bounds(value@, *cursor as nat, 0);
    }
    match key.code {
        KeyCode::Backspace => delete_before_cursor(value, cursor),
        KeyCode::Delete => delete_at_cursor(value, *cursor),
        KeyCode::Left => move_cursor_left(value.as_str(), cursor),
        KeyCode::Right => move_cursor_right(value.as_str(), cursor),
        KeyCode::Home => {
            *cursor = 0;
        },
        KeyCode::End => {
            *cursor = byte_len(value.as_str());
        },
        KeyCode::Char(ch) => {
            if key.modifiers.typing() {
                insert_at_cursor(value, cursor, ch);
            }
        },
        _ => {},
    }
}

fn normalize_modal(m: Modal) -> (r: Modal)
    ensures
        r@ == normalize_spec(m@),
{
    match m {
        Modal::Input(input) => {
            let cursor = clamp_cursor(input.value.as_str(), input.cursor);
            Modal::Input(
                SingleInputModal {
                    title: input.title,
                    prompt: input.prompt,
                    value: input.value,
                    cursor,
                    purpose: input.purpose,
                },
            )
        },
        Modal::AddProject(add) => {
            let path_cursor = clamp_cursor(add.path.as_str(), add.path_cursor);
            let name_cursor = clamp_cursor(add.name.as_str(), add.name_cursor);
            Modal::AddProject(
                AddProjectModal {
                    path: add.path,
                    name: add.name,
                    path_cursor,
                    name_cursor,
                    active_field: add.active_field,
                },
            )
        },
        Modal::Confirm(c) => Modal::Confirm(c),
    }
}

fn trimmed(s: &str) -> (r: String)
    ensures
        r@ == trim(s@),
{
    let cs = crate::text::chars_of(s);
    let t = crate::text::trim_chars(cs.as_slice());
    crate::text::string_from(t.as_slice())
}

impl AppState {
    fn set_focus(&mut self, pane: FocusPane)
        ensures
            final(self)@ == set_focus_spec(old(self)@, pane),
    {
        self.focus = pane;
        self.pending_todo_delete = false;
    }

    fn mutate(&mut self, flow: Flow, req: Request) -> (r: Option<Request>)
        ensures
            (final(self)@, request_view(r)) == mutate_spec(old(self)@, flow@, req@),
    {
        self.pending = Some((flow, Stage::Mutation));
        Some(req)
    }

    fn selected_path(&self) -> (r: String)
        requires
            has_selected(self@),
        ensures
            r@ == sel(self@).path@,
    {
        self.projects[self.selected_project].path.clone()
    }

    fn selected_is_markdown(&self) -> (r: bool)
        ensures
            r == selected_markdown(self@),
    {
        self.selected_project < self.projects.len() && is_markdown(
            &self.projects[self.selected_project],
        )
    }

    fn help_key(&mut self, code: KeyCode)
        ensures
            final(self)@ == help_key_spec(old(self)@, code),
    {
        match code {
            KeyCode::Esc => {
                self.show_help = false;
                self.help_scroll = 0;
            },
            KeyCode::Char(c) => {
                if c == '?' || c == 'q' {
                    self.show_help = false;
                    self.help_scroll = 0;
                } else if c == 'j' {
                    self.help_scroll = self.help_scroll.saturating_add(1);
                } else if c == 'k' {
                    self.help_scroll = self.help_scroll.saturating_sub(1);
                }
            },
            KeyCode::Down => {
                self.help_scroll = self.help_scroll.saturating_add(1);
            },
            KeyCode::Up => {
                self.help_scroll = self.help_scroll.saturating_sub(1);
            },
            KeyCode::PageDown => {
                self.help_scroll = self.help_scroll.saturating_add(12);
            },
            KeyCode::PageUp => {
                self.help_scroll = self.help_scroll.saturating_sub(12);
            },
            KeyCode::Home => {
                self.help_scroll = 0;
            },
            _ => {},
        }
    }

    fn filter_key(&mut self, key: KeyInput) -> (r: Option<Request>)
        ensures
            (final(self)@, request_view(r)) == filter_key_spec(old(self)@, key),
    {
        match key.code {
            KeyCode::Esc => {
                self.filter_mode = false;
                self.set_status("Filter closed");
                None
            },
            KeyCode::Enter => {
                self.filter_mode = false;
                self.set_status("Filter applied");
                None
            },
            _ => if key.code == KeyCode::Char('q') {
                self.filter_mode = false;
                self.set_status("Filter closed");
                None
            } else {
                let mut value = self.filter_input.clone();
                let mut cursor = self.filter_cursor;
                edit_field_exec(&mut value, &mut cursor, key);
                self.filter_input = value;
                self.filter_cursor = cursor;
                if edits_text_exec(key) {
                    self.start_reload(Flow::Filter, true)
                } else {
                    None
                }
            },
        }
    }

    fn submit_input(&mut self, value: String, purpose: InputPurpose) -> (r: Option<Request>)
        ensures
            (final(self)@, request_view(r)) == submit_input_spec(old(self)@, value@, purpose),
    {
        match purpose {
            InputPurpose::RenameProject(id) => self.mutate(
                Flow::Rename,
                Request::RenameProject { project_id: id, name: value },
            ),
            InputPurpose::AddTodo(id) => if self.selected_is_markdown() {
                let path = self.selected_path();
                self.mutate(
                    Flow::AddTodo { markdown: true },
                    Request::CreateMarkdownTodo { project_path: path, title: value },
                )
            } else {
                self.mutate(
                    Flow::AddTodo { markdown: false },
                    Request::CreateDbTodo { project_id: id, title: value },
                )
            },
            InputPurpose::EditTodo(id) => if self.selected_is_markdown() {
                let path = self.selected_path();
                self.mutate(
                    Flow::EditTodo { todo_id: id },
                    Request::UpdateMarkdownTodoTitle {
                        project_path: path,
                        line: id as usize,
                        title: value,
                    },
                )
            } else {
                self.mutate(
                    Flow::EditTodo { todo_id: id },
                    Request::UpdateDbTodoTitle { todo_id: id, title: value },
                )
            },
        }
    }

    fn submit_add(&mut self, path: String, name: String) -> (r: Option<Request>)
        ensures
            (final(self)@, request_view(r)) == submit_add_spec(old(self)@, path@, name@),
    {
        let p = trimmed(path.as_str());
        let p = if p.as_str().unicode_len() == 0 {
            owned(".")
        } else {
            p
        };
        let n = trimmed(name.as_str());
        let n = if n.as_str().unicode_len() == 0 {
            None
        } else {
            Some(n)
        };
        self.mutate(Flow::AddProject, Request::AddProject { path: p, name: n })
    }

    fn submit_confirm(&mut self, action: ConfirmAction) -> (r: Option<Request>)
        ensures
            (final(self)@, request_view(r)) == submit_confirm_spec(old(self)@, action),
    {
        match action {
            ConfirmAction::DeleteProject(id) => self.mutate(
                Flow::DeleteProject,
                Request::DeleteProject { project_id: id },
            ),
            ConfirmAction::DeleteTodo(id) => if self.selected_is_markdown() {
                let path = self.selected_path();
                self.mutate(
                    Flow::ConfirmDeleteTodo,
                    Request::DeleteMarkdownTodo { project_path: path, line: id as usize },
                )
            } else {
                self.mutate(Flow::ConfirmDeleteTodo, Request::DeleteDbTodo { todo_id: id })
            },
        }
    }

    fn modal_key(&mut self, key: KeyInput) -> (r: Option<Request>)
        ensures
            (final(self)@, request_view(r)) == modal_key_spec(old(self)@, key),
    {
        if key.code == KeyCode::Esc {
            self.modal = None;
            self.set_status("Canceled");
            return None;
        }
        let m = match self.modal.take() {
            None => {
                return None;
            },
            Some(m) => m,
        };
        let m = normalize_modal(m);
        match m {
            Modal::Input(input) => {
                if key.code == KeyCode::Enter {
                    self.submit_input(input.value, input.purpose)
                } else {
                    let mut value = input.value;
                    let mut cursor = input.cursor;
                    edit_field_exec(&mut value, &mut cursor, key);
                    self.modal = Some(
                        Modal::Input(
                            SingleInputModal {
                                title: input.title,
                                prompt: input.prompt,
                                value,
                                cursor,
                                purpose: input.purpose,
                            },
                        ),
                    );
                    None
                }
            },
            Modal::AddProject(add) => {
                if key.code == KeyCode::Enter {
                    self.submit_add(add.path, add.name)
                } else if key.code == KeyCode::Tab {
                    let active_field = match add.active_field {
                        AddProjectField::Path => AddProjectField::Name,
                        AddProjectField::Name => AddProjectField::Path,
                    };
                    self.modal = Some(
                        Modal::AddProject(
                            AddProjectModal {
                                path: add.path,
                                name: add.name,
                                path_cursor: add.path_cursor,
                                name_cursor: add.name_cursor,
                                active_field,
                            },
                        ),
                    );
                    None
                } else {
                    let mut path = add.path;
                    let mut name = add.name;
                    let mut path_cursor = add.path_cursor;
                    let mut name_cursor = add.name_cursor;
                    match add.active_field {
                        AddProjectField::Path => edit_field_exec(&mut path, &mut path_cursor, key),
                        AddProjectField::Name => edit_field_exec(&mut name, &mut name_cursor, key),
                    }
                    self.modal = Some(
                        Modal::AddProject(
                            AddProjectModal {
                                path,
                                name,
                                path_cursor,
                                name_cursor,
                                active_field: add.active_field,
                            },
                        ),
                    );
                    None
                }
            },
            Modal::Confirm(c) => {
                if key.code == KeyCode::Enter || key.code == KeyCode::Char('y') || key.code
                    == KeyCode::Char('Y') {
                    self.submit_confirm(c.action)
                } else if key.code == KeyCode::Char('n') || key.code == KeyCode::Char('N') {
                    self.set_status("Canceled");
                    None
                } else {
                    self.modal = Some(Modal::Confirm(c));
                    None
                }
            },
        }
    }

    fn move_down(&mut self) -> (r: Option<Request>)
        ensures
            (final(self)@, request_view(r)) == move_down_spec(old(self)@),
    {
        match self.focus {
            FocusPane::Projects => {
                let len = self.projects.len();
                if len == 0 {
                    return None;
                }
                self.selected_project = if self.selected_project < len - 1 {
                    self.selected_project + 1
                } else {
                    len - 1
                };
                self.load_or_complete(Flow::Navigate { release: true })
            },
            FocusPane::Todos => {
                let len = self.todos.len();
                if len == 0 {
                    return None;
                }
                self.selected_todo = if self.selected_todo < len - 1 {
                    self.selected_todo + 1
                } else {
                    len - 1
                };
                None
            },
            FocusPane::Agents => {
                self.agents_scroll = self.agents_scroll.saturating_add(1);
                None
            },
            FocusPane::GitHistory => {
                self.git_history_scroll = self.git_history_scroll.saturating_add(1);
                None
            },
        }
    }

    fn move_up(&mut self) -> (r: Option<Request>)
        ensures
            (final(self)@, request_view(r)) == move_up_spec(old(self)@),
    {
        match self.focus {
            FocusPane::Projects => {
                if self.projects.len() == 0 {
                    return None;
                }
                self.selected_project = self.selected_project.saturating_sub(1);
                self.load_or_complete(Flow::Navigate { release: true })
            },
            FocusPane::Todos => {
                if self.todos.len() == 0 {
                    return None;
                }
                self.selected_todo = self.selected_todo.saturating_sub(1);
                None
            },
            FocusPane::Agents => {
                self.agents_scroll = self.agents_scroll.saturating_sub(1);
                None
            },
            FocusPane::GitHistory => {
                self.git_history_scroll = self.git_history_scroll.saturating_sub(1);
                None
            },
        }
    }

    fn move_selected_todo(&mut self, direction: MoveDirection) -> (r: Option<Request>)
        ensures
            (final(self)@, request_view(r)) == move_todo_spec(old(self)@, direction),
    {
        if self.focus != FocusPane::Todos || self.selected_todo >= self.todos.len() {
            return None;
        }
        let todo_id = self.todos[self.selected_todo].id;
        let index = self.selected_todo;
        if self.selected_is_markdown() {
            let path = self.selected_path();
            self.mutate(
                Flow::MoveTodo { markdown: true, todo_id, index, direction },
                Request::MoveMarkdownTodo { project_path: path, line: todo_id as usize, direction },
            )
        } else {
            self.mutate(
                Flow::MoveTodo { markdown: false, todo_id, index, direction },
                Request::MoveDbTodo { todo_id, direction },
            )
        }
    }

    fn delete_key(&mut self) -> (r: Option<Request>)
        ensures
            (final(self)@, request_view(r)) == delete_key_spec(old(self)@),
    {
        match self.focus {
            FocusPane::Projects => {
                if self.selected_project < self.projects.len() {
                    let p = &self.projects[self.selected_project];
                    let mut message = concat("Delete '", p.name.as_str());
                    push_str(&mut message, "' from prm and remove its registered todos?");
                    let id = p.id;
                    self.modal = Some(
                        Modal::Confirm(
                            ConfirmModal {
                                title: owned("Delete project"),
                                message,
                                action: ConfirmAction::DeleteProject(id),
                            },
                        ),
                    );
                }
                None
            },
            FocusPane::Todos => {
                if self.selected_todo >= self.todos.len() {
                    return None;
                }
                if self.pending_todo_delete {
                    let todo_id = self.todos[self.selected_todo].id;
                    let markdown = self.selected_is_markdown();
                    if markdown {
                        let path = self.selected_path();
                        self.pending_todo_delete = false;
                        self.mutate(
                            Flow::DeleteTodo,
                            Request::DeleteMarkdownTodo { project_path: path, line: todo_id as usize },
                        )
                    } else {
                        self.pending_todo_delete = false;
                        self.mutate(Flow::DeleteTodo, Request::DeleteDbTodo { todo_id })
                    }
                } else {
                    self.pending_todo_delete = true;
                    self.set_status("Press d again to delete todo");
                    None
                }
            },
            _ => None,
        }
    }

    fn queue_lazygit_launch(&mut self)
        ensures
            final(self)@ == lazygit_spec(old(self)@),
    {
        if self.selected_project < self.projects.len() {
            let project_path = self.selected_path();
            self.pending_external_command = Some(ExternalCommand::OpenLazyGit { project_path });
            self.set_status("Opening lazygit...");
        } else {
            self.set_status("No project selected");
        }
    }

    fn queue_terminal_launch(&mut self)
        ensures
            final(self)@ == terminal_spec(old(self)@),
    {
        if self.selected_project < self.projects.len() {
            let project_path = self.selected_path();
            let project_name = self.projects[self.selected_project].name.clone();
            self.pending_external_command = Some(
                ExternalCommand::OpenProjectTerminal { project_path, project_name },
            );
            self.set_status("Opening project terminal...");
        } else {
            self.set_status("No project selected");
        }
    }

    fn project_key(&mut self, c: char) -> (r: Option<Request>)
        ensures
            (final(self)@, request_view(r)) == project_key_spec(old(self)@, c),
    {
        if self.focus != FocusPane::Projects {
            return None;
        }
        if c == 'a' {
            self.modal = Some(
                Modal::AddProject(
                    AddProjectModal {
                        path: String::new(),
                        name: String::new(),
                        path_cursor: 0,
                        name_cursor: 0,
                        active_field: AddProjectField::Path,
                    },
                ),
            );
            return None;
        }
        if self.selected_project >= self.projects.len() {
            return None;
        }
        let p = &self.projects[self.selected_project];
        if c == 'r' {
            let value = p.name.clone();
            let cursor = byte_len(value.as_str());
            let id = p.id;
            self.modal = Some(
                Modal::Input(
                    SingleInputModal {
                        title: owned("Rename project"),
                        prompt: owned("Name"),
                        value,
                        cursor,
                        purpose: InputPurpose::RenameProject(id),
                    },
                ),
            );
            None
        } else if c == 'x' {
            let id = p.id;
            let archived = !p.archived;
            let name = p.name.clone();
            self.mutate(
                Flow::Archive { name, archived },
                Request::SetProjectArchived { project_id: id, archived },
            )
        } else {
            let id = p.id;
            let md = is_markdown(p);
            let source = if md {
                owned("db")
            } else {
                owned("markdown")
            };
            self.mutate(
                Flow::SwitchSource { markdown: !md },
                Request::SetTodoSource { project_id: id, source },
            )
        }
    }

    fn todo_key(&mut self, c: char) -> (r: Option<Request>)
        ensures
            (final(self)@, request_view(r)) == todo_key_spec(old(self)@, c),
    {
        if self.focus != FocusPane::Todos {
            return None;
        }
        if c == 'n' {
            if self.selected_project < self.projects.len() {
                let id = self.projects[self.selected_project].id;
                self.modal = Some(
                    Modal::Input(
                        SingleInputModal {
                            title: owned("Add todo"),
                            prompt: owned("Todo"),
                            value: String::new(),
                            cursor: 0,
                            purpose: InputPurpose::AddTodo(id),
                        },
                    ),
                );
            }
            return None;
        }
        if self.selected_todo >= self.todos.len() {
            return None;
        }
        let todo_id = self.todos[self.selected_todo].id;
        if c == 'e' {
            let value = self.todos[self.selected_todo].title.clone();
            let cursor = byte_len(value.as_str());
            self.modal = Some(
                Modal::Input(
                    SingleInputModal {
                        title: owned("Edit todo"),
                        prompt: owned("Todo"),
                        value,
                        cursor,
                        purpose: InputPurpose::EditTodo(todo_id),
                    },
                ),
            );
            None
        } else if self.selected_is_markdown() {
            let path = self.selected_path();
            self.mutate(
                Flow::ToggleTodo { todo_id },
                Request::ToggleMarkdownTodo { project_path: path, line: todo_id as usize },
            )
        } else {
            self.mutate(Flow::ToggleTodo { todo_id }, Request::ToggleDbTodo { todo_id })
        }
    }

    fn char_key(&mut self, c: char) -> (r: Option<Request>)
        ensures
            (final(self)@, request_view(r)) == char_key_spec(old(self)@, c),
    {
        if c == 'h' {
            let p = self.focus.prev();
            self.set_focus(p);
            None
        } else if c == 'l' {
            let p = self.focus.next();
            self.set_focus(p);
            None
        } else if c == '1' {
            self.set_focus(FocusPane::Projects);
            None
        } else if c == '2' {
            self.set_focus(FocusPane::Todos);
            None
        } else if c == '3' {
            self.set_focus(FocusPane::Agents);
            None
        } else if c == '4' {
            self.set_focus(FocusPane::GitHistory);
            None
        } else if c == '/' {
            self.filter_mode = true;
            None
        } else if c == '?' {
            self.show_help = true;
            self.help_scroll = 0;
            None
        } else if c == 'f' {
            self.push_chore(Chore::ClearCaches);
            self.start_reload(Flow::Fetch, true)
        } else if c == 'g' {
            self.queue_lazygit_launch();
            None
        } else if c == 't' {
            self.queue_terminal_launch();
            None
        } else if c == 'A' {
            self.show_archived = !self.show_archived;
            self.start_reload(Flow::ShowArchived, true)
        } else if c == 'q' {
            self.set_status("Press Q to quit");
            None
        } else if c == 'j' {
            self.move_down()
        } else if c == 'k' {
            self.move_up()
        } else if c == 'J' {
            self.move_selected_todo(MoveDirection::Down)
        } else if c == 'K' {
            self.move_selected_todo(MoveDirection::Up)
        } else if c == 'a' || c == 'r' || c == 'x' || c == 'm' {
            self.project_key(c)
        } else if c == 'd' {
            self.delete_key()
        } else if c == 'n' || c == 'e' || c == ' ' {
            self.todo_key(c)
        } else {
            None
        }
    }

    fn normal_key(&mut self, key: KeyInput) -> (r: Option<Request>)
        ensures
            (final(self)@, request_view(r)) == normal_key_spec(old(self)@, key),
    {
        if key.code == KeyCode::Char('Q') {
            self.quit = true;
            return None;
        }
        if key.code != KeyCode::Char('d') {
            self.pending_todo_delete = false;
        }
        match key.code {
            KeyCode::Tab | KeyCode::Right => {
                let p = self.focus.next();
                self.set_focus(p);
                None
            },
            KeyCode::BackTab | KeyCode::Left => {
                let p = self.focus.prev();
                self.set_focus(p);
                None
            },
            KeyCode::Down => {
                if self.focus == FocusPane::Todos && shift_alone(key.modifiers) {
                    self.move_selected_todo(MoveDirection::Down)
                } else {
                    self.move_down()
                }
            },
            KeyCode::Up => {
                if self.focus == FocusPane::Todos && shift_alone(key.modifiers) {
                    self.move_selected_todo(MoveDirection::Up)
                } else {
                    self.move_up()
                }
            },
            KeyCode::PageDown => {
                if self.focus == FocusPane::Todos {
                    self.move_selected_todo(MoveDirection::Down)
                } else {
                    None
                }
            },
            KeyCode::PageUp => {
                if self.focus == FocusPane::Todos {
                    self.move_selected_todo(MoveDirection::Up)
                } else {
                    None
                }
            },
            KeyCode::Enter => self.todo_key('e'),
            KeyCode::Char(c) => self.char_key(c),
            _ => None,
        }
    }

    /// Takes a key press. Returns the first request of the operation it
    /// starts, if any; while an operation is under way keys are ignored.
    pub fn handle_key_event(&mut self, key: KeyInput) -> (r: Option<Request>)
        ensures
            (final(self)@, request_view(r)) == key_spec(old(self)@, key),
    {
        if self.pending.is_some() {
            return None;
        }
        if self.show_help {
            self.help_key(key.code);
            return None;
        }
        if self.modal.is_some() {
            return self.modal_key(key);
        }
        if self.filter_mode {
            return self.filter_key(key);
        }
        self.normal_key(key)
    }
}


pub open spec fn select_project_at_row_spec(s: AppView, row: u16, area: Rect) -> (
    AppView,
    Option<RequestView>,
) {
    match pane_list_index_spec(area, row) {
        None => (s, None),
        Some(i) => if i >= s.projects.len() {
            (s, None)
        } else {
            begin_load_spec(
                AppView { selected_project: i, ..s },
                FlowView::Navigate { release: false },
                None,
            )
        },
    }
}

pub open spec fn select_todo_at_row_spec(s: AppView, row: u16, area: Rect) -> AppView {
    match pane_list_index_spec(area, row) {
        None => s,
        Some(i) => if i >= s.todos.len() {
            s
        } else {
            AppView { selected_todo: i, ..s }
        },
    }
}

/// What a mouse event does: over the help overlay the wheel scrolls it;
/// with a dialog or the filter line open nothing happens; otherwise a click
/// focuses the pane under it and selects the row under it, and the wheel
/// focuses the pane and moves in it.
pub open spec fn mouse_spec(s: AppView, mouse: MouseInput, areas: PaneAreas) -> (
    AppView,
    Option<RequestView>,
) {
    if s.pending is Some {
        (s, None)
    } else if s.show_help {
        (
            match mouse.kind {
                MouseKind::ScrollDown => AppView { help_scroll: sat_add(s.help_scroll, 1), ..s },
                MouseKind::ScrollUp => AppView { help_scroll: sat_sub(s.help_scroll, 1), ..s },
                _ => s,
            },
            None,
        )
    } else if s.modal is Some || s.filter_mode {
        (s, None)
    } else {
        match pane_at_spec(areas, mouse.column, mouse.row) {
            None => (s, None),
            Some(pane) => match mouse.kind {
                MouseKind::LeftDown => {
                    let s1 = set_focus_spec(s, pane);
                    match pane {
                        FocusPane::Projects => select_project_at_row_spec(
                            s1,
                            mouse.row,
                            areas.projects,
                        ),
                        FocusPane::Todos => (
                            select_todo_at_row_spec(s1, mouse.row, areas.todos),
                            None,
                        ),
                        _ => (s1, None),
                    }
                },
                MouseKind::ScrollDown => move_down_spec(set_focus_spec(s, pane)),
                MouseKind::ScrollUp => move_up_spec(set_focus_spec(s, pane)),
                MouseKind::Other => (s, None),
            },
        }
    }
}

/// The store's data version as read now, against the one last seen.
pub open spec fn db_version_spec(s: AppView, version: i64) -> (AppView, Option<RequestView>) {
    if s.pending is Some {
        (s, None)
    } else {
        match s.last_external_db_version {
            None => (AppView { last_external_db_version: Some(version), ..s }, None),
            Some(last) => if last == version {
                (s, None)
            } else {
                start_reload_spec(
                    AppView { last_external_db_version: Some(version), ..s },
                    FlowView::ExternalChange,
                    true,
                )
            },
        }
    }
}

pub open spec fn initial_view() -> AppView {
    AppView {
        projects: Seq::empty(),
        selected_project: 0,
        todos: Seq::empty(),
        selected_todo: 0,
        focus: FocusPane::Projects,
        show_archived: false,
        filter_mode: false,
        filter_input: Seq::empty(),
        filter_cursor: 0,
        show_help: false,
        help_scroll: 0,
        status: "Ready"@,
        modal: None,
        agents_scroll: 0,
        git_history_scroll: 0,
        active_todo_counts: Seq::empty(),
        pending_external_command: None,
        pending_todo_delete: false,
        quit: false,
        last_external_db_version: None,
        load_error: None,
        pending: None,
        chores: Seq::empty(),
    }
}

impl AppState {
    /// A fresh state, and the request that loads the project list into it.
    pub fn new() -> (r: (AppState, Request))
        ensures
            (r.0@, Some(r.1@)) == start_reload_spec(initial_view(), FlowView::Startup, false),
    {
        let mut app = AppState {
            projects: Vec::new(),
            selected_project: 0,
            todos: Vec::new(),
            selected_todo: 0,
            focus: FocusPane::Projects,
            show_archived: false,
            filter_mode: false,
            filter_input: String::new(),
            filter_cursor: 0,
            show_help: false,
            help_scroll: 0,
            status: owned("Ready"),
            modal: None,
            agents_scroll: 0,
            git_history_scroll: 0,
            active_todo_counts: Vec::new(),
            pending_external_command: None,
            pending_todo_delete: false,
            quit: false,
            last_external_db_version: None,
            load_error: None,
            pending: None,
            chores: Vec::new(),
        };
        proof {
            assert(chore_views(app.chores@) =~= Seq::<ChoreView>::empty());
            assert(app@ == initial_view());
        }
        let req = app.start_reload(Flow::Startup, false);
        match req {
            Some(req) => (app, req),
            None => (app, Request::ListProjects { show_archived: false, filter: None }),
        }
    }

    fn select_project_at_row(&mut self, row: u16, area: Rect) -> (r: Option<Request>)
        ensures
            (final(self)@, request_view(r)) == select_project_at_row_spec(old(self)@, row, area),
    {
        match pane_list_index(area, row) {
            None => None,
            Some(i) => if i >= self.projects.len() {
                None
            } else {
                self.selected_project = i;
                self.begin_load(Flow::Navigate { release: false }, None)
            },
        }
    }

    fn select_todo_at_row(&mut self, row: u16, area: Rect)
        ensures
            final(self)@ == select_todo_at_row_spec(old(self)@, row, area),
    {
        match pane_list_index(area, row) {
            None => {},
            Some(i) => if i < self.todos.len() {
                self.selected_todo = i;
            },
        }
    }

    /// Takes a mouse event over panes drawn at `areas`. Returns the first
    /// request of the operation it starts, if any.
    pub fn handle_mouse_event(&mut self, mouse: MouseInput, areas: PaneAreas) -> (r: Option<
        Request,
    >)
        ensures
            (final(self)@, request_view(r)) == mouse_spec(old(self)@, mouse, areas),
    {
        if self.pending.is_some() {
            return None;
        }
        if self.show_help {
            match mouse.kind {
                MouseKind::ScrollDown => {
                    self.help_scroll = self.help_scroll.saturating_add(1);
                },
                MouseKind::ScrollUp => {
                    self.help_scroll = self.help_scroll.saturating_sub(1);
                },
                _ => {},
            }
            return None;
        }
        if self.modal.is_some() || self.filter_mode {
            return None;
        }
        let pane = match areas.pane_at(mouse.column, mouse.row) {
            None => {
                return None;
            },
            Some(p) => p,
        };
        match mouse.kind {
            MouseKind::LeftDown => {
                self.set_focus(pane);
                match pane {
                    FocusPane::Projects => self.select_project_at_row(mouse.row, areas.projects),
                    FocusPane::Todos => {
                        self.select_todo_at_row(mouse.row, areas.todos);
                        None
                    },
                    _ => None,
                }
            },
            MouseKind::ScrollDown => {
                self.set_focus(pane);
                self.move_down()
            },
            MouseKind::ScrollUp => {
                self.set_focus(pane);
                self.move_up()
            },
            MouseKind::Other => None,
        }
    }

    /// Compares the store's data version with the one last seen: when it
    /// changed, the project list is reloaded.
    pub fn observe_db_version(&mut self, version: i64) -> (r: Option<Request>)
        ensures
            (final(self)@, request_view(r)) == db_version_spec(old(self)@, version),
    {
        if self.pending.is_some() {
            return None;
        }
        match self.last_external_db_version {
            None => {
                self.last_external_db_version = Some(version);
                None
            },
            Some(last) => if last == version {
                None
            } else {
                self.last_external_db_version = Some(version);
                self.start_reload(Flow::ExternalChange, true)
            },
        }
    }

    /// After a git tool ran outside: the selected project's git state is to
    /// be probed again.
    pub fn refresh_after_external_git_tool(&mut self)
        ensures
            final(self)@ == with_status(
                if has_selected(old(self)@) {
                    add_chores(
                        old(self)@,
                        seq![ChoreView::RefreshGitTracking { project_path: sel(old(self)@).path@ }],
                    )
                } else {
                    old(self)@
                },
                "Refreshed git state after lazygit"@,
            ),
    {
        if self.selected_project < self.projects.len() {
            let project_path = self.selected_path();
            self.push_chore(Chore::RefreshGitTracking { project_path });
        }
        self.set_status("Refreshed git state after lazygit");
    }
}


/// Moving focus right then left, or left then right, comes back to the same pane.
pub proof fn law_focus_round_trip(f: FocusPane)
    ensures
        f.next_spec().prev_spec() == f,
        f.prev_spec().next_spec() == f,
{
}

/// On the main screen Tab followed by BackTab leaves the focus where it was.
pub proof fn law_tab_backtab_restores_focus(s: AppView, m1: KeyModifiers, m2: KeyModifiers)
    requires
        s.pending is None,
        !s.show_help,
        s.modal is None,
        !s.filter_mode,
    ensures
        key_spec(
            key_spec(s, KeyInput { code: KeyCode::Tab, modifiers: m1 }).0,
            KeyInput { code: KeyCode::BackTab, modifiers: m2 },
        ).0.focus == s.focus,
{
}

/// While the help overlay is open no key quits, queues an outside program,
/// asks the store or touches a dialog or the filter.
pub proof fn law_help_blocks_shortcuts(s: AppView, key: KeyInput)
    requires
        s.pending is None,
        s.show_help,
    ensures
        ({
            let (t, r) = key_spec(s, key);
            &&& r is None
            &&& t.quit == s.quit
            &&& t.pending_external_command == s.pending_external_command
            &&& t.modal == s.modal
            &&& t.filter_input == s.filter_input
            &&& t.focus == s.focus
        }),
{
}

/// While a dialog is open keys stay in it: none quits, queues an outside
/// program or moves the focus.
pub proof fn law_modal_keeps_keys_local(s: AppView, key: KeyInput)
    requires
        s.pending is None,
        !s.show_help,
        s.modal is Some,
    ensures
        ({
            let (t, r) = key_spec(s, key);
            &&& t.quit == s.quit
            &&& t.pending_external_command == s.pending_external_command
            &&& t.focus == s.focus
            &&& t.filter_input == s.filter_input
        }),
{
}

/// Esc closes any open dialog and says so.
pub proof fn law_escape_cancels_dialog(s: AppView, m: KeyModifiers)
    requires
        s.pending is None,
        !s.show_help,
        s.modal is Some,
    ensures
        ({
            let (t, r) = key_spec(s, KeyInput { code: KeyCode::Esc, modifiers: m });
            &&& r is None
            &&& t.modal is None
            &&& t.status == "Canceled"@
        }),
{
}

/// While the filter line is open keys stay in it: none quits, queues an
/// outside program or moves the focus.
pub proof fn law_filter_keeps_keys_local(s: AppView, key: KeyInput)
    requires
        s.pending is None,
        !s.show_help,
        s.modal is None,
        s.filter_mode,
    ensures
        ({
            let (t, r) = key_spec(s, key);
            &&& t.quit == s.quit
            &&& t.pending_external_command == s.pending_external_command
            &&& t.focus == s.focus
            &&& t.modal == s.modal
        }),
{
}

/// The main screen: no store request outstanding and no help, dialog or
/// filter open.
pub open spec fn on_main_screen(s: AppView) -> bool {
    &&& s.pending is None
    &&& !s.show_help
    &&& s.modal is None
    &&& !s.filter_mode
}

pub open spec fn key_with(s: AppView, code: KeyCode, m: KeyModifiers) -> (AppView, Option<RequestView>) {
    key_spec(s, KeyInput { code, modifiers: m })
}

/// The request that moves todo `t` one place in `direction`.
pub open spec fn asks_move(r: Option<RequestView>, t: Todo, direction: MoveDirection) -> bool {
    match r {
        Some(RequestView::MoveDbTodo { todo_id, direction: d }) => todo_id == t.id && d == direction,
        Some(RequestView::MoveMarkdownTodo { line, direction: d, .. }) => line == t.id as usize && d
            == direction,
        _ => false,
    }
}

/// In the Todos pane, K, PgUp and Shift+Up move the active todo up; J, PgDn
/// and Shift+Down move it down: each asks the store to move it.
pub proof fn law_todo_move_keys(s: AppView, m: KeyModifiers)
    requires
        on_main_screen(s),
        s.focus == FocusPane::Todos,
    ensures
        ({
            let s1 = AppView { pending_todo_delete: false, ..s };
            &&& key_with(s, KeyCode::Char('K'), m) == move_todo_spec(s1, MoveDirection::Up)
            &&& key_with(s, KeyCode::PageUp, m) == move_todo_spec(s1, MoveDirection::Up)
            &&& shift_only(m) ==> key_with(s, KeyCode::Up, m) == move_todo_spec(s1, MoveDirection::Up)
            &&& key_with(s, KeyCode::Char('J'), m) == move_todo_spec(s1, MoveDirection::Down)
            &&& key_with(s, KeyCode::PageDown, m) == move_todo_spec(s1, MoveDirection::Down)
            &&& shift_only(m) ==> key_with(s, KeyCode::Down, m) == move_todo_spec(
                s1,
                MoveDirection::Down,
            )
            &&& has_selected_todo(s) ==> asks_move(
                move_todo_spec(s1, MoveDirection::Up).1,
                sel_todo(s),
                MoveDirection::Up,
            )
            &&& has_selected_todo(s) ==> asks_move(
                move_todo_spec(s1, MoveDirection::Down).1,
                sel_todo(s),
                MoveDirection::Down,
            )
        }),
{
}

/// Tab, l and Right move the focus to the next pane; BackTab, h and Left to
/// the previous one; 1 to 4 pick a pane. Each cancels a pending todo delete
/// and changes nothing else.
pub proof fn law_focus_keys(s: AppView, m: KeyModifiers)
    requires
        on_main_screen(s),
    ensures
        ({
            let next = (set_focus_spec(s, s.focus.next_spec()), None::<RequestView>);
            let prev = (set_focus_spec(s, s.focus.prev_spec()), None::<RequestView>);
            &&& key_with(s, KeyCode::Tab, m) == next
            &&& key_with(s, KeyCode::Char('l'), m) == next
            &&& key_with(s, KeyCode::Right, m) == next
            &&& key_with(s, KeyCode::BackTab, m) == prev
            &&& key_with(s, KeyCode::Char('h'), m) == prev
            &&& key_with(s, KeyCode::Left, m) == prev
            &&& key_with(s, KeyCode::Char('1'), m) == (
                set_focus_spec(s, FocusPane::Projects),
                None::<RequestView>,
            )
            &&& key_with(s, KeyCode::Char('2'), m) == (
                set_focus_spec(s, FocusPane::Todos),
                None::<RequestView>,
            )
            &&& key_with(s, KeyCode::Char('3'), m) == (
                set_focus_spec(s, FocusPane::Agents),
                None::<RequestView>,
            )
            &&& key_with(s, KeyCode::Char('4'), m) == (
                set_focus_spec(s, FocusPane::GitHistory),
                None::<RequestView>,
            )
        }),
{
}

/// On the main screen, with a project selected, g queues lazygit and t a
/// terminal for that project.
pub proof fn law_external_shortcuts(s: AppView, m: KeyModifiers)
    requires
        on_main_screen(s),
        has_selected(s),
        !s.quit,
    ensures
        ({
            let (g, rg) = key_with(s, KeyCode::Char('g'), m);
            let (t, rt) = key_with(s, KeyCode::Char('t'), m);
            &&& rg is None && rt is None
            &&& g.pending_external_command == Some(
                ExternalCommandView::OpenLazyGit { project_path: sel(s).path@ },
            )
            &&& t.pending_external_command == Some(
                ExternalCommandView::OpenProjectTerminal {
                    project_path: sel(s).path@,
                    project_name: sel(s).name@,
                },
            )
            &&& !g.quit && !t.quit
        }),
{
}

/// In the Todos pane the first d only arms the delete; a second d asks the
/// store to delete the active todo.
pub proof fn law_double_d_deletes(s: AppView, m: KeyModifiers)
    requires
        on_main_screen(s),
        s.focus == FocusPane::Todos,
        has_selected_todo(s),
    ensures
        ({
            let (t, r) = key_with(s, KeyCode::Char('d'), m);
            &&& !s.pending_todo_delete ==> {
                &&& t.pending_todo_delete
                &&& t.status == "Press d again to delete todo"@
                &&& r is None
                &&& t.todos == s.todos
            }
            &&& s.pending_todo_delete ==> {
                &&& !t.pending_todo_delete
                &&& match r {
                    Some(RequestView::DeleteDbTodo { todo_id }) => todo_id == sel_todo(s).id,
                    Some(RequestView::DeleteMarkdownTodo { line, .. }) => line == sel_todo(s).id as usize,
                    _ => false,
                }
            }
        }),
{
}

/// The help overlay: Esc, ? and q close it and reset its scroll; j/Down and
/// k/Up scroll one line, PgDn and PgUp twelve, Home goes to the top. None of
/// them asks the store.
pub proof fn law_help_keys(s: AppView, m: KeyModifiers)
    requires
        s.pending is None,
        s.show_help,
    ensures
        ({
            let closed = AppView { show_help: false, help_scroll: 0, ..s };
            &&& key_with(s, KeyCode::Esc, m) == (closed, None::<RequestView>)
            &&& key_with(s, KeyCode::Char('?'), m) == (closed, None::<RequestView>)
            &&& key_with(s, KeyCode::Char('q'), m) == (closed, None::<RequestView>)
            &&& key_with(s, KeyCode::Char('j'), m).0.help_scroll == sat_add(s.help_scroll, 1)
            &&& key_with(s, KeyCode::Down, m).0.help_scroll == sat_add(s.help_scroll, 1)
            &&& key_with(s, KeyCode::Char('k'), m).0.help_scroll == sat_sub(s.help_scroll, 1)
            &&& key_with(s, KeyCode::Up, m).0.help_scroll == sat_sub(s.help_scroll, 1)
            &&& key_with(s, KeyCode::PageDown, m).0.help_scroll == sat_add(s.help_scroll, 12)
            &&& key_with(s, KeyCode::PageUp, m).0.help_scroll == sat_sub(s.help_scroll, 12)
            &&& key_with(s, KeyCode::Home, m).0.help_scroll == 0
            &&& key_with(s, KeyCode::Char('j'), m).1 is None
            &&& key_with(s, KeyCode::PageDown, m).1 is None
        }),
{
}

/// ? on the main screen opens the help overlay at its top.
pub proof fn law_question_mark_opens_help(s: AppView, m: KeyModifiers)
    requires
        on_main_screen(s),
    ensures
        key_with(s, KeyCode::Char('?'), m).0.show_help,
        key_with(s, KeyCode::Char('?'), m).0.help_scroll == 0,
        key_with(s, KeyCode::Char('?'), m).1 is None,
{
}

/// / opens the filter line. In it, Esc and q close it ("Filter closed"),
/// Enter closes it ("Filter applied"), and a typed character other than q
/// goes into the filter at the cursor and the projects are listed again
/// with the new filter.
pub proof fn law_filter_keys(s: AppView, m: KeyModifiers, c: char)
    requires
        s.pending is None,
        !s.show_help,
        s.modal is None,
    ensures
        !s.filter_mode ==> key_with(s, KeyCode::Char('/'), m).0.filter_mode,
        s.filter_mode ==> {
            let esc = key_with(s, KeyCode::Esc, m);
            let q = key_with(s, KeyCode::Char('q'), m);
            let enter = key_with(s, KeyCode::Enter, m);
            &&& !esc.0.filter_mode && esc.0.status == "Filter closed"@ && esc.1 is None
            &&& !q.0.filter_mode && q.0.status == "Filter closed"@ && q.1 is None
            &&& !enter.0.filter_mode && enter.0.status == "Filter applied"@ && enter.1 is None
        },
        s.filter_mode && c != 'q' && m.typing_spec() ==> {
            let (t, r) = key_with(s, KeyCode::Char(c), m);
            let k = cursor_pos(s.filter_input, s.filter_cursor as nat);
            &&& t.filter_mode
            &&& t.filter_input == insert_spec(s.filter_input, k, c)
            &&& r == Some(reload_request(t))
        },
{
}

/// j and Down (k and Up) move down (up) one row in the focused list, staying
/// within it, or scroll the focused text pane by one line. With Shift in the
/// Todos pane the arrows move the todo instead (see `law_todo_move_keys`).
pub proof fn law_navigation_keys(s: AppView, m: KeyModifiers)
    requires
        on_main_screen(s),
        !moves_todo(s, KeyInput { code: KeyCode::Down, modifiers: m }),
    ensures
        ({
            let s1 = AppView { pending_todo_delete: false, ..s };
            &&& key_with(s, KeyCode::Char('j'), m) == move_down_spec(s1)
            &&& key_with(s, KeyCode::Down, m) == move_down_spec(s1)
            &&& key_with(s, KeyCode::Char('k'), m) == move_up_spec(s1)
            &&& key_with(s, KeyCode::Up, m) == move_up_spec(s1)
            &&& s.focus == FocusPane::Todos && s.todos.len() > 0 ==> {
                &&& move_down_spec(s1).0.selected_todo == (if s.selected_todo < s.todos.len() - 1 {
                    s.selected_todo + 1
                } else {
                    s.todos.len() - 1
                }) as usize
                &&& move_up_spec(s1).0.selected_todo == (if s.selected_todo == 0 {
                    0
                } else {
                    s.selected_todo - 1
                }) as usize
                &&& move_down_spec(s1).1 is None && move_up_spec(s1).1 is None
            }
            &&& s.focus == FocusPane::Agents ==> move_down_spec(s1).0.agents_scroll == sat_add(
                s.agents_scroll,
                1,
            ) && move_up_spec(s1).0.agents_scroll == sat_sub(s.agents_scroll, 1)
            &&& s.focus == FocusPane::GitHistory ==> move_down_spec(s1).0.git_history_scroll
                == sat_add(s.git_history_scroll, 1) && move_up_spec(s1).0.git_history_scroll
                == sat_sub(s.git_history_scroll, 1)
        }),
{
    let s1 = AppView { pending_todo_delete: false, ..s };
    assert(key_with(s, KeyCode::Char('j'), m) == move_down_spec(s1));
    assert(key_with(s, KeyCode::Down, m) == move_down_spec(s1));
    assert(key_with(s, KeyCode::Char('k'), m) == move_up_spec(s1));
    assert(key_with(s, KeyCode::Up, m) == move_up_spec(s1));
    if s.focus == FocusPane::Todos && s.todos.len() > 0 {
        assert(move_down_spec(s1).1 is None);
        assert(move_down_spec(s1).0.selected_todo == (if s.selected_todo < s.todos.len() - 1 {
            s.selected_todo + 1
        } else {
            s.todos.len() - 1
        }) as usize);
        assert(move_up_spec(s1).0.selected_todo == (if s.selected_todo == 0 {
            0
        } else {
            s.selected_todo - 1
        }) as usize);
    }
    if s.focus == FocusPane::Agents {
        assert(move_down_spec(s1).0.agents_scroll == sat_add(s.agents_scroll, 1));
        assert(move_up_spec(s1).0.agents_scroll == sat_sub(s.agents_scroll, 1));
    }
}

/// A delete confirmation: n or N cancels it, deleting nothing; Enter, y or
/// Y closes it and asks the store to delete what it names.
pub proof fn law_confirm_keys(
    s: AppView,
    m: KeyModifiers,
    title: Seq<char>,
    message: Seq<char>,
    id: i64,
)
    requires
        s.pending is None,
        !s.show_help,
        s.modal == Some(
            ModalView::Confirm { title, message, action: ConfirmAction::DeleteProject(id) },
        ),
    ensures
        ({
            let n = key_with(s, KeyCode::Char('n'), m);
            let big_n = key_with(s, KeyCode::Char('N'), m);
            &&& n.0.modal is None && n.0.status == "Canceled"@ && n.1 is None
            &&& big_n.0.modal is None && big_n.0.status == "Canceled"@ && big_n.1 is None
        }),
        key_with(s, KeyCode::Enter, m).0.modal is None,
        key_with(s, KeyCode::Enter, m).1 == Some(RequestView::DeleteProject { project_id: id }),
        key_with(s, KeyCode::Char('y'), m).1 == Some(RequestView::DeleteProject { project_id: id }),
        key_with(s, KeyCode::Char('Y'), m).1 == Some(RequestView::DeleteProject { project_id: id }),
{
}

/// In the Projects pane with a project selected: x asks the store to flip
/// that project's archived flag, and once the list is reloaded the status
/// says "Archived <name>" or "Unarchived <name>" for the new flag; m asks it
/// to switch the project's todo storage to the other one (TODO.md for the
/// database, the database for TODO.md); r opens the rename dialog on the
/// current name; a opens an empty add-project dialog.
pub proof fn law_project_keys(s: AppView, m: KeyModifiers, t: AppView)
    requires
        on_main_screen(s),
        s.focus == FocusPane::Projects,
        has_selected(s),
    ensures
        ({
            let p = sel(s);
            let (x, rx) = key_with(s, KeyCode::Char('x'), m);
            &&& rx == Some(RequestView::SetProjectArchived { project_id: p.id, archived: !p.archived })
            &&& x.pending matches Some((flow, _)) && complete_spec(t, flow, Ok(())).0.status == (
            if p.archived {
                "Unarchived "@
            } else {
                "Archived "@
            }) + p.name@
        }),
        key_with(s, KeyCode::Char('m'), m).1 == Some(
            RequestView::SetTodoSource {
                project_id: sel(s).id,
                source: if sel(s).todo_source@ == "markdown"@ {
                    "db"@
                } else {
                    "markdown"@
                },
            },
        ),
        key_with(s, KeyCode::Char('r'), m).1 is None,
        key_with(s, KeyCode::Char('r'), m).0.modal matches Some(
            ModalView::Input { value, purpose: InputPurpose::RenameProject(id), .. },
        ) && value == sel(s).name@ && id == sel(s).id,
        key_with(s, KeyCode::Char('a'), m).0.modal matches Some(
            ModalView::AddProject { path, name, .. },
        ) && path.len() == 0 && name.len() == 0,
{
}

/// In the Todos pane: n opens an empty "Add todo" dialog for the selected
/// project; e and Enter open the edit dialog on the active todo's title;
/// Space asks the store to flip the active todo's done mark.
pub proof fn law_todo_keys(s: AppView, m: KeyModifiers)
    requires
        on_main_screen(s),
        s.focus == FocusPane::Todos,
    ensures
        has_selected(s) ==> (key_with(s, KeyCode::Char('n'), m).0.modal matches Some(
            ModalView::Input { value, purpose: InputPurpose::AddTodo(pid), .. },
        ) && value.len() == 0 && pid == sel(s).id),
        has_selected_todo(s) ==> (key_with(s, KeyCode::Char('e'), m).0.modal matches Some(
            ModalView::Input { value, purpose: InputPurpose::EditTodo(tid), .. },
        ) && value == sel_todo(s).title@ && tid == sel_todo(s).id),
        has_selected_todo(s) ==> (key_with(s, KeyCode::Enter, m).0.modal matches Some(
            ModalView::Input { value, purpose: InputPurpose::EditTodo(tid), .. },
        ) && value == sel_todo(s).title@ && tid == sel_todo(s).id),
        has_selected_todo(s) ==> match key_with(s, KeyCode::Char(' '), m).1 {
            Some(RequestView::ToggleDbTodo { todo_id }) => todo_id == sel_todo(s).id,
            Some(RequestView::ToggleMarkdownTodo { line, .. }) => line == sel_todo(s).id as usize,
            _ => false,
        },
{
}

/// On the main screen: A flips whether archived projects are shown and lists
/// the projects again that way; f clears the caches and lists the projects
/// again; q only tells how to quit.
pub proof fn law_list_and_quit_keys(s: AppView, m: KeyModifiers)
    requires
        on_main_screen(s),
        !s.quit,
    ensures
        key_with(s, KeyCode::Char('A'), m).0.show_archived == !s.show_archived,
        key_with(s, KeyCode::Char('A'), m).1 == Some(
            RequestView::ListProjects {
                show_archived: !s.show_archived,
                filter: filter_arg(s.filter_input),
            },
        ),
        key_with(s, KeyCode::Char('f'), m).1 == Some(
            RequestView::ListProjects {
                show_archived: s.show_archived,
                filter: filter_arg(s.filter_input),
            },
        ),
        key_with(s, KeyCode::Char('f'), m).0.chores.contains(ChoreView::ClearCaches),
        !key_with(s, KeyCode::Char('q'), m).0.quit,
        key_with(s, KeyCode::Char('q'), m).0.status == "Press Q to quit"@,
        key_with(s, KeyCode::Char('q'), m).1 is None,
{
    let f = key_with(s, KeyCode::Char('f'), m).0;
    assert(f.chores.last() == ChoreView::ClearCaches);
}

/// Only Q on the main screen quits.
#[verifier::rlimit(50)]
pub proof fn law_quit_only_from_main_screen(s: AppView, key: KeyInput)
    requires
        !s.quit,
    ensures
        key_spec(s, key).0.quit ==> {
            &&& s.pending is None
            &&& !s.show_help
            &&& s.modal is None
            &&& !s.filter_mode
            &&& key.code == KeyCode::Char('Q')
        },
{
}


/// Finishing an operation asks the store for more exactly when it leaves an
/// operation waiting.
pub proof fn lemma_complete_waits_iff_asks(s: AppView, flow: FlowView, res: Result<(), Seq<char>>)
    requires
        s.pending is None,
    ensures
        (complete_spec(s, flow, res).1 is Some) == (complete_spec(s, flow, res).0.pending is Some),
{
}

proof fn lemma_load_or_complete_waits(s: AppView, flow: FlowView)
    requires
        s.pending is None,
    ensures
        (load_or_complete_spec(s, flow).1 is Some) == (load_or_complete_spec(s, flow).0.pending
            is Some),
{
    lemma_complete_waits_iff_asks(cleared(s), flow, Ok(()));
}

proof fn lemma_move_waits(s: AppView)
    requires
        s.pending is None,
    ensures
        (move_down_spec(s).1 is Some) == (move_down_spec(s).0.pending is Some),
        (move_up_spec(s).1 is Some) == (move_up_spec(s).0.pending is Some),
{
    if s.projects.len() > 0 {
        let n: int = if s.selected_project == 0 {
            0
        } else {
            s.selected_project - 1
        };
        lemma_load_or_complete_waits(
            AppView { selected_project: n as usize, ..s },
            FlowView::Navigate { release: true },
        );
        let m: int = if s.selected_project < s.projects.len() - 1 {
            s.selected_project + 1
        } else {
            s.projects.len() - 1
        };
        lemma_load_or_complete_waits(
            AppView { selected_project: m as usize, ..s },
            FlowView::Navigate { release: true },
        );
    }
}

proof fn lemma_char_key_waits(s: AppView, c: char)
    requires
        s.pending is None,
    ensures
        (char_key_spec(s, c).1 is Some) == (char_key_spec(s, c).0.pending is Some),
{
    lemma_move_waits(s);
}

#[verifier::rlimit(50)]
#[verifier::spinoff_prover]
proof fn lemma_normal_key_waits(s: AppView, key: KeyInput)
    requires
        s.pending is None,
    ensures
        (normal_key_spec(s, key).1 is Some) == (normal_key_spec(s, key).0.pending is Some),
{
    let s1 = if key.code == KeyCode::Char('d') {
        s
    } else {
        AppView { pending_todo_delete: false, ..s }
    };
    lemma_move_waits(s1);
    if let KeyCode::Char(c) = key.code {
        lemma_char_key_waits(s1, c);
    }
}

proof fn lemma_modal_key_waits(s: AppView, key: KeyInput)
    requires
        s.pending is None,
    ensures
        (modal_key_spec(s, key).1 is Some) == (modal_key_spec(s, key).0.pending is Some),
{
}

/// A key press leaves an operation waiting for the store exactly when it
/// hands out a request.
pub proof fn law_key_waits_iff_asks(s: AppView, key: KeyInput)
    requires
        s.pending is None,
    ensures
        (key_spec(s, key).1 is Some) == (key_spec(s, key).0.pending is Some),
{
    if !s.show_help {
        if s.modal is Some {
            lemma_modal_key_waits(s, key);
        } else if !s.filter_mode {
            lemma_normal_key_waits(s, key);
        }
    }
}

/// Each reply of the store leaves an operation waiting exactly when it is
/// answered with a further request.
pub proof fn law_resume_waits_iff_asks(s: AppView, reply: ReplyView)
    ensures
        s.pending is None ==> resume_spec(s, reply) == (s, None::<RequestView>),
        s.pending is Some ==> (resume_spec(s, reply).1 is Some) == (resume_spec(s, reply).0.pending
            is Some),
{
    if let Some((flow, stage)) = s.pending {
        let s0 = AppView { pending: None, ..s };
        lemma_complete_waits_iff_asks(s0, flow, Err(reply_err(reply)));
        match stage {
            Stage::Mutation => {
                lemma_complete_waits_iff_asks(cleared(s0), flow, Ok(()));
                if let ReplyView::CreatedTodo(id) = reply {
                    lemma_complete_waits_iff_asks(
                        cleared(s0),
                        FlowView::AddedTodo { todo_id: id },
                        Ok(()),
                    );
                }
            },
            Stage::Counts { refresh_git, previous_id } => {
                if let ReplyView::Counts(cs) = reply {
                    let s1 = AppView { active_todo_counts: cs, ..s0 };
                    lemma_complete_waits_iff_asks(
                        AppView {
                            selected_project: 0,
                            todos: Seq::empty(),
                            selected_todo: 0,
                            chores: s1.chores.push(ChoreView::StopGitRefresh),
                            ..s1
                        },
                        flow,
                        Ok(()),
                    );
                }
            },
            Stage::Todos { reload } => {
                if let ReplyView::Todos(ts) = reply {
                    lemma_complete_waits_iff_asks(reload_tail(applied(s0, ts), reload), flow, Ok(()));
                }
            },
            _ => {},
        }
    }
}


impl AppState {
    pub fn should_quit(&self) -> (r: bool)
        ensures
            r == self.quit,
    {
        self.quit
    }

    /// Hands out the outside program queued by the last key press, once.
    pub fn take_pending_external_command(&mut self) -> (r: Option<ExternalCommand>)
        ensures
            command_view(r) == old(self)@.pending_external_command,
            final(self)@ == (AppView { pending_external_command: None, ..old(self)@ }),
    {
        self.pending_external_command.take()
    }

    /// Hands out the cache upkeep left so far, once.
    pub fn take_chores(&mut self) -> (r: Vec<Chore>)
        ensures
            chore_views(r@) == old(self)@.chores,
            final(self)@ == (AppView { chores: Seq::empty(), ..old(self)@ }),
    {
        let mut out: Vec<Chore> = Vec::new();
        std::mem::swap(&mut out, &mut self.chores);
        proof {
            assert(chore_views(self.chores@) =~= Seq::<ChoreView>::empty());
        }
        out
    }

    /// Remembers the store's data version as seen now.
    pub fn sync_db_version(&mut self, version: i64)
        ensures
            final(self)@ == (AppView { last_external_db_version: Some(version), ..old(self)@ }),
    {
        self.last_external_db_version = Some(version);
    }

    pub fn selected_project(&self) -> (r: Option<&Project>)
        ensures
            has_selected(self@) ==> r == Some(&sel(self@)),
            !has_selected(self@) ==> r is None,
    {
        if self.selected_project < self.projects.len() {
            Some(&self.projects[self.selected_project])
        } else {
            None
        }
    }

    pub fn selected_todo(&self) -> (r: Option<&Todo>)
        ensures
            has_selected_todo(self@) ==> r == Some(&sel_todo(self@)),
            !has_selected_todo(self@) ==> r is None,
    {
        if self.selected_todo < self.todos.len() {
            Some(&self.todos[self.selected_todo])
        } else {
            None
        }
    }

    pub fn project_count(&self) -> (r: usize)
        ensures
            r == self@.projects.len(),
    {
        self.projects.len()
    }

    pub fn todo_count(&self) -> (r: usize)
        ensures
            r == self@.todos.len(),
    {
        self.todos.len()
    }

    /// Open todos of the project as last counted; zero when never counted.
    pub fn project_active_todo_count(&self, project_id: i64) -> (r: usize)
        ensures
            r == count_of(self@.active_todo_counts, project_id),
    {
        let k = find_count(&self.active_todo_counts, project_id);
        if k < self.active_todo_counts.len() {
            self.active_todo_counts[k].1
        } else {
            0
        }
    }
}


/// Typing a character into a text field and then pressing Backspace gives
/// back the text, with the cursor on the character boundary where it was.
pub proof fn law_type_then_backspace_restores(
    v: Seq<char>,
    c: usize,
    ch: char,
    typed: KeyModifiers,
    erase: KeyModifiers,
)
    requires
        typed.typing_spec(),
        crate::launch::utf8_len(v) + 4 <= usize::MAX,
    ensures
        ({
            let (v1, c1) = edit_field(v, c, KeyInput { code: KeyCode::Char(ch), modifiers: typed });
            let (v2, c2) = edit_field(v1, c1, KeyInput { code: KeyCode::Backspace, modifiers: erase });
            v2 == v && c2 == clamp_spec(v, c as nat)
        }),
{
    let k = cursor_pos(v, c as nat);
    crate::app::input::lemma_pos_from_bounds(v, c as nat, 0);
    let v1 = insert_spec(v, k, ch);
    crate::app::input::lemma_insert_len(v, k, ch);
    crate::app::input::lemma_off_mono(v1, k + 1, v1.len() as int);
    assert(v1.take(v1.len() as int) =~= v1);
    let c1 = off(v1, k + 1) as usize;
    assert(c1 as nat == off(v1, k + 1));
    crate::app::input::lemma_cursor_pos_of_boundary(v1, k + 1);
    assert(cursor_pos(v1, c1 as nat) == k + 1);
    assert(v1.remove(k) =~= v);
    assert(v1.take(k) =~= v.take(k));
    assert(off(v1, k) == off(v, k));
    crate::app::input::lemma_off_mono(v1, k, k + 1);
    let key1 = KeyInput { code: KeyCode::Char(ch), modifiers: typed };
    let key2 = KeyInput { code: KeyCode::Backspace, modifiers: erase };
    assert(edit_field(v, c, key1) == (v1, c1));
    assert(edit_field(v1, c1, key2) == (v1.remove(k), off(v1, k) as usize));
}

} // verus!
