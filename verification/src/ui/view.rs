//! The text the interface draws: pane titles, list rows, the footer's
//! shortcut lines, the help overlay and the dialogs. Drawing it is left to
//! the terminal code; what it says is decided here.
use vstd::prelude::*;

use crate::app::state::{
    AddProjectField, AddProjectModal, ConfirmModal, FocusPane, Modal, SingleInputModal,
};
use crate::domain::project::Project;
use crate::git::{label_spec, GitHistory, GitProjectStatus, GitRelease};
use crate::numfmt::{decimal, digit_char, u64_chars};
use crate::text::{concat, owned, push_char, push_chars, push_str};

verus! {

/// `[1]`-style count of open todos: the number right-aligned in two columns,
/// `9+` from ten on, then a space.
pub fn project_active_todo_count_prefix(count: usize) -> (r: String)
    ensures
        r@ == if count > 9 {
            "9+ "@
        } else {
            seq![' ', digit_char(count as nat), ' ']
        },
{
    if count > 9 {
        return owned("9+ ");
    }
    let mut s = String::new();
    push_char(&mut s, ' ');
    let d = u64_chars(count as u64);
    proof {
        reveal_with_fuel(decimal, 2);
    }
    push_chars(&mut s, d.as_slice());
    push_char(&mut s, ' ');
    proof {
        assert(s@ =~= seq![' ', digit_char(count as nat), ' ']);
    }
    s
}

pub open spec fn release_suffix_spec(release: GitRelease) -> Seq<char> {
    match release {
        GitRelease::Tagged { tag, .. } => "  "@ + tag@,
        GitRelease::NoTags => Seq::empty(),
        GitRelease::NoCommits => "  no-commits"@,
        GitRelease::NotGit => Seq::empty(),
        GitRelease::Error(_) => "  tag-error"@,
    }
}

/// What follows a project's name in the list: its latest tag.
pub fn project_release_suffix(release: &GitRelease) -> (r: String)
    ensures
        r@ == release_suffix_spec(*release),
{
    match release {
        GitRelease::Tagged { tag, .. } => concat("  ", tag.as_str()),
        GitRelease::NoTags => String::new(),
        GitRelease::NoCommits => owned("  no-commits"),
        GitRelease::NotGit => String::new(),
        GitRelease::Error(_) => owned("  tag-error"),
    }
}

pub open spec fn scrolled_title_spec(title: Seq<char>, scroll: u16) -> Seq<char> {
    if scroll == 0 {
        title
    } else {
        title + " +"@ + decimal(scroll as nat)
    }
}

/// A pane title with how far it is scrolled, once it is.
pub fn scrolled_title(title: &str, scroll: u16) -> (r: String)
    ensures
        r@ == scrolled_title_spec(title@, scroll),
{
    if scroll == 0 {
        return owned(title);
    }
    let mut s = concat(title, " +");
    let d = u64_chars(scroll as u64);
    push_chars(&mut s, d.as_slice());
    s
}

pub open spec fn release_line_spec(release: GitRelease) -> Seq<char> {
    match release {
        GitRelease::Tagged { tag, commits_ahead } => if commits_ahead == 0 {
            "Release: "@ + tag@ + " (HEAD at tag)"@
        } else {
            "Release: "@ + tag@ + " (+"@ + decimal(commits_ahead as nat) + " commits)"@
        },
        GitRelease::NoTags => "Release: no tags in history"@,
        GitRelease::NoCommits => "Release: no commits yet"@,
        GitRelease::NotGit => "Release: n/a (not a git repository)"@,
        GitRelease::Error(err) => "Release: read error ("@ + err@ + ")"@,
    }
}

/// The first line of the git history pane.
pub fn release_line(release: &GitRelease) -> (r: String)
    ensures
        r@ == release_line_spec(*release),
{
    match release {
        GitRelease::Tagged { tag, commits_ahead } => {
            let mut s = concat("Release: ", tag.as_str());
            if *commits_ahead == 0 {
                push_str(&mut s, " (HEAD at tag)");
            } else {
                push_str(&mut s, " (+");
                let d = u64_chars(*commits_ahead as u64);
                push_chars(&mut s, d.as_slice());
                push_str(&mut s, " commits)");
            }
            s
        },
        GitRelease::NoTags => owned("Release: no tags in history"),
        GitRelease::NoCommits => owned("Release: no commits yet"),
        GitRelease::NotGit => owned("Release: n/a (not a git repository)"),
        GitRelease::Error(err) => {
            let mut s = concat("Release: read error (", err.as_str());
            push_str(&mut s, ")");
            s
        },
    }
}

pub open spec fn history_lines_spec(history: GitHistory) -> Seq<Seq<char>> {
    match history {
        GitHistory::NotGit => seq!["Not a git repository"@],
        GitHistory::Empty => seq!["No commits yet"@],
        GitHistory::Error(err) => seq!["Read error: "@ + err@],
        GitHistory::Lines(lines) => lines@.map_values(|l: String| l@),
    }
}

/// The lines of the git history pane below the release line.
pub fn history_lines(history: &GitHistory) -> (r: Vec<String>)
    ensures
        r@.map_values(|l: String| l@) == history_lines_spec(*history),
{
    let mut out: Vec<String> = Vec::new();
    match history {
        GitHistory::NotGit => out.push(owned("Not a git repository")),
        GitHistory::Empty => out.push(owned("No commits yet")),
        GitHistory::Error(err) => out.push(concat("Read error: ", err.as_str())),
        GitHistory::Lines(lines) => {
            let mut i: usize = 0;
            while i < lines.len()
                invariant
                    i <= lines@.len(),
                    out@.len() == i,
                    forall|j: int| 0 <= j < i ==> out@[j]@ == lines@[j]@,
                decreases lines@.len() - i,
            {
                let c = lines[i].clone();
                out.push(c);
                i = i + 1;
            }
        },
    }
    proof {
        assert(out@.map_values(|l: String| l@) =~= history_lines_spec(*history));
    }
    out
}

/// Title of the projects pane.
pub fn projects_title(filter_input: &str) -> (r: &'static str)
    ensures
        r@ == if filter_input@.len() == 0 {
            "[1] Projects"@
        } else {
            "[1] Projects (filtered)"@
        },
{
    if filter_input.unicode_len() == 0 {
        "[1] Projects"
    } else {
        "[1] Projects (filtered)"
    }
}

/// What the projects pane says when it lists nothing: a heading and a hint.
pub fn empty_projects_lines(filter_input: &str) -> (r: (&'static str, &'static str))
    ensures
        crate::text::trim(filter_input@).len() == 0 ==> r.0@ == "No projects found"@ && r.1@
            == "Use `prm add .` or press `a` in this pane."@,
        crate::text::trim(filter_input@).len() > 0 ==> r.0@ == "No projects match the filter"@
            && r.1@ == "Edit the filter below, or press Esc to close it."@,
{
    let cs = crate::text::chars_of(filter_input);
    let t = crate::text::trim_chars(cs.as_slice());
    if t.len() == 0 {
        ("No projects found", "Use `prm add .` or press `a` in this pane.")
    } else {
        ("No projects match the filter", "Edit the filter below, or press Esc to close it.")
    }
}

/// Title of the todos pane.
pub fn todos_title(markdown: bool) -> (r: &'static str)
    ensures
        r@ == if markdown {
            "[2] Todos (TODO.md)"@
        } else {
            "[2] Todos"@
        },
{
    if markdown {
        "[2] Todos (TODO.md)"
    } else {
        "[2] Todos"
    }
}

/// The check box in front of a todo.
pub fn todo_check(done: bool) -> (r: &'static str)
    ensures
        r@ == if done {
            "[x] "@
        } else {
            "[ ] "@
        },
{
    if done {
        "[x] "
    } else {
        "[ ] "
    }
}

/// The archive marker in front of a project.
pub fn project_marker(archived: bool) -> (r: &'static str)
    ensures
        r@ == if archived {
            "[A] "@
        } else {
            "    "@
        },
{
    if archived {
        "[A] "
    } else {
        "    "
    }
}

/// How a piece of footer or help text is drawn.
#[derive(Debug, Clone, Copy, PartialEq, Eq, Structural)]
pub enum SpanRole {
    Raw,
    Muted,
    Key,
    Header,
}

/// A piece of a line with the way it is drawn.
#[derive(Debug, Clone, PartialEq, Eq)]
pub struct Span {
    pub text: String,
    pub role: SpanRole,
}

pub open spec fn span_views(v: Seq<Span>) -> Seq<(Seq<char>, SpanRole)> {
    v.map_values(|s: Span| (s.text@, s.role))
}

fn push_span(v: &mut Vec<Span>, text: &str, role: SpanRole)
    ensures
        span_views(final(v)@) == span_views(old(v)@).push((text@, role)),
{
    let ghost before = v@;
    v.push(Span { text: owned(text), role });
    proof {
        assert(span_views(v@) =~= span_views(before).push((text@, role)));
    }
}

pub open spec fn key(t: Seq<char>) -> (Seq<char>, SpanRole) {
    (t, SpanRole::Key)
}

pub open spec fn raw(t: Seq<char>) -> (Seq<char>, SpanRole) {
    (t, SpanRole::Raw)
}

pub open spec fn muted(t: Seq<char>) -> (Seq<char>, SpanRole) {
    (t, SpanRole::Muted)
}

pub open spec fn shortcut_spec(focus: FocusPane) -> Seq<(Seq<char>, SpanRole)> {
    match focus {
        FocusPane::Projects => seq![
            muted("Projects "@), key("a"@), raw(" add  "@), key("r"@), raw(" rename  "@),
            key("x"@), raw(" archive  "@), key("d"@), raw(" delete  "@), key("A"@),
            raw(" archived  "@), key("m"@), raw(" todo source  "@), key("g"@),
            raw(" lazygit  "@), key("t"@), raw(" terminal"@),
        ],
        FocusPane::Todos => seq![
            muted("Todos "@), key("n"@), raw(" add  "@), key("e/Enter"@), raw(" edit  "@),
            key("Space"@), raw(" done  "@), key("dd"@), raw(" delete  "@),
            key("J/K PgUp/PgDn"@), raw(" move active"@),
        ],
        FocusPane::Agents => seq![
            muted("AGENTS.md "@), key("j/k"@), raw(" scroll  "@), key("Up/Down"@),
            raw(" scroll  "@), key("mouse wheel"@), raw(" scroll"@),
        ],
        FocusPane::GitHistory => seq![
            muted("Git history "@), key("j/k"@), raw(" scroll  "@), key("Up/Down"@),
            raw(" scroll  "@), key("g"@), raw(" lazygit"@),
        ],
    }
}

/// The footer line of the focused pane's shortcuts.
pub fn shortcut_line(focus: FocusPane) -> (r: Vec<Span>)
    ensures
        span_views(r@) == shortcut_spec(focus),
{
    let mut v: Vec<Span> = Vec::new();
    match focus {
        FocusPane::Projects => {
            push_span(&mut v, "Projects ", SpanRole::Muted);
            push_span(&mut v, "a", SpanRole::Key);
            push_span(&mut v, " add  ", SpanRole::Raw);
            push_span(&mut v, "r", SpanRole::Key);
            push_span(&mut v, " rename  ", SpanRole::Raw);
            push_span(&mut v, "x", SpanRole::Key);
            push_span(&mut v, " archive  ", SpanRole::Raw);
            push_span(&mut v, "d", SpanRole::Key);
            push_span(&mut v, " delete  ", SpanRole::Raw);
            push_span(&mut v, "A", SpanRole::Key);
            push_span(&mut v, " archived  ", SpanRole::Raw);
            push_span(&mut v, "m", SpanRole::Key);
            push_span(&mut v, " todo source  ", SpanRole::Raw);
            push_span(&mut v, "g", SpanRole::Key);
            push_span(&mut v, " lazygit  ", SpanRole::Raw);
            push_span(&mut v, "t", SpanRole::Key);
            push_span(&mut v, " terminal", SpanRole::Raw);
        },
        FocusPane::Todos => {
            push_span(&mut v, "Todos ", SpanRole::Muted);
            push_span(&mut v, "n", SpanRole::Key);
            push_span(&mut v, " add  ", SpanRole::Raw);
            push_span(&mut v, "e/Enter", SpanRole::Key);
            push_span(&mut v, " edit  ", SpanRole::Raw);
            push_span(&mut v, "Space", SpanRole::Key);
            push_span(&mut v, " done  ", SpanRole::Raw);
            push_span(&mut v, "dd", SpanRole::Key);
            push_span(&mut v, " delete  ", SpanRole::Raw);
            push_span(&mut v, "J/K PgUp/PgDn", SpanRole::Key);
            push_span(&mut v, " move active", SpanRole::Raw);
        },
        FocusPane::Agents => {
            push_span(&mut v, "AGENTS.md ", SpanRole::Muted);
            push_span(&mut v, "j/k", SpanRole::Key);
            push_span(&mut v, " scroll  ", SpanRole::Raw);
            push_span(&mut v, "Up/Down", SpanRole::Key);
            push_span(&mut v, " scroll  ", SpanRole::Raw);
            push_span(&mut v, "mouse wheel", SpanRole::Key);
            push_span(&mut v, " scroll", SpanRole::Raw);
        },
        FocusPane::GitHistory => {
            push_span(&mut v, "Git history ", SpanRole::Muted);
            push_span(&mut v, "j/k", SpanRole::Key);
            push_span(&mut v, " scroll  ", SpanRole::Raw);
            push_span(&mut v, "Up/Down", SpanRole::Key);
            push_span(&mut v, " scroll  ", SpanRole::Raw);
            push_span(&mut v, "g", SpanRole::Key);
            push_span(&mut v, " lazygit", SpanRole::Raw);
        },
    }
    proof {
        assert(span_views(v@) =~= shortcut_spec(focus));
    }
    v
}

pub open spec fn global_shortcut_spec() -> Seq<(Seq<char>, SpanRole)> {
    seq![
        key("Tab"@), raw(" panes  "@), key("?"@), raw(" help  "@), key("/"@), raw(" filter  "@),
        key("f"@), raw(" fetch  "@), key("Q"@), raw(" quit"@),
    ]
}

/// The footer line of shortcuts that work in every pane.
pub fn global_shortcut_line() -> (r: Vec<Span>)
    ensures
        span_views(r@) == global_shortcut_spec(),
{
    let mut v: Vec<Span> = Vec::new();
    push_span(&mut v, "Tab", SpanRole::Key);
    push_span(&mut v, " panes  ", SpanRole::Raw);
    push_span(&mut v, "?", SpanRole::Key);
    push_span(&mut v, " help  ", SpanRole::Raw);
    push_span(&mut v, "/", SpanRole::Key);
    push_span(&mut v, " filter  ", SpanRole::Raw);
    push_span(&mut v, "f", SpanRole::Key);
    push_span(&mut v, " fetch  ", SpanRole::Raw);
    push_span(&mut v, "Q", SpanRole::Key);
    push_span(&mut v, " quit", SpanRole::Raw);
    proof {
        assert(span_views(v@) =~= global_shortcut_spec());
    }
    v
}


/// A line of the help overlay.
#[derive(Debug, Clone, PartialEq, Eq)]
pub enum HelpLine {
    Header(String),
    /// Two spaces, the key name padded to eighteen columns, and what it does.
    Row { key: String, action: String },
    Blank,
    Text(String),
}

pub enum HelpLineView {
    Header(Seq<char>),
    Row { key: Seq<char>, action: Seq<char> },
    Blank,
    Text(Seq<char>),
}

impl View for HelpLine {
    type V = HelpLineView;

    open spec fn view(&self) -> HelpLineView {
        match self {
            HelpLine::Header(t) => HelpLineView::Header(t@),
            HelpLine::Row { key, action } => HelpLineView::Row { key: key@, action: action@ },
            HelpLine::Blank => HelpLineView::Blank,
            HelpLine::Text(t) => HelpLineView::Text(t@),
        }
    }
}

pub open spec fn help_views(v: Seq<HelpLine>) -> Seq<HelpLineView> {
    v.map_values(|l: HelpLine| l@)
}

/// `s` followed by spaces up to `width` characters, as `{:<width}` pads.
pub open spec fn pad_right(s: Seq<char>, width: nat) -> Seq<char> {
    if s.len() >= width {
        s
    } else {
        s + Seq::new((width - s.len()) as nat, |i: int| ' ')
    }
}

pub open spec fn row(k: Seq<char>, a: Seq<char>) -> HelpLineView {
    HelpLineView::Row { key: pad_right(k, 18), action: a }
}

pub(crate) fn padded(s: &str, width: usize) -> (r: String)
    ensures
        r@ == pad_right(s@, width as nat),
{
    let mut r = owned(s);
    let n = s.unicode_len();
    if n >= width {
        return r;
    }
    let mut i: usize = n;
    while i < width
        invariant
            n <= i <= width,
            n == s@.len(),
            r@ == s@ + Seq::new((i - n) as nat, |j: int| ' '),
        decreases width - i,
    {
        push_char(&mut r, ' ');
        proof {
            assert(r@ =~= s@ + Seq::new((i + 1 - n) as nat, |j: int| ' '));
        }
        i = i + 1;
    }
    r
}

fn push_line(v: &mut Vec<HelpLine>, l: HelpLine)
    ensures
        help_views(final(v)@) == help_views(old(v)@).push(l@),
{
    let ghost before = v@;
    v.push(l);
    proof {
        assert(help_views(v@) =~= help_views(before).push(l@));
    }
}

fn push_row(v: &mut Vec<HelpLine>, k: &str, a: &str)
    ensures
        help_views(final(v)@) == help_views(old(v)@).push(row(k@, a@)),
{
    let key = padded(k, 18);
    push_line(v, HelpLine::Row { key, action: owned(a) });
}

pub open spec fn metadata_spec(version: Seq<char>, url: Seq<char>) -> Seq<char> {
    "Version: "@ + version + " | GitHub: "@ + url
}

pub open spec fn help_spec(metadata: Seq<char>, copyright: Seq<char>) -> Seq<HelpLineView> {
    seq![
        HelpLineView::Header("PRM Keymap"@),
        HelpLineView::Blank,
        HelpLineView::Header("Navigation"@),
        row("1/2/3/4"@, "jump to a pane by number"@),
        row("Tab/Shift-Tab"@, "switch pane focus"@),
        row("Left/Right or h/l"@, "switch pane focus"@),
        row("Up/Down or j/k"@, "move selection or scroll focused text panes"@),
        row("Mouse"@, "click focuses/selects; wheel scrolls under cursor"@),
        HelpLineView::Blank,
        HelpLineView::Header("Refresh"@),
        row("auto"@, "database checks every 2s; git refresh runs every 60s"@),
        row("f"@, "fetch immediately: database, git, and pane caches"@),
        HelpLineView::Blank,
        HelpLineView::Header("Global"@),
        row("/"@, "filter projects by name/path"@),
        row("g"@, "open lazygit for selected project"@),
        row("t"@, "open a new project terminal tab/window via tmux or cmux"@),
        row("?"@, "toggle this help dialog"@),
        row("Q"@, "quit prm"@),
        HelpLineView::Blank,
        HelpLineView::Header("Projects pane"@),
        row("a"@, "add project with path and optional name"@),
        row("r"@, "rename selected project"@),
        row("x"@, "archive or unarchive selected project"@),
        row("d"@, "delete selected project with confirmation"@),
        row("A"@, "toggle showing archived projects"@),
        row("m"@, "toggle todo storage: database or TODO.md file"@),
        row("tags"@, "dim project suffix shows latest reachable git tag"@),
        row("git"@, "CHG changed; PUSH waiting; COMMIT local-only; OK synced"@),
        HelpLineView::Blank,
        HelpLineView::Header("Todos pane"@),
        row("n"@, "add todo"@),
        row("e/Enter"@, "edit selected todo"@),
        row("Space"@, "toggle done"@),
        row("dd"@, "delete selected todo"@),
        row("J/K, PgUp/PgDn, Shift+Up/Down"@, "move active todo"@),
        HelpLineView::Blank,
        HelpLineView::Header("Input fields"@),
        row("Left/Right"@, "move cursor"@),
        row("Home/End"@, "jump to start or end"@),
        row("Backspace/Delete"@, "remove text around cursor"@),
        row("Enter/Esc"@, "submit or cancel"@),
        HelpLineView::Blank,
        HelpLineView::Header("Text panes"@),
        row("[3]/[4]"@, "AGENTS.md and Git history support keyboard and mouse scrolling"@),
        row("[4]"@, "shows nearest release tag and commit distance"@),
        HelpLineView::Blank,
        HelpLineView::Header("Build Info"@),
        HelpLineView::Text(metadata),
        HelpLineView::Text(copyright),
        row("Esc/q/?"@, "close help; scroll with j/k, arrows, PgUp/PgDn, wheel"@)
    ]
}

/// The lines of the help overlay; `copyright` is the copyright line of the
/// build information.
#[verifier::rlimit(60)]
pub fn help_lines(version: &str, github_url: &str, copyright: &str) -> (r: Vec<HelpLine>)
    ensures
        help_views(r@) == help_spec(metadata_spec(version@, github_url@), copyright@),
{
    let mut metadata = concat("Version: ", version);
    push_str(&mut metadata, " | GitHub: ");
    push_str(&mut metadata, github_url);
    let ghost m = metadata@;
    let mut v: Vec<HelpLine> = Vec::new();
    push_line(&mut v, HelpLine::Header(owned("PRM Keymap")));
    push_line(&mut v, HelpLine::Blank);
    push_line(&mut v, HelpLine::Header(owned("Navigation")));
    push_row(&mut v, "1/2/3/4", "jump to a pane by number");
    push_row(&mut v, "Tab/Shift-Tab", "switch pane focus");
    push_row(&mut v, "Left/Right or h/l", "switch pane focus");
    push_row(&mut v, "Up/Down or j/k", "move selection or scroll focused text panes");
    push_row(&mut v, "Mouse", "click focuses/selects; wheel scrolls under cursor");
    push_line(&mut v, HelpLine::Blank);
    push_line(&mut v, HelpLine::Header(owned("Refresh")));
    push_row(&mut v, "auto", "database checks every 2s; git refresh runs every 60s");
    push_row(&mut v, "f", "fetch immediately: database, git, and pane caches");
    push_line(&mut v, HelpLine::Blank);
    push_line(&mut v, HelpLine::Header(owned("Global")));
    push_row(&mut v, "/", "filter projects by name/path");
    push_row(&mut v, "g", "open lazygit for selected project");
    push_row(&mut v, "t", "open a new project terminal tab/window via tmux or cmux");
    push_row(&mut v, "?", "toggle this help dialog");
    push_row(&mut v, "Q", "quit prm");
    push_line(&mut v, HelpLine::Blank);
    push_line(&mut v, HelpLine::Header(owned("Projects pane")));
    push_row(&mut v, "a", "add project with path and optional name");
    push_row(&mut v, "r", "rename selected project");
    push_row(&mut v, "x", "archive or unarchive selected project");
    push_row(&mut v, "d", "delete selected project with confirmation");
    push_row(&mut v, "A", "toggle showing archived projects");
    push_row(&mut v, "m", "toggle todo storage: database or TODO.md file");
    push_row(&mut v, "tags", "dim project suffix shows latest reachable git tag");
    push_row(&mut v, "git", "CHG changed; PUSH waiting; COMMIT local-only; OK synced");
    push_line(&mut v, HelpLine::Blank);
    push_line(&mut v, HelpLine::Header(owned("Todos pane")));
    push_row(&mut v, "n", "add todo");
    push_row(&mut v, "e/Enter", "edit selected todo");
    push_row(&mut v, "Space", "toggle done");
    push_row(&mut v, "dd", "delete selected todo");
    push_row(&mut v, "J/K, PgUp/PgDn, Shift+Up/Down", "move active todo");
    push_line(&mut v, HelpLine::Blank);
    push_line(&mut v, HelpLine::Header(owned("Input fields")));
    push_row(&mut v, "Left/Right", "move cursor");
    push_row(&mut v, "Home/End", "jump to start or end");
    push_row(&mut v, "Backspace/Delete", "remove text around cursor");
    push_row(&mut v, "Enter/Esc", "submit or cancel");
    push_line(&mut v, HelpLine::Blank);
    push_line(&mut v, HelpLine::Header(owned("Text panes")));
    push_row(&mut v, "[3]/[4]", "AGENTS.md and Git history support keyboard and mouse scrolling");
    push_row(&mut v, "[4]", "shows nearest release tag and commit distance");
    push_line(&mut v, HelpLine::Blank);
    push_line(&mut v, HelpLine::Header(owned("Build Info")));
    push_line(&mut v, HelpLine::Text(metadata));
    push_line(&mut v, HelpLine::Text(owned(copyright)));
    push_row(&mut v, "Esc/q/?", "close help; scroll with j/k, arrows, PgUp/PgDn, wheel");
    proof {
        assert(help_views(v@) =~= help_spec(m, copyright@));
    }
    v
}


/// A text field of a dialog.
#[derive(Debug, Clone, PartialEq, Eq)]
pub struct InputField {
    pub label: String,
    pub value: String,
    pub cursor: usize,
    pub active: bool,
}

/// What a dialog shows.
#[derive(Debug, Clone, PartialEq, Eq)]
pub enum ModalContent {
    /// A bordered frame titled `frame_title`, a heading, the fields and a hint line.
    Form { frame_title: String, heading: String, fields: Vec<InputField>, hint: String },
    /// A question: its title, its message and the keys that answer it.
    Confirm { title: String, message: String },
}

pub open spec fn field_is(f: InputField, label: Seq<char>, value: Seq<char>, cursor: usize, active: bool) -> bool {
    f.label@ == label && f.value@ == value && f.cursor == cursor && f.active == active
}

/// The content of the open dialog.
pub fn modal_content(modal: &Modal) -> (r: ModalContent)
    ensures
        match *modal {
            Modal::Input(m) => r matches ModalContent::Form { frame_title, heading, fields, hint }
                && frame_title@ == "Input"@ && heading@ == m.title@ && fields@.len() == 1
                && field_is(fields@[0], m.prompt@, m.value@, m.cursor, true) && hint@
                == "Enter submit | Esc cancel"@,
            Modal::AddProject(m) => r matches ModalContent::Form {
                frame_title,
                heading,
                fields,
                hint,
            } && frame_title@ == "Project"@ && heading@ == "Add project"@ && fields@.len() == 2
                && field_is(fields@[0], "Path"@, m.path@, m.path_cursor, m.active_field == AddProjectField::Path)
                && field_is(
                fields@[1],
                "Name (optional)"@,
                m.name@,
                m.name_cursor,
                m.active_field == AddProjectField::Name,
            ) && hint@ == "Tab field | Enter submit | Esc cancel"@,
            Modal::Confirm(m) => r matches ModalContent::Confirm { title, message } && title@
                == m.title@ && message@ == m.message@,
        },
{
    match modal {
        Modal::Input(m) => {
            let mut fields: Vec<InputField> = Vec::new();
            fields.push(
                InputField {
                    label: m.prompt.clone(),
                    value: m.value.clone(),
                    cursor: m.cursor,
                    active: true,
                },
            );
            ModalContent::Form {
                frame_title: owned("Input"),
                heading: m.title.clone(),
                fields,
                hint: owned("Enter submit | Esc cancel"),
            }
        },
        Modal::AddProject(m) => {
            let mut fields: Vec<InputField> = Vec::new();
            fields.push(
                InputField {
                    label: owned("Path"),
                    value: m.path.clone(),
                    cursor: m.path_cursor,
                    active: m.active_field == AddProjectField::Path,
                },
            );
            fields.push(
                InputField {
                    label: owned("Name (optional)"),
                    value: m.name.clone(),
                    cursor: m.name_cursor,
                    active: m.active_field == AddProjectField::Name,
                },
            );
            ModalContent::Form {
                frame_title: owned("Project"),
                heading: owned("Add project"),
                fields,
                hint: owned("Tab field | Enter submit | Esc cancel"),
            }
        },
        Modal::Confirm(m) => ModalContent::Confirm {
            title: m.title.clone(),
            message: m.message.clone(),
        },
    }
}

pub open spec fn confirm_keys_spec() -> Seq<(Seq<char>, SpanRole)> {
    seq![key("Enter/Y"@), raw(" confirm  "@), key("N/Esc"@), raw(" cancel"@)]
}

/// The last line of a confirmation: the keys that answer it.
pub fn confirm_keys() -> (r: Vec<Span>)
    ensures
        span_views(r@) == confirm_keys_spec(),
{
    let mut v: Vec<Span> = Vec::new();
    push_span(&mut v, "Enter/Y", SpanRole::Key);
    push_span(&mut v, " confirm  ", SpanRole::Raw);
    push_span(&mut v, "N/Esc", SpanRole::Key);
    push_span(&mut v, " cancel", SpanRole::Raw);
    proof {
        assert(span_views(v@) =~= confirm_keys_spec());
    }
    v
}

/// The label of the filter line.
pub fn filter_label() -> (r: &'static str)
    ensures
        r@ == "Filter projects - Enter apply, Esc cancel"@,
{
    "Filter projects - Enter apply, Esc cancel"
}


/// The pieces of a row in the projects list, left to right: the archive
/// marker, the count of open todos, the git badge, the name and the release.
#[derive(Debug, Clone)]
pub struct ProjectRow {
    pub marker: String,
    pub count: String,
    pub badge: String,
    pub name: String,
    pub release: String,
}

/// The projects-list row of `project`, given its count of open todos, its
/// git state and its release.
pub fn project_row(project: &Project, count: usize, status: &GitProjectStatus, release: &GitRelease) -> (r: ProjectRow)
    ensures
        r.marker@ == (if project.archived {
            "[A] "@
        } else {
            "    "@
        }),
        r.count@ == (if count > 9 {
            "9+ "@
        } else {
            seq![' ', digit_char(count as nat), ' ']
        }),
        r.badge@ == seq!['['] + label_spec(*status) + seq![']'],
        r.name@ == seq![' '] + project.name@,
        r.release@ == release_suffix_spec(*release),
{
    proof {
        reveal_strlit("[");
        reveal_strlit(" ");
    }
    let mut badge = concat("[", status.short_label());
    push_char(&mut badge, ']');
    let name = concat(" ", project.name.as_str());
    assert(badge@ =~= seq!['['] + label_spec(*status) + seq![']']);
    assert(name@ =~= seq![' '] + project.name@);
    ProjectRow {
        marker: owned(project_marker(project.archived)),
        count: project_active_todo_count_prefix(count),
        badge,
        name,
        release: project_release_suffix(release),
    }
}

} // verus!
