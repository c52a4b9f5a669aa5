//! Todos kept as markdown checkbox lines in a project's `TODO.md`.
//!
//! The file itself is read and written by the caller; the functions here work
//! on its lines.
use vstd::prelude::*;

use crate::db::repo::MoveDirection;
use crate::domain::todo::Todo;
use crate::numfmt::{decimal, u64_chars};
use crate::text::{
    chars_of, has_prefix, lead_ws, lines_spec, push_chars, split_lines, strip_cr,
    starts_with, string_from, sub_chars, trim, trim_chars, trim_start, trim_start_chars, views,
    is_ws,
};

verus! {

/// Why an edit of the todo lines was refused.
#[derive(Debug, Clone, Copy, PartialEq, Eq, Structural)]
pub enum MarkdownError {
    EmptyTitle,
    IndexOutOfRange(usize),
    NotTodoLine(usize),
}

impl MarkdownError {
    pub open spec fn message_spec(self) -> Seq<char> {
        match self {
            MarkdownError::EmptyTitle => "todo title cannot be empty"@,
            MarkdownError::IndexOutOfRange(i) => "todo line index out of range: "@ + decimal(i as nat),
            MarkdownError::NotTodoLine(i) => "line "@ + decimal(i as nat) + " is not a todo line"@,
        }
    }

    pub fn message(&self) -> (r: String)
        ensures
            r@ == self.message_spec(),
    {
        match self {
            MarkdownError::EmptyTitle => crate::text::owned("todo title cannot be empty"),
            MarkdownError::IndexOutOfRange(i) => {
                let mut s = crate::text::owned("todo line index out of range: ");
                push_chars(&mut s, u64_chars(*i as u64).as_slice());
                s
            },
            MarkdownError::NotTodoLine(i) => {
                let mut s = crate::text::owned("line ");
                push_chars(&mut s, u64_chars(*i as u64).as_slice());
                crate::text::push_str(&mut s, " is not a todo line");
                s
            },
        }
    }
}

pub open spec fn open_marker() -> Seq<char> {
    seq!['-', ' ', '[', ' ', ']', ' ']
}

pub open spec fn done_marker() -> Seq<char> {
    seq!['-', ' ', '[', 'x', ']', ' ']
}

pub open spec fn done_marker_upper() -> Seq<char> {
    seq!['-', ' ', '[', 'X', ']', ' ']
}

/// `Some((done, title))` when the line is a todo line.
pub open spec fn parse_todo_spec(line: Seq<char>) -> Option<(bool, Seq<char>)> {
    let s = trim_start(line);
    if has_prefix(s, open_marker()) {
        Some((false, s.skip(6)))
    } else if has_prefix(s, done_marker()) || has_prefix(s, done_marker_upper()) {
        Some((true, s.skip(6)))
    } else {
        None
    }
}

proof fn lemma_lead_ws_shift(w: Seq<char>, l: Seq<char>, j: int)
    requires
        0 <= j <= l.len(),
    ensures
        lead_ws(w + l, w.len() + j) == w.len() + lead_ws(l, j),
    decreases l.len() - j,
{
    let x = w + l;
    if j < l.len() {
        assert(x[w.len() + j] == l[j]);
        if is_ws(l[j]) {
            lemma_lead_ws_shift(w, l, j + 1);
        }
    }
}

proof fn lemma_lead_ws_skip_prefix(w: Seq<char>, l: Seq<char>, i: int)
    requires
        0 <= i <= w.len(),
        forall|k: int| 0 <= k < w.len() ==> is_ws(#[trigger] w[k]),
    ensures
        lead_ws(w + l, i) == w.len() + lead_ws(l, 0),
    decreases w.len() - i,
{
    if i < w.len() {
        assert((w + l)[i] == w[i]);
        lemma_lead_ws_skip_prefix(w, l, i + 1);
    } else {
        lemma_lead_ws_shift(w, l, 0);
    }
}

/// Whitespace before a line does not change how it reads: the same todo,
/// or none, for every all-whitespace prefix `w`.
pub proof fn law_leading_whitespace_ignored(w: Seq<char>, line: Seq<char>)
    requires
        forall|k: int| 0 <= k < w.len() ==> is_ws(#[trigger] w[k]),
    ensures
        parse_todo_spec(w + line) == parse_todo_spec(line),
{
    lemma_lead_ws_skip_prefix(w, line, 0);
    crate::text::lemma_lead_ws_bounds(line, 0);
    assert(trim_start(w + line) =~= trim_start(line));
}

/// A line of whitespace, then `- [ ] `, `- [x] ` or `- [X] `, then a title
/// is a todo with that title, open for `[ ]` and done for `[x]` and `[X]`.
pub proof fn law_todo_line_reads(w: Seq<char>, title: Seq<char>)
    requires
        forall|k: int| 0 <= k < w.len() ==> is_ws(#[trigger] w[k]),
    ensures
        parse_todo_spec(w + ("- [ ] "@ + title)) == Some((false, title)),
        parse_todo_spec(w + ("- [x] "@ + title)) == Some((true, title)),
        parse_todo_spec(w + ("- [X] "@ + title)) == Some((true, title)),
{
    reveal_strlit("- [ ] ");
    reveal_strlit("- [x] ");
    reveal_strlit("- [X] ");
    law_leading_whitespace_ignored(w, "- [ ] "@ + title);
    law_leading_whitespace_ignored(w, "- [x] "@ + title);
    law_leading_whitespace_ignored(w, "- [X] "@ + title);
    let a = "- [ ] "@ + title;
    let b = "- [x] "@ + title;
    let c = "- [X] "@ + title;
    assert(!is_ws(a[0]) && !is_ws(b[0]) && !is_ws(c[0]));
    assert(lead_ws(a, 0) == 0);
    assert(lead_ws(b, 0) == 0);
    assert(lead_ws(c, 0) == 0);
    assert(a.skip(0) =~= a);
    assert(b.skip(0) =~= b);
    assert(c.skip(0) =~= c);
    assert(a.take(6) =~= "- [ ] "@);
    assert(b.take(6) =~= "- [x] "@);
    assert(c.take(6) =~= "- [X] "@);
    assert(a.skip(6) =~= title);
    assert(b.skip(6) =~= title);
    assert(c.skip(6) =~= title);
    assert(open_marker() =~= "- [ ] "@);
    assert(done_marker() =~= "- [x] "@);
    assert(done_marker_upper() =~= "- [X] "@);
}

/// The line that holds a todo.
pub open spec fn todo_line(done: bool, title: Seq<char>) -> Seq<char> {
    (if done {
        done_marker()
    } else {
        open_marker()
    }) + title
}

pub open spec fn strs(v: Seq<String>) -> Seq<Seq<char>> {
    v.map_values(|s: String| s@)
}

/// Indices of the todo lines among the first `n` lines.
pub open spec fn todo_indices(ls: Seq<Seq<char>>, n: int) -> Seq<int>
    decreases n,
{
    if n <= 0 {
        seq![]
    } else if parse_todo_spec(ls[n - 1]) is Some {
        todo_indices(ls, n - 1).push(n - 1)
    } else {
        todo_indices(ls, n - 1)
    }
}

/// Number of not-done todo lines among the first `n` lines.
pub open spec fn active_count(ls: Seq<Seq<char>>, n: int) -> nat
    decreases n,
{
    if n <= 0 {
        0
    } else if parse_todo_spec(ls[n - 1]) matches Some((false, _)) {
        active_count(ls, n - 1) + 1
    } else {
        active_count(ls, n - 1)
    }
}

/// The file text for the given lines: each line followed by a newline.
pub open spec fn render_spec(ls: Seq<Seq<char>>) -> Seq<char>
    decreases ls.len(),
{
    if ls.len() == 0 {
        seq![]
    } else {
        ls[0] + seq!['\n'] + render_spec(ls.drop_first())
    }
}

pub open spec fn toggle_spec(ls: Seq<Seq<char>>, idx: int) -> Result<Seq<Seq<char>>, MarkdownError> {
    if idx < 0 || idx >= ls.len() {
        Err(MarkdownError::IndexOutOfRange(idx as usize))
    } else {
        match parse_todo_spec(ls[idx]) {
            Some((done, title)) => Ok(ls.update(idx, todo_line(!done, title))),
            None => Err(MarkdownError::NotTodoLine(idx as usize)),
        }
    }
}

pub open spec fn update_spec(ls: Seq<Seq<char>>, idx: int, title: Seq<char>) -> Result<
    Seq<Seq<char>>,
    MarkdownError,
> {
    if trim(title).len() == 0 {
        Err(MarkdownError::EmptyTitle)
    } else if idx < 0 || idx >= ls.len() {
        Err(MarkdownError::IndexOutOfRange(idx as usize))
    } else {
        match parse_todo_spec(ls[idx]) {
            Some((done, _)) => Ok(ls.update(idx, todo_line(done, trim(title)))),
            None => Err(MarkdownError::NotTodoLine(idx as usize)),
        }
    }
}

pub open spec fn delete_spec(ls: Seq<Seq<char>>, idx: int) -> Result<Seq<Seq<char>>, MarkdownError> {
    if idx < 0 || idx >= ls.len() {
        Err(MarkdownError::IndexOutOfRange(idx as usize))
    } else {
        Ok(ls.remove(idx))
    }
}

/// First position at or after `k` of `x` in `s`, or -1.
pub open spec fn position_from(s: Seq<int>, x: int, k: int) -> int
    decreases s.len() - k,
{
    if k < 0 || k >= s.len() {
        -1
    } else if s[k] == x {
        k
    } else {
        position_from(s, x, k + 1)
    }
}

/// The line index that the todo at `idx` trades places with, or -1 when it does not move.
pub open spec fn move_target(ls: Seq<Seq<char>>, idx: int, dir: MoveDirection) -> int {
    let ind = todo_indices(ls, ls.len() as int);
    let pos = position_from(ind, idx, 0);
    if pos < 0 {
        -1
    } else {
        match dir {
            MoveDirection::Up => if pos > 0 {
                ind[pos - 1]
            } else {
                -1
            },
            MoveDirection::Down => if pos + 1 < ind.len() {
                ind[pos + 1]
            } else {
                -1
            },
        }
    }
}

pub open spec fn swap_lines(ls: Seq<Seq<char>>, i: int, j: int) -> Seq<Seq<char>> {
    ls.update(i, ls[j]).update(j, ls[i])
}

/// The lines after moving, and whether anything moved.
pub open spec fn move_spec(ls: Seq<Seq<char>>, idx: int, dir: MoveDirection) -> (
    Seq<Seq<char>>,
    bool,
) {
    let t = move_target(ls, idx, dir);
    if t < 0 {
        (ls, false)
    } else {
        (swap_lines(ls, idx, t), true)
    }
}

fn open_marker_chars() -> (v: Vec<char>)
    ensures
        v@ == open_marker(),
{
    let v = vec!['-', ' ', '[', ' ', ']', ' '];
    assert(v@ =~= open_marker());
    v
}

fn done_marker_chars() -> (v: Vec<char>)
    ensures
        v@ == done_marker(),
{
    let v = vec!['-', ' ', '[', 'x', ']', ' '];
    assert(v@ =~= done_marker());
    v
}

fn done_marker_upper_chars() -> (v: Vec<char>)
    ensures
        v@ == done_marker_upper(),
{
    let v = vec!['-', ' ', '[', 'X', ']', ' '];
    assert(v@ =~= done_marker_upper());
    v
}

fn parse_todo_chars(line: &[char]) -> (r: Option<(bool, Vec<char>)>)
    ensures
        match r {
            Some((d, t)) => parse_todo_spec(line@) == Some((d, t@)),
            None => parse_todo_spec(line@) is None,
        },
{
    let s = trim_start_chars(line);
    if starts_with(s.as_slice(), open_marker_chars().as_slice()) {
        Some((false, sub_chars(s.as_slice(), 6, s.len())))
    } else if starts_with(s.as_slice(), done_marker_chars().as_slice()) || starts_with(
        s.as_slice(),
        done_marker_upper_chars().as_slice(),
    ) {
        Some((true, sub_chars(s.as_slice(), 6, s.len())))
    } else {
        None
    }
}

/// Reads a line as a todo: `Some((done, title))` for `- [ ] title`, `- [x] title`
/// or `- [X] title` after leading whitespace, `None` for any other line.
pub fn parse_todo_line(line: &str) -> (r: Option<(bool, String)>)
    ensures
        match r {
            Some((d, t)) => parse_todo_spec(line@) == Some((d, t@)),
            None => parse_todo_spec(line@) is None,
        },
{
    let cs = chars_of(line);
    match parse_todo_chars(cs.as_slice()) {
        Some((d, t)) => Some((d, string_from(t.as_slice()))),
        None => None,
    }
}

/// The todo line for `done` and `title`, as text.
fn todo_line_string(done: bool, title: &[char]) -> (s: String)
    ensures
        s@ == todo_line(done, title@),
{
    let mut s = String::new();
    if done {
        push_chars(&mut s, done_marker_chars().as_slice());
    } else {
        push_chars(&mut s, open_marker_chars().as_slice());
    }
    push_chars(&mut s, title);
    s
}

/// Splits file text into lines the way `str::lines` does.
pub fn lines_of(content: &str) -> (r: Vec<String>)
    ensures
        strs(r@) == lines_spec(content@),
{
    let cs = chars_of(content);
    let parts = split_lines(cs.as_slice());
    let mut r: Vec<String> = Vec::new();
    let mut i: usize = 0;
    while i < parts.len()
        invariant
            i <= parts@.len(),
            strs(r@) == views(parts@).take(i as int),
        decreases parts@.len() - i,
    {
        let ghost before = r@;
        let s = string_from(parts[i].as_slice());
        r.push(s);
        assert(strs(r@) =~= strs(before).push(parts@[i as int]@));
        assert(views(parts@).take(i + 1) =~= views(parts@).take(i as int).push(parts@[i as int]@));
        i = i + 1;
    }
    assert(views(parts@).take(parts@.len() as int) =~= views(parts@));
    r
}

pub proof fn lemma_render_push(ls: Seq<Seq<char>>, l: Seq<char>)
    ensures
        render_spec(ls.push(l)) == render_spec(ls) + l + seq!['\n'],
    decreases ls.len(),
{
    if ls.len() == 0 {
        assert(ls.push(l).drop_first() =~= Seq::<Seq<char>>::empty());
        assert(ls.push(l)[0] == l);
        assert(render_spec(ls) =~= Seq::<char>::empty());
        assert(render_spec(ls.push(l).drop_first()) =~= Seq::<char>::empty());
        assert(render_spec(ls.push(l)) =~= render_spec(ls) + l + seq!['\n']);
    } else {
        assert(ls.push(l).drop_first() =~= ls.drop_first().push(l));
        assert(ls.push(l)[0] == ls[0]);
        lemma_render_push(ls.drop_first(), l);
        let a = ls[0] + seq!['\n'];
        let r = render_spec(ls.drop_first());
        assert(render_spec(ls.push(l)) == a + render_spec(ls.drop_first().push(l)));
        assert(render_spec(ls) == a + r);
        assert(a + (r + l + seq!['\n']) =~= (a + r) + l + seq!['\n']);
    }
}

/// The file text for the given lines: empty for no lines, otherwise the lines
/// joined by newlines with a final newline.
pub fn render_lines(lines: &[String]) -> (r: String)
    ensures
        r@ == render_spec(strs(lines@)),
{
    let mut r = String::new();
    let mut i: usize = 0;
    while i < lines.len()
        invariant
            i <= lines@.len(),
            r@ == render_spec(strs(lines@).take(i as int)),
        decreases lines@.len() - i,
    {
        let cs = chars_of(lines[i].as_str());
        push_chars(&mut r, cs.as_slice());
        crate::text::push_char(&mut r, '\n');
        proof {
            assert(strs(lines@).take(i + 1) =~= strs(lines@).take(i as int).push(lines@[i as int]@));
            lemma_render_push(strs(lines@).take(i as int), lines@[i as int]@);
        }
        i = i + 1;
    }
    assert(strs(lines@).take(lines@.len() as int) =~= strs(lines@));
    r
}

/// Todo `t` was read from line `j` of `lines`.
pub open spec fn todo_from_line(t: Todo, j: int, project_id: i64, lines: Seq<String>) -> bool {
    &&& t.id == j
    &&& t.sort_order == j
    &&& t.project_id == project_id
    &&& parse_todo_spec(lines[j]@) == Some((t.done, t.title@))
}

/// The todos among the lines: each todo's id and sort order are its line index.
pub fn list_todos(lines: &[String], project_id: i64) -> (r: Vec<Todo>)
    requires
        lines@.len() <= i64::MAX,
    ensures
        r@.len() == todo_indices(strs(lines@), lines@.len() as int).len(),
        forall|k: int|
            0 <= k < r@.len() ==> todo_from_line(
                #[trigger] r@[k],
                todo_indices(strs(lines@), lines@.len() as int)[k],
                project_id,
                lines@,
            ),
        forall|k: int| 0 <= k < r@.len() ==> (#[trigger] r@[k]).created_at@ == r@[k].updated_at@,
        forall|j: int, k: int|
            0 <= j < r@.len() && 0 <= k < r@.len() ==> (#[trigger] r@[j]).created_at@ == (
            #[trigger] r@[k]).created_at@,
{
    let now = crate::clock::now_rfc3339();
    let ghost ls = strs(lines@);
    let mut r: Vec<Todo> = Vec::new();
    let mut i: usize = 0;
    while i < lines.len()
        invariant
            i <= lines@.len() <= i64::MAX,
            ls == strs(lines@),
            r@.len() == todo_indices(ls, i as int).len(),
            forall|k: int| 0 <= k < r@.len() ==> 0 <= #[trigger] todo_indices(ls, i as int)[k] < i,
            forall|k: int|
                0 <= k < r@.len() ==> todo_from_line(
                    #[trigger] r@[k],
                    todo_indices(ls, i as int)[k],
                    project_id,
                    lines@,
                ),
            forall|k: int|
                0 <= k < r@.len() ==> (#[trigger] r@[k]).created_at@ == now@ && r@[k].updated_at@
                    == now@,
        decreases lines@.len() - i,
    {
        assert(ls[i as int] == lines@[i as int]@);
        let ghost prev = todo_indices(ls, i as int);
        let ghost old_r = r@;
        let parsed = parse_todo_line(lines[i].as_str());
        if parsed.is_some() {
            let (done, title) = parsed.unwrap();
            r.push(
                Todo {
                    id: i as i64,
                    project_id,
                    title,
                    done,
                    sort_order: i as i64,
                    created_at: now.clone(),
                    updated_at: now.clone(),
                },
            );
        }
        i = i + 1;
        proof {
            if parsed.is_some() {
                assert(todo_indices(ls, i as int) == prev.push(i - 1));
            } else {
                assert(todo_indices(ls, i as int) == prev);
            }
        }
        assert forall|k: int| 0 <= k < r@.len() implies 0 <= todo_indices(ls, i as int)[k] < i
            && todo_from_line(#[trigger] r@[k], todo_indices(ls, i as int)[k], project_id, lines@) by {
            if k < old_r.len() {
                assert(r@[k] == old_r[k]);
                assert(todo_indices(ls, i as int)[k] == prev[k]);
            }
        }
        assert forall|k: int| 0 <= k < r@.len() implies (#[trigger] r@[k]).created_at@ == now@
            && r@[k].updated_at@ == now@ by {
            if k < old_r.len() {
                assert(r@[k] == old_r[k]);
            }
        }
    }
    r
}

/// Number of todo lines that are not done.
pub fn active_todo_count(lines: &[String]) -> (n: usize)
    ensures
        n == active_count(strs(lines@), lines@.len() as int),
{
    let ghost ls = strs(lines@);
    let mut n: usize = 0;
    let mut i: usize = 0;
    while i < lines.len()
        invariant
            i <= lines@.len(),
            ls == strs(lines@),
            n == active_count(ls, i as int),
            n <= i,
        decreases lines@.len() - i,
    {
        match parse_todo_line(lines[i].as_str()) {
            Some((false, _)) => {
                n = n + 1;
            },
            _ => {},
        }
        i = i + 1;
    }
    n
}

/// The line to append for a new todo: `- [ ] ` and the trimmed title.
pub fn create_todo(title: &str) -> (r: Result<String, MarkdownError>)
    ensures
        match r {
            Ok(line) => trim(title@).len() > 0 && line@ == todo_line(false, trim(title@)),
            Err(e) => trim(title@).len() == 0 && e == MarkdownError::EmptyTitle,
        },
{
    let cs = chars_of(title);
    let t = trim_chars(cs.as_slice());
    if t.len() == 0 {
        return Err(MarkdownError::EmptyTitle);
    }
    Ok(todo_line_string(false, t.as_slice()))
}

/// Flips the done mark of the todo at line `line_idx`.
pub fn toggle_todo(lines: &mut Vec<String>, line_idx: usize) -> (r: Result<(), MarkdownError>)
    ensures
        match toggle_spec(strs(old(lines)@), line_idx as int) {
            Ok(ls) => r is Ok && strs(final(lines)@) == ls,
            Err(e) => r == Err::<(), MarkdownError>(e) && final(lines)@ == old(lines)@,
        },
{
    if line_idx >= lines.len() {
        return Err(MarkdownError::IndexOutOfRange(line_idx));
    }
    let cs = chars_of(lines[line_idx].as_str());
    match parse_todo_chars(cs.as_slice()) {
        Some((done, title)) => {
            let new_line = todo_line_string(!done, title.as_slice());
            let ghost old_ls = strs(lines@);
            lines.set(line_idx, new_line);
            assert(strs(lines@) =~= old_ls.update(line_idx as int, todo_line(!done, title@)));
            Ok(())
        },
        None => Err(MarkdownError::NotTodoLine(line_idx)),
    }
}

/// Replaces the title of the todo at line `line_idx`, keeping its done mark.
pub fn update_todo_title(lines: &mut Vec<String>, line_idx: usize, title: &str) -> (r: Result<
    (),
    MarkdownError,
>)
    ensures
        match update_spec(strs(old(lines)@), line_idx as int, title@) {
            Ok(ls) => r is Ok && strs(final(lines)@) == ls,
            Err(e) => r == Err::<(), MarkdownError>(e) && final(lines)@ == old(lines)@,
        },
{
    let tc = chars_of(title);
    let normalized = trim_chars(tc.as_slice());
    if normalized.len() == 0 {
        return Err(MarkdownError::EmptyTitle);
    }
    if line_idx >= lines.len() {
        return Err(MarkdownError::IndexOutOfRange(line_idx));
    }
    let cs = chars_of(lines[line_idx].as_str());
    match parse_todo_chars(cs.as_slice()) {
        Some((done, _)) => {
            let new_line = todo_line_string(done, normalized.as_slice());
            let ghost old_ls = strs(lines@);
            lines.set(line_idx, new_line);
            assert(strs(lines@) =~= old_ls.update(
                line_idx as int,
                todo_line(done, trim(title@)),
            ));
            Ok(())
        },
        None => Err(MarkdownError::NotTodoLine(line_idx)),
    }
}

/// Removes line `line_idx`.
pub fn delete_todo(lines: &mut Vec<String>, line_idx: usize) -> (r: Result<(), MarkdownError>)
    ensures
        match delete_spec(strs(old(lines)@), line_idx as int) {
            Ok(ls) => r is Ok && strs(final(lines)@) == ls,
            Err(e) => r == Err::<(), MarkdownError>(e) && final(lines)@ == old(lines)@,
        },
{
    if line_idx >= lines.len() {
        return Err(MarkdownError::IndexOutOfRange(line_idx));
    }
    let ghost old_ls = strs(lines@);
    lines.remove(line_idx);
    assert(strs(lines@) =~= old_ls.remove(line_idx as int));
    Ok(())
}

pub proof fn lemma_todo_indices_props(ls: Seq<Seq<char>>, n: int)
    requires
        0 <= n <= ls.len(),
    ensures
        forall|k: int|
            0 <= k < todo_indices(ls, n).len() ==> 0 <= #[trigger] todo_indices(ls, n)[k] < n
                && parse_todo_spec(ls[todo_indices(ls, n)[k]]) is Some,
        forall|a: int, b: int|
            0 <= a < b < todo_indices(ls, n).len() ==> #[trigger] todo_indices(ls, n)[a]
                < #[trigger] todo_indices(ls, n)[b],
    decreases n,
{
    if n > 0 {
        lemma_todo_indices_props(ls, n - 1);
    }
}

/// Swaps lines `line_idx` and the neighbouring todo line in `direction`,
/// skipping lines that are not todos. `false` when the todo is already first
/// (up) or last (down), or `line_idx` is not a todo line.
pub fn move_todo(lines: &mut Vec<String>, line_idx: usize, direction: MoveDirection) -> (moved:
    bool)
    ensures
        (strs(final(lines)@), moved) == move_spec(strs(old(lines)@), line_idx as int, direction),
{
    let ghost ls = strs(lines@);
    let mut ind: Vec<usize> = Vec::new();
    let mut i: usize = 0;
    while i < lines.len()
        invariant
            i <= lines@.len(),
            ls == strs(lines@),
            ind@.len() == todo_indices(ls, i as int).len(),
            forall|k: int| 0 <= k < ind@.len() ==> ind@[k] as int == todo_indices(ls, i as int)[k],
        decreases lines@.len() - i,
    {
        if parse_todo_line(lines[i].as_str()).is_some() {
            ind.push(i);
        }
        i = i + 1;
    }
    let ghost t = todo_indices(ls, ls.len() as int);
    proof {
        lemma_todo_indices_props(ls, ls.len() as int);
    }
    let mut pos: usize = 0;
    while pos < ind.len() && ind[pos] != line_idx
        invariant
            pos <= ind@.len(),
            ind@.len() == t.len(),
            forall|k: int| 0 <= k < ind@.len() ==> ind@[k] as int == t[k],
            position_from(t, line_idx as int, 0) == position_from(t, line_idx as int, pos as int),
        decreases ind@.len() - pos,
    {
        pos = pos + 1;
    }
    if pos == ind.len() {
        return false;
    }
    let target: usize = match direction {
        MoveDirection::Up => {
            if pos > 0 {
                ind[pos - 1]
            } else {
                return false;
            }
        },
        MoveDirection::Down => {
            if pos + 1 < ind.len() {
                ind[pos + 1]
            } else {
                return false;
            }
        },
    };
    let a = lines[line_idx].clone();
    let b = lines[target].clone();
    lines.set(line_idx, b);
    lines.set(target, a);
    assert(strs(lines@) =~= swap_lines(ls, line_idx as int, target as int));
    true
}

} // verus!

verus! {

/// A todo line written by this module reads back as the same done mark and title.
pub proof fn lemma_parse_todo_line_canonical(done: bool, title: Seq<char>)
    ensures
        parse_todo_spec(todo_line(done, title)) == Some((done, title)),
{
    let s = todo_line(done, title);
    assert(s[0] == '-');
    assert(!is_ws(s[0]));
    assert(lead_ws(s, 0) == 0);
    assert(trim_start(s) =~= s);
    if done {
        assert(s.take(6) =~= done_marker());
        assert(s.take(6)[3] != open_marker()[3]);
    } else {
        assert(s.take(6) =~= open_marker());
    }
    assert(s.skip(6) =~= title);
}

/// Toggling a todo line flips its done mark and keeps its title.
pub proof fn law_toggle_flips_done(ls: Seq<Seq<char>>, idx: int)
    requires
        toggle_spec(ls, idx) is Ok,
    ensures
        ({
            let (done, title) = parse_todo_spec(ls[idx]).unwrap();
            parse_todo_spec(toggle_spec(ls, idx).unwrap()[idx]) == Some((!done, title))
        }),
{
    let (done, title) = parse_todo_spec(ls[idx]).unwrap();
    lemma_parse_todo_line_canonical(!done, title);
}

/// Toggling a todo line twice gives the lines back, when the line is in the
/// form this module writes (`- [ ] title` or `- [x] title`).
pub proof fn law_toggle_twice_restores(ls: Seq<Seq<char>>, idx: int, done: bool, title: Seq<char>)
    requires
        0 <= idx < ls.len(),
        ls[idx] == todo_line(done, title),
    ensures
        toggle_spec(ls, idx) is Ok,
        toggle_spec(toggle_spec(ls, idx).unwrap(), idx) == Ok::<Seq<Seq<char>>, MarkdownError>(ls),
{
    lemma_parse_todo_line_canonical(done, title);
    lemma_parse_todo_line_canonical(!done, title);
    let once = toggle_spec(ls, idx).unwrap();
    assert(once[idx] == todo_line(!done, title));
    assert(once.update(idx, todo_line(done, title)) =~= ls);
}

/// A title update keeps the done mark and stores the trimmed title.
pub proof fn law_update_keeps_done(ls: Seq<Seq<char>>, idx: int, title: Seq<char>)
    requires
        update_spec(ls, idx, title) is Ok,
    ensures
        ({
            let (done, _) = parse_todo_spec(ls[idx]).unwrap();
            parse_todo_spec(update_spec(ls, idx, title).unwrap()[idx]) == Some((done, trim(title)))
        }),
{
    let (done, _) = parse_todo_spec(ls[idx]).unwrap();
    lemma_parse_todo_line_canonical(done, trim(title));
}

proof fn lemma_todo_indices_ext(a: Seq<Seq<char>>, b: Seq<Seq<char>>, n: int)
    requires
        0 <= n <= a.len(),
        n <= b.len(),
        forall|i: int| 0 <= i < n ==> (parse_todo_spec(a[i]) is Some) == (parse_todo_spec(b[i]) is Some),
    ensures
        todo_indices(a, n) == todo_indices(b, n),
    decreases n,
{
    if n > 0 {
        lemma_todo_indices_ext(a, b, n - 1);
    }
}

proof fn lemma_position_of_member(s: Seq<int>, p: int, k: int)
    requires
        0 <= k <= p < s.len(),
        forall|a: int, b: int| 0 <= a < b < s.len() ==> #[trigger] s[a] < #[trigger] s[b],
    ensures
        position_from(s, s[p], k) == p,
    decreases p - k,
{
    if k < p {
        assert(s[k] < s[p]);
        lemma_position_of_member(s, p, k + 1);
    }
}

pub open spec fn opposite(dir: MoveDirection) -> MoveDirection {
    match dir {
        MoveDirection::Up => MoveDirection::Down,
        MoveDirection::Down => MoveDirection::Up,
    }
}

/// Moving a todo and then moving it back (from where it landed, the other
/// way) gives the lines back.
pub proof fn law_move_round_trip(ls: Seq<Seq<char>>, idx: int, dir: MoveDirection)
    requires
        move_spec(ls, idx, dir).1,
    ensures
        ({
            let t = move_target(ls, idx, dir);
            move_spec(move_spec(ls, idx, dir).0, t, opposite(dir)) == (ls, true)
        }),
{
    let n = ls.len() as int;
    let ind = todo_indices(ls, n);
    lemma_todo_indices_props(ls, n);
    let pos = position_from(ind, idx, 0);
    lemma_position_props(ind, idx, 0);
    let t = move_target(ls, idx, dir);
    let ls2 = swap_lines(ls, idx, t);
    assert(0 <= idx < n && 0 <= t < n);
    assert forall|i: int| 0 <= i < n implies (parse_todo_spec(ls[i]) is Some) == (parse_todo_spec(
        ls2[i],
    ) is Some) by {}
    lemma_todo_indices_ext(ls, ls2, n);
    assert(ls2.len() == n);
    let pos2 = match dir {
        MoveDirection::Up => pos - 1,
        MoveDirection::Down => pos + 1,
    };
    assert(ind[pos2] == t);
    lemma_position_of_member(ind, pos2, 0);
    lemma_position_of_member(ind, pos, 0);
    assert(move_target(ls2, t, opposite(dir)) == idx);
    assert(swap_lines(ls2, t, idx) =~= ls);
}

proof fn lemma_position_props(s: Seq<int>, x: int, k: int)
    requires
        0 <= k,
    ensures
        position_from(s, x, k) == -1 || (k <= position_from(s, x, k) < s.len() && s[position_from(s, x, k)] == x),
    decreases s.len() - k,
{
    if k < s.len() && s[k] != x {
        lemma_position_props(s, x, k + 1);
    }
}

proof fn lemma_position_from(s: Seq<int>, x: int, k: int)
    requires
        0 <= k <= s.len(),
    ensures
        position_from(s, x, k) == -1 ==> forall|m: int| k <= m < s.len() ==> s[m] != x,
        position_from(s, x, k) != -1 ==> k <= position_from(s, x, k) < s.len() && s[position_from(
            s,
            x,
            k,
        )] == x,
    decreases s.len() - k,
{
    if k < s.len() && s[k] != x {
        lemma_position_from(s, x, k + 1);
    }
}

proof fn lemma_todo_indices_complete(ls: Seq<Seq<char>>, n: int)
    requires
        0 <= n <= ls.len(),
    ensures
        forall|j: int|
            0 <= j < n && parse_todo_spec(#[trigger] ls[j]) is Some ==> exists|q: int|
                0 <= q < todo_indices(ls, n).len() && todo_indices(ls, n)[q] == j,
    decreases n,
{
    if n > 0 {
        lemma_todo_indices_complete(ls, n - 1);
        let prev = todo_indices(ls, n - 1);
        assert forall|j: int|
            0 <= j < n && parse_todo_spec(#[trigger] ls[j]) is Some implies exists|q: int|
                0 <= q < todo_indices(ls, n).len() && todo_indices(ls, n)[q] == j by {
            if j < n - 1 {
                let q = choose|q: int| 0 <= q < prev.len() && prev[q] == j;
                assert(todo_indices(ls, n)[q] == j);
            } else {
                assert(todo_indices(ls, n)[prev.len() as int] == j);
            }
        }
    }
}

/// Moving a todo line swaps it with the nearest todo line above it (up) or
/// below it (down), leaving every other line in place; it moves exactly
/// when `idx` is a todo line and there is a todo line on that side.
pub proof fn law_move_swaps_with_neighbour(ls: Seq<Seq<char>>, idx: int, dir: MoveDirection)
    ensures
        ({
            let (out, moved) = move_spec(ls, idx, dir);
            let t = move_target(ls, idx, dir);
            &&& moved <==> {
                &&& 0 <= idx < ls.len()
                &&& parse_todo_spec(ls[idx]) is Some
                &&& exists|j: int|
                    0 <= j < ls.len() && (if dir == MoveDirection::Up {
                        j < idx
                    } else {
                        j > idx
                    }) && parse_todo_spec(#[trigger] ls[j]) is Some
            }
            &&& !moved ==> out == ls
            &&& moved ==> {
                &&& 0 <= t < ls.len()
                &&& parse_todo_spec(ls[t]) is Some
                &&& out == swap_lines(ls, idx, t)
                &&& (if dir == MoveDirection::Up {
                    t < idx
                } else {
                    t > idx
                })
                &&& forall|j: int|
                    (if dir == MoveDirection::Up {
                        t < j < idx
                    } else {
                        idx < j < t
                    }) ==> parse_todo_spec(#[trigger] ls[j]) is None
            }
        }),
{
    let n = ls.len() as int;
    let ind = todo_indices(ls, n);
    lemma_todo_indices_props(ls, n);
    lemma_todo_indices_complete(ls, n);
    lemma_position_from(ind, idx, 0);
    let p = position_from(ind, idx, 0);
    let t = move_target(ls, idx, dir);
    if p == -1 {
        if 0 <= idx < n && parse_todo_spec(ls[idx]) is Some {
            let q = choose|q: int| 0 <= q < ind.len() && ind[q] == idx;
            assert(ind[q] == idx);
        }
    } else {
        assert(ind[p] == idx);
        assert(0 <= idx < n);
        if dir == MoveDirection::Up {
            if p > 0 {
                assert(ind[p - 1] < ind[p]);
                assert(parse_todo_spec(ls[ind[p - 1]]) is Some);
                assert forall|j: int| t < j < idx implies parse_todo_spec(#[trigger] ls[j]) is None by {
                    if parse_todo_spec(ls[j]) is Some {
                        let q = choose|q: int| 0 <= q < ind.len() && ind[q] == j;
                        if q < p - 1 {
                            assert(ind[q] < ind[p - 1]);
                        } else if q > p - 1 && q < p {
                        } else if q >= p {
                            assert(ind[q] >= ind[p]) by {
                                if q > p {
                                    assert(ind[p] < ind[q]);
                                }
                            }
                        }
                    }
                }
            } else {
                assert forall|j: int|
                    0 <= j < ls.len() && j < idx implies parse_todo_spec(#[trigger] ls[j]) is None by {
                    if parse_todo_spec(ls[j]) is Some {
                        let q = choose|q: int| 0 <= q < ind.len() && ind[q] == j;
                        if q > 0 {
                            assert(ind[0] < ind[q]);
                        }
                    }
                }
            }
        } else {
            if p + 1 < ind.len() {
                assert(ind[p] < ind[p + 1]);
                assert(parse_todo_spec(ls[ind[p + 1]]) is Some);
                assert forall|j: int| idx < j < t implies parse_todo_spec(#[trigger] ls[j]) is None by {
                    if parse_todo_spec(ls[j]) is Some {
                        let q = choose|q: int| 0 <= q < ind.len() && ind[q] == j;
                        if q > p + 1 {
                            assert(ind[p + 1] < ind[q]);
                        } else if q <= p {
                            assert(ind[q] <= ind[p]) by {
                                if q < p {
                                    assert(ind[q] < ind[p]);
                                }
                            }
                        }
                    }
                }
            } else {
                assert forall|j: int|
                    0 <= j < ls.len() && j > idx implies parse_todo_spec(#[trigger] ls[j]) is None by {
                    if parse_todo_spec(ls[j]) is Some {
                        let q = choose|q: int| 0 <= q < ind.len() && ind[q] == j;
                        if q < p {
                            assert(ind[q] < ind[p]);
                        }
                    }
                }
            }
        }
    }
}

/// A created todo is listed last, not done, with the trimmed title.
pub proof fn law_create_then_list(ls: Seq<Seq<char>>, title: Seq<char>)
    requires
        trim(title).len() > 0,
    ensures
        ({
            let line = todo_line(false, trim(title));
            &&& parse_todo_spec(line) == Some((false, trim(title)))
            &&& todo_indices(ls.push(line), ls.len() + 1int) == todo_indices(ls, ls.len() as int).push(
                ls.len() as int,
            )
        }),
{
    let line = todo_line(false, trim(title));
    lemma_parse_todo_line_canonical(false, trim(title));
    let l2 = ls.push(line);
    lemma_todo_indices_ext(ls, l2, ls.len() as int);
}

proof fn lemma_char_index_at(s: Seq<char>, c: char, len: int, k: int)
    requires
        0 <= k <= len < s.len(),
        s[len] == c,
        forall|j: int| 0 <= j < len ==> s[j] != c,
    ensures
        crate::text::char_index_from(s, c, k) == len,
    decreases len - k,
{
    if k < len {
        lemma_char_index_at(s, c, len, k + 1);
    }
}

/// Writing lines to text and reading them back gives the same lines, for lines
/// without a newline and without a carriage return at their end.
pub proof fn law_render_then_lines(ls: Seq<Seq<char>>)
    requires
        forall|i: int, j: int| 0 <= i < ls.len() && 0 <= j < ls[i].len() ==> #[trigger] ls[i][j] != '\n',
        forall|i: int| 0 <= i < ls.len() && ls[i].len() > 0 ==> (#[trigger] ls[i]).last() != '\r',
    ensures
        lines_spec(render_spec(ls)) == ls,
    decreases ls.len(),
{
    if ls.len() > 0 {
        let first = ls[0];
        let rest = ls.drop_first();
        let s = render_spec(ls);
        assert(s == first + seq!['\n'] + render_spec(rest));
        let l = first.len() as int;
        assert(s[l] == '\n');
        assert forall|j: int| 0 <= j < l implies s[j] != '\n' by {
            assert(s[j] == ls[0][j]);
        }
        lemma_char_index_at(s, '\n', l, 0);
        assert(s.take(l) =~= first);
        assert(s.skip(l + 1) =~= render_spec(rest));
        assert(strip_cr(first) == first);
        law_render_then_lines(rest);
        assert(seq![first] + rest =~= ls);
    } else {
        assert(render_spec(ls) =~= Seq::<char>::empty());
    }
}

} // verus!
