//! The decisions of the command-line interface: which project a reference
//! names, and the text the commands print.
use vstd::prelude::*;

use crate::db::repo::{MoveDirection, UpsertStatus};
use crate::numfmt::decimal;
use crate::ui::view::{pad_right, padded};
use crate::domain::project::Project;
use crate::domain::todo::Todo;
use crate::numfmt::{i64_chars, parse_i64, parse_i64_spec, signed_decimal};
use crate::text::{
    chars_of, concat, contains, contains_chars, eq_ignore_ascii_case, eq_ignore_case, lower_seq,
    owned, push_chars, push_str, str_eq, string_from, sub_chars, trim, trim_chars,
};

verus! {

/// Where a project's todos are kept, as the `source` command names it.
#[derive(Debug, Clone, Copy, PartialEq, Eq, Structural)]
pub enum TodoSourceArg {
    Db,
    Markdown,
}

impl TodoSourceArg {
    pub fn as_str(self) -> (r: &'static str)
        ensures
            r@ == match self {
                TodoSourceArg::Db => "db"@,
                TodoSourceArg::Markdown => "markdown"@,
            },
    {
        match self {
            TodoSourceArg::Db => "db",
            TodoSourceArg::Markdown => "markdown",
        }
    }
}

/// The direction the `todo move` command takes.
#[derive(Debug, Clone, Copy, PartialEq, Eq, Structural)]
pub enum MoveDirectionArg {
    Up,
    Down,
}

impl MoveDirectionArg {
    pub fn direction(self) -> (r: MoveDirection)
        ensures
            r == match self {
                MoveDirectionArg::Up => MoveDirection::Up,
                MoveDirectionArg::Down => MoveDirection::Down,
            },
    {
        match self {
            MoveDirectionArg::Up => MoveDirection::Up,
            MoveDirectionArg::Down => MoveDirection::Down,
        }
    }
}

/// How a todo source is named to the user.
pub fn display_todo_source(source: &str) -> (r: &'static str)
    ensures
        r@ == if source@ == "markdown"@ {
            "TODO.md"@
        } else {
            "database"@
        },
{
    if str_eq(source, "markdown") {
        "TODO.md"
    } else {
        "database"
    }
}

pub open spec fn truncate_spec(value: Seq<char>, width: nat) -> Seq<char> {
    if value.len() <= width {
        value
    } else if width <= 3 {
        value.take(width as int)
    } else {
        value.take(width - 3) + "..."@
    }
}

/// A cut value takes exactly `width` characters, the whole value when it
/// fits; a value cut to more than three characters keeps its start and ends
/// in `...`; to three or fewer it keeps only its start.
pub proof fn law_truncate_fits(value: Seq<char>, width: nat)
    ensures
        ({
            let r = truncate_spec(value, width);
            &&& r.len() == (if value.len() <= width {
                value.len()
            } else {
                width
            })
            &&& value.len() <= width ==> r == value
            &&& value.len() > width && width > 3 ==> r.take(width - 3) == value.take(width - 3)
                && r.skip(width - 3) == "..."@
            &&& value.len() > width && width <= 3 ==> r == value.take(width as int)
        }),
{
    reveal_strlit("...");
    let r = truncate_spec(value, width);
    if value.len() > width && width > 3 {
        assert(r.take(width - 3) =~= value.take(width - 3));
        assert(r.skip(width - 3) =~= "..."@);
    }
}

/// `value` cut to `width` characters, ending in `...` when it was cut.
pub fn truncate(value: &str, width: usize) -> (r: String)
    ensures
        r@ == truncate_spec(value@, width as nat),
{
    let cs = chars_of(value);
    if cs.len() <= width {
        return owned(value);
    }
    if width <= 3 {
        let t = sub_chars(cs.as_slice(), 0, width);
        return string_from(t.as_slice());
    }
    let t = sub_chars(cs.as_slice(), 0, width - 3);
    let mut s = string_from(t.as_slice());
    push_str(&mut s, "...");
    s
}

/// What `str::to_lowercase` gives.
pub uninterp spec fn lowercase_of(s: Seq<char>) -> Seq<char>;

/// `str::to_lowercase` (std): the Unicode lower case of a string. Claimed
/// beyond the name, as std documents the mapping: on ASCII text it lowers
/// A to Z and keeps every other character.
#[verifier::external_body]
fn to_lowercase(s: &str) -> (r: String)
    ensures
        r@ == lowercase_of(s@),
        (forall|i: int| 0 <= i < s@.len() ==> (#[trigger] s@[i] as u32) < 128) ==> r@ == lower_seq(
            s@,
        ),
{
    s.to_lowercase()
}

/// The first project, from `k` on, with the given id.
pub open spec fn first_with_id(ps: Seq<Project>, id: int, k: int) -> int
    decreases ps.len() - k,
{
    if k < 0 || k >= ps.len() {
        ps.len() as int
    } else if ps[k].id as int == id {
        k
    } else {
        first_with_id(ps, id, k + 1)
    }
}

/// The first project, from `k` on, registered at `path`.
pub open spec fn first_with_path(ps: Seq<Project>, path: Seq<char>, k: int) -> int
    decreases ps.len() - k,
{
    if k < 0 || k >= ps.len() {
        ps.len() as int
    } else if ps[k].path@ == path {
        k
    } else {
        first_with_path(ps, path, k + 1)
    }
}

/// The first project, from `k` on, named `t` (ignoring ASCII case) or
/// registered at `t`.
pub open spec fn first_named(ps: Seq<Project>, t: Seq<char>, k: int) -> int
    decreases ps.len() - k,
{
    if k < 0 || k >= ps.len() {
        ps.len() as int
    } else if eq_ignore_case(ps[k].name@, t) || ps[k].path@ == t {
        k
    } else {
        first_named(ps, t, k + 1)
    }
}

pub open spec fn fuzzy_match(p: Project, lowered: Seq<char>) -> bool {
    contains(lowercase_of(p.name@), lowered) || contains(lowercase_of(p.path@), lowered)
}

/// Positions, below `n`, of the projects whose lower-cased name or path
/// contains `lowered`.
pub open spec fn fuzzy_indices(ps: Seq<Project>, lowered: Seq<char>, n: int) -> Seq<int>
    decreases n,
{
    if n <= 0 || n > ps.len() {
        Seq::empty()
    } else if fuzzy_match(ps[n - 1], lowered) {
        fuzzy_indices(ps, lowered, n - 1).push(n - 1)
    } else {
        fuzzy_indices(ps, lowered, n - 1)
    }
}

proof fn lemma_first_with_id(ps: Seq<Project>, id: int, k: int)
    requires
        0 <= k <= ps.len(),
    ensures
        k <= first_with_id(ps, id, k) <= ps.len(),
        first_with_id(ps, id, k) < ps.len() ==> ps[first_with_id(ps, id, k)].id as int == id,
        first_with_id(ps, id, k) == ps.len() ==> forall|j: int| k <= j < ps.len() ==> ps[j].id as int != id,
    decreases ps.len() - k,
{
    if k < ps.len() && ps[k].id as int != id {
        lemma_first_with_id(ps, id, k + 1);
    }
}

proof fn lemma_first_with_path(ps: Seq<Project>, path: Seq<char>, k: int)
    requires
        0 <= k <= ps.len(),
    ensures
        k <= first_with_path(ps, path, k) <= ps.len(),
        first_with_path(ps, path, k) < ps.len() ==> ps[first_with_path(ps, path, k)].path@ == path,
        first_with_path(ps, path, k) == ps.len() ==> forall|j: int| k <= j < ps.len() ==> ps[j].path@ != path,
    decreases ps.len() - k,
{
    if k < ps.len() && ps[k].path@ != path {
        lemma_first_with_path(ps, path, k + 1);
    }
}

proof fn lemma_first_named(ps: Seq<Project>, t: Seq<char>, k: int)
    requires
        0 <= k <= ps.len(),
    ensures
        k <= first_named(ps, t, k) <= ps.len(),
        first_named(ps, t, k) < ps.len() ==> (eq_ignore_case(ps[first_named(ps, t, k)].name@, t)
            || ps[first_named(ps, t, k)].path@ == t),
        first_named(ps, t, k) == ps.len() ==> forall|j: int|
            k <= j < ps.len() ==> !eq_ignore_case(ps[j].name@, t) && ps[j].path@ != t,
    decreases ps.len() - k,
{
    if k < ps.len() && !(eq_ignore_case(ps[k].name@, t) || ps[k].path@ == t) {
        lemma_first_named(ps, t, k + 1);
    }
}

proof fn lemma_fuzzy_indices(ps: Seq<Project>, lowered: Seq<char>, n: int)
    requires
        0 <= n <= ps.len(),
    ensures
        forall|k: int|
            0 <= k < fuzzy_indices(ps, lowered, n).len() ==> 0 <= #[trigger] fuzzy_indices(
                ps,
                lowered,
                n,
            )[k] < n && fuzzy_match(ps[fuzzy_indices(ps, lowered, n)[k]], lowered),
        forall|j: int|
            0 <= j < n && fuzzy_match(#[trigger] ps[j], lowered) ==> fuzzy_indices(
                ps,
                lowered,
                n,
            ).contains(j),
    decreases n,
{
    if n > 0 {
        lemma_fuzzy_indices(ps, lowered, n - 1);
        let prev = fuzzy_indices(ps, lowered, n - 1);
        assert forall|j: int| 0 <= j < n && fuzzy_match(#[trigger] ps[j], lowered) implies fuzzy_indices(
            ps,
            lowered,
            n,
        ).contains(j) by {
            if j < n - 1 {
                let q = choose|q: int| 0 <= q < prev.len() && prev[q] == j;
                if fuzzy_match(ps[n - 1], lowered) {
                    assert(fuzzy_indices(ps, lowered, n)[q] == j);
                } else {
                    assert(fuzzy_indices(ps, lowered, n)[q] == j);
                }
            } else {
                assert(fuzzy_indices(ps, lowered, n)[prev.len() as int] == j);
            }
        }
    }
}

/// How a project reference is resolved: a blank reference is refused; a
/// number that is some project's id names that project; else a resolved
/// path that is some project's path; else a name equal to the reference
/// (ASCII case ignored) or a path equal to it; else the one project whose
/// lower-cased name or path contains the lower-cased reference. Several
/// such projects make the reference ambiguous, and none leaves it unfound.
pub proof fn law_find_project_order(ps: Seq<Project>, reference: Seq<char>, resolved: Option<Seq<char>>)
    ensures
        ({
            let t = trim(reference);
            let r = find_spec(ps, reference, resolved);
            let id_hit = parse_i64_spec(t) matches Some(id) && exists|j: int|
                0 <= j < ps.len() && ps[j].id as int == id;
            let path_hit = resolved matches Some(rp) && exists|j: int|
                0 <= j < ps.len() && ps[j].path@ == rp;
            let name_hit = exists|j: int|
                0 <= j < ps.len() && (eq_ignore_case(ps[j].name@, t) || ps[j].path@ == t);
            let lowered = lowercase_of(t);
            &&& t.len() == 0 <==> r == FindOutcome::Empty
            &&& r matches FindOutcome::Found(i) ==> 0 <= i < ps.len()
            &&& t.len() > 0 && id_hit ==> (r matches FindOutcome::Found(i) && parse_i64_spec(t)
                == Some(ps[i].id as int))
            &&& t.len() > 0 && !id_hit && path_hit ==> (r matches FindOutcome::Found(i) && resolved
                == Some(ps[i].path@))
            &&& t.len() > 0 && !id_hit && !path_hit && name_hit ==> (r matches FindOutcome::Found(i)
                && (eq_ignore_case(ps[i].name@, t) || ps[i].path@ == t))
            &&& t.len() > 0 && !id_hit && !path_hit && !name_hit ==> {
                &&& r matches FindOutcome::Found(i) ==> fuzzy_match(ps[i], lowered) && forall|j: int|
                    0 <= j < ps.len() && j != i ==> !fuzzy_match(#[trigger] ps[j], lowered)
                &&& r == FindOutcome::NotFound ==> forall|j: int|
                    0 <= j < ps.len() ==> !fuzzy_match(#[trigger] ps[j], lowered)
                &&& r matches FindOutcome::Ambiguous(ms) ==> ms.len() >= 2 && forall|k: int|
                    0 <= k < ms.len() ==> fuzzy_match(ps[#[trigger] ms[k]], lowered)
            }
        }),
{
    let t = trim(reference);
    let n = ps.len() as int;
    if let Some(id) = parse_i64_spec(t) {
        lemma_first_with_id(ps, id, 0);
    }
    if let Some(rp) = resolved {
        lemma_first_with_path(ps, rp, 0);
    }
    lemma_first_named(ps, t, 0);
    let lowered = lowercase_of(t);
    lemma_fuzzy_indices(ps, lowered, n);
    let ms = fuzzy_indices(ps, lowered, n);
    if ms.len() == 1 {
        assert forall|j: int| 0 <= j < ps.len() && j != ms[0] implies !fuzzy_match(#[trigger] ps[j], lowered) by {
            if fuzzy_match(ps[j], lowered) {
                assert(ms.contains(j));
            }
        }
    }
    if ms.len() == 0 {
        assert forall|j: int| 0 <= j < ps.len() implies !fuzzy_match(#[trigger] ps[j], lowered) by {
            if fuzzy_match(ps[j], lowered) {
                assert(ms.contains(j));
            }
        }
    }
}

pub enum FindOutcome {
    Found(int),
    Empty,
    NotFound,
    Ambiguous(Seq<int>),
}

/// Which project a reference names: by id, then by resolved path, then by
/// exact name (ASCII case ignored) or registered path, then by a unique
/// case-insensitive fragment of name or path.
pub open spec fn find_spec(ps: Seq<Project>, reference: Seq<char>, resolved: Option<Seq<char>>) -> FindOutcome {
    let t = trim(reference);
    let by_id = match parse_i64_spec(t) {
        Some(id) => first_with_id(ps, id, 0),
        None => ps.len() as int,
    };
    let by_path = match resolved {
        Some(rp) => first_with_path(ps, rp, 0),
        None => ps.len() as int,
    };
    let by_name = first_named(ps, t, 0);
    let ms = fuzzy_indices(ps, lowercase_of(t), ps.len() as int);
    if t.len() == 0 {
        FindOutcome::Empty
    } else if by_id < ps.len() {
        FindOutcome::Found(by_id)
    } else if by_path < ps.len() {
        FindOutcome::Found(by_path)
    } else if by_name < ps.len() {
        FindOutcome::Found(by_name)
    } else if ms.len() == 1 {
        FindOutcome::Found(ms[0])
    } else if ms.len() == 0 {
        FindOutcome::NotFound
    } else {
        FindOutcome::Ambiguous(ms)
    }
}

pub open spec fn choice_spec(p: Project) -> Seq<char> {
    "#"@ + signed_decimal(p.id as int) + " "@ + p.name@
}

/// `#id name` of each matching project, separated by `, `.
pub open spec fn choices_spec(ps: Seq<Project>, ms: Seq<int>) -> Seq<char>
    decreases ms.len(),
{
    if ms.len() == 0 {
        Seq::empty()
    } else if ms.len() == 1 {
        choice_spec(ps[ms[0]])
    } else {
        choices_spec(ps, ms.drop_last()) + ", "@ + choice_spec(ps[ms.last()])
    }
}

/// Why a project reference names no project.
#[derive(Debug, Clone, PartialEq, Eq)]
pub enum FindError {
    EmptyReference,
    NotFound { reference: String },
    Ambiguous { reference: String, choices: String },
}

impl FindError {
    pub open spec fn message_spec(self) -> Seq<char> {
        match self {
            FindError::EmptyReference => "project reference cannot be empty"@,
            FindError::NotFound { reference } => "project not found: "@ + reference@
                + ". Run `prm list --all` to see registered projects"@,
            FindError::Ambiguous { reference, choices } => "project reference is ambiguous: "@
                + reference@ + ". Matches: "@ + choices@,
        }
    }

    pub fn message(&self) -> (r: String)
        ensures
            r@ == self.message_spec(),
    {
        match self {
            FindError::EmptyReference => owned("project reference cannot be empty"),
            FindError::NotFound { reference } => {
                let mut s = concat("project not found: ", reference.as_str());
                push_str(&mut s, ". Run `prm list --all` to see registered projects");
                s
            },
            FindError::Ambiguous { reference, choices } => {
                let mut s = concat("project reference is ambiguous: ", reference.as_str());
                push_str(&mut s, ". Matches: ");
                push_str(&mut s, choices.as_str());
                s
            },
        }
    }
}

proof fn lemma_fuzzy_bounds(ps: Seq<Project>, lowered: Seq<char>, n: int)
    requires
        0 <= n <= ps.len(),
    ensures
        forall|j: int|
            0 <= j < fuzzy_indices(ps, lowered, n).len() ==> 0 <= #[trigger] fuzzy_indices(
                ps,
                lowered,
                n,
            )[j] < n,
    decreases n,
{
    if n > 0 {
        lemma_fuzzy_bounds(ps, lowered, n - 1);
        let prev = fuzzy_indices(ps, lowered, n - 1);
        let cur = fuzzy_indices(ps, lowered, n);
        assert forall|j: int| 0 <= j < cur.len() implies 0 <= #[trigger] cur[j] < n by {
            if j < prev.len() {
                assert(cur[j] == prev[j]);
            }
        }
    }
}

/// The project a reference names, among `projects`; `resolved` is the
/// reference resolved as a directory path, where it is one.
pub fn find_project(projects: &[Project], project_ref: &str, resolved: Option<&str>) -> (r: Result<
    Project,
    FindError,
>)
    ensures
        match find_spec(projects@, project_ref@, crate::db::repo::opt_view(resolved)) {
            FindOutcome::Found(i) => r == Ok::<Project, FindError>(projects@[i]),
            FindOutcome::Empty => r == Err::<Project, FindError>(FindError::EmptyReference),
            FindOutcome::NotFound => r matches Err(FindError::NotFound { reference }) && reference@
                == trim(project_ref@),
            FindOutcome::Ambiguous(ms) => r matches Err(FindError::Ambiguous { reference, choices })
                && reference@ == trim(project_ref@) && choices@ == choices_spec(projects@, ms),
        },
{
    let ghost ps = projects@;
    let cs = chars_of(project_ref);
    let t = trim_chars(cs.as_slice());
    let t = t.as_slice();
    if t.len() == 0 {
        return Err(FindError::EmptyReference);
    }
    // By id.
    let mut by_id = projects.len();
    match parse_i64(t) {
        Some(id) => {
            let mut k: usize = 0;
            while k < projects.len() && projects[k].id != id
                invariant
                    k <= ps.len(),
                    projects@ == ps,
                    first_with_id(ps, id as int, 0) == first_with_id(ps, id as int, k as int),
                decreases ps.len() - k,
            {
                k = k + 1;
            }
            by_id = k;
        },
        None => {},
    }
    if by_id < projects.len() {
        return Ok(projects[by_id].duplicate());
    }
    // By resolved path.
    if let Some(rp) = resolved {
        let mut k: usize = 0;
        while k < projects.len() && !str_eq(projects[k].path.as_str(), rp)
            invariant
                k <= ps.len(),
                projects@ == ps,
                first_with_path(ps, rp@, 0) == first_with_path(ps, rp@, k as int),
            decreases ps.len() - k,
        {
            k = k + 1;
        }
        if k < projects.len() {
            return Ok(projects[k].duplicate());
        }
    }
    // By exact name or path.
    let mut k: usize = 0;
    let mut found = false;
    while k < projects.len() && !found
        invariant
            k <= ps.len(),
            projects@ == ps,
            !found ==> first_named(ps, t@, 0) == first_named(ps, t@, k as int),
            found ==> first_named(ps, t@, 0) == k && k < ps.len(),
        decreases 2 * (ps.len() - k) + if found {
            0int
        } else {
            1int
        },
    {
        let name = chars_of(projects[k].name.as_str());
        let path = chars_of(projects[k].path.as_str());
        if eq_ignore_ascii_case(name.as_slice(), t) || crate::text::chars_eq(path.as_slice(), t) {
            found = true;
        } else {
            k = k + 1;
        }
    }
    if found {
        return Ok(projects[k].duplicate());
    }
    // By a unique fragment.
    let ts = string_from(t);
    let lowered = to_lowercase(ts.as_str());
    let lc = chars_of(lowered.as_str());
    let mut ms: Vec<usize> = Vec::new();
    let mut n: usize = 0;
    while n < projects.len()
        invariant
            n <= ps.len(),
            projects@ == ps,
            lc@ == lowercase_of(t@),
            ms@.map_values(|x: usize| x as int) == fuzzy_indices(ps, lowercase_of(t@), n as int),
        decreases ps.len() - n,
    {
        let ln = to_lowercase(projects[n].name.as_str());
        let lp = to_lowercase(projects[n].path.as_str());
        let cn = chars_of(ln.as_str());
        let cp = chars_of(lp.as_str());
        let ghost before = ms@;
        if contains_chars(cn.as_slice(), lc.as_slice()) || contains_chars(cp.as_slice(), lc.as_slice()) {
            ms.push(n);
            proof {
                assert(ms@.map_values(|x: usize| x as int) =~= before.map_values(|x: usize| x as int).push(n as int));
            }
        }
        n = n + 1;
    }
    proof {
        lemma_fuzzy_bounds(ps, lowercase_of(t@), ps.len() as int);
        assert(ms@.len() == fuzzy_indices(ps, lowercase_of(t@), ps.len() as int).len());
    }
    if ms.len() == 1 {
        proof {
            assert(ms@.map_values(|x: usize| x as int)[0] == ms@[0] as int);
        }
        return Ok(projects[ms[0]].duplicate());
    }
    if ms.len() == 0 {
        return Err(FindError::NotFound { reference: ts });
    }
    let mut choices = String::new();
    let mut j: usize = 0;
    let ghost all = fuzzy_indices(ps, lowercase_of(t@), ps.len() as int);
    while j < ms.len()
        invariant
            j <= ms@.len(),
            projects@ == ps,
            ms@.map_values(|x: usize| x as int) == all,
            forall|q: int| 0 <= q < all.len() ==> 0 <= #[trigger] all[q] < ps.len(),
            choices@ == choices_spec(ps, all.take(j as int)),
        decreases ms@.len() - j,
    {
        proof {
            assert(ms@.map_values(|x: usize| x as int)[j as int] == ms@[j as int] as int);
            assert(all.take(j + 1).drop_last() =~= all.take(j as int));
        }
        let p = &projects[ms[j]];
        if j > 0 {
            push_str(&mut choices, ", ");
        }
        push_str(&mut choices, "#");
        let d = i64_chars(p.id);
        push_chars(&mut choices, d.as_slice());
        push_str(&mut choices, " ");
        push_str(&mut choices, p.name.as_str());
        proof {
            if j == 0 {
                assert(all.take(1) =~= seq![all[0]]);
                assert(choices@ =~= choices_spec(ps, all.take(1)));
            } else {
                assert(choices@ =~= choices_spec(ps, all.take(j + 1)));
            }
        }
        j = j + 1;
    }
    proof {
        assert(all.take(j as int) =~= all);
    }
    Err(FindError::Ambiguous { reference: ts, choices })
}


pub open spec fn missing_todo_spec(todo_id: i64, project: Project) -> Seq<char> {
    "todo #"@ + signed_decimal(todo_id as int) + " was not found in "@ + project.name@
        + ". Run `prm todo list -p "@ + signed_decimal(project.id as int) + "` to see valid ids"@
}

/// Refuses a todo id that is not one of the project's todos.
pub fn ensure_todo_exists(todos: &[Todo], todo_id: i64, project: &Project) -> (r: Result<(), String>)
    ensures
        r is Ok <==> exists|i: int| 0 <= i < todos@.len() && todos@[i].id == todo_id,
        r is Err ==> r->Err_0@ == missing_todo_spec(todo_id, *project),
{
    let mut k: usize = 0;
    while k < todos.len()
        invariant
            k <= todos@.len(),
            forall|j: int| 0 <= j < k ==> todos@[j].id != todo_id,
        decreases todos@.len() - k,
    {
        if todos[k].id == todo_id {
            return Ok(());
        }
        k = k + 1;
    }
    let mut m = owned("todo #");
    push_chars(&mut m, i64_chars(todo_id).as_slice());
    push_str(&mut m, " was not found in ");
    push_str(&mut m, project.name.as_str());
    push_str(&mut m, ". Run `prm todo list -p ");
    push_chars(&mut m, i64_chars(project.id).as_slice());
    push_str(&mut m, "` to see valid ids");
    Err(m)
}

pub open spec fn upsert_verb(status: UpsertStatus) -> Seq<char> {
    match status {
        UpsertStatus::Added => "added"@,
        UpsertStatus::Updated => "updated"@,
        UpsertStatus::Existing => "already exists"@,
    }
}

/// What `prm add` prints for each directory.
pub fn upsert_line(status: UpsertStatus, project: &Project) -> (r: String)
    ensures
        r@ == upsert_verb(status) + ": "@ + project.name@ + " ("@ + project.path@ + ")"@,
{
    let mut s = match status {
        UpsertStatus::Added => owned("added"),
        UpsertStatus::Updated => owned("updated"),
        UpsertStatus::Existing => owned("already exists"),
    };
    push_str(&mut s, ": ");
    push_str(&mut s, project.name.as_str());
    push_str(&mut s, " (");
    push_str(&mut s, project.path.as_str());
    push_str(&mut s, ")");
    s
}

/// The heading of `prm list`.
pub fn list_header() -> (r: &'static str)
    ensures
        r@ == "ID   Name                     Status    Todos    Src   Path"@,
{
    "ID   Name                     Status    Todos    Src   Path"
}

pub open spec fn list_row_spec(project: Project, todo_count: usize) -> Seq<char> {
    pad_right(signed_decimal(project.id as int), 4) + " "@ + pad_right(
        truncate_spec(project.name@, 24),
        24,
    ) + " "@ + pad_right(
        if project.archived {
            "archived"@
        } else {
            "active"@
        },
        9,
    ) + " "@ + pad_right(decimal(todo_count as nat), 8) + " "@ + pad_right(project.todo_source@, 5)
        + " "@ + project.path@
}

/// One project line of `prm list`: id, name cut to 24 characters, state,
/// open todos and todo source in padded columns, then the path.
pub fn list_row(project: &Project, todo_count: usize) -> (r: String)
    ensures
        r@ == list_row_spec(*project, todo_count),
{
    let id = string_from(i64_chars(project.id).as_slice());
    let mut s = padded(id.as_str(), 4);
    push_str(&mut s, " ");
    let name = truncate(project.name.as_str(), 24);
    push_str(&mut s, padded(name.as_str(), 24).as_str());
    push_str(&mut s, " ");
    let state = if project.archived {
        "archived"
    } else {
        "active"
    };
    push_str(&mut s, padded(state, 9).as_str());
    push_str(&mut s, " ");
    let count = string_from(crate::numfmt::u64_chars(todo_count as u64).as_slice());
    push_str(&mut s, padded(count.as_str(), 8).as_str());
    push_str(&mut s, " ");
    push_str(&mut s, padded(project.todo_source.as_str(), 5).as_str());
    push_str(&mut s, " ");
    push_str(&mut s, project.path.as_str());
    s
}

} // verus!
