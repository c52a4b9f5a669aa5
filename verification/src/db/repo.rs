//! The decisions of the project and todo store that do not touch the
//! database itself: names and titles as stored, which query lists projects,
//! what an upsert does, and the order todos are renumbered in.
use vstd::prelude::*;

use crate::domain::project::Project;
use crate::text::{chars_of, concat, owned, push_str, string_from, trim, trim_chars};

verus! {

/// Which way a todo moves in its list.
#[derive(Debug, Clone, Copy, PartialEq, Eq, Structural)]
pub enum MoveDirection {
    Up,
    Down,
}

#[derive(Debug, Clone, Copy, PartialEq, Eq, Structural)]
pub enum UpsertStatus {
    Added,
    Updated,
    Existing,
}

/// What `upsert_project` did, and the project as stored.
#[derive(Debug, Clone)]
pub struct UpsertResult {
    pub status: UpsertStatus,
    pub project: Project,
}

/// Input the store refuses.
#[derive(Debug, Clone, Copy, PartialEq, Eq, Structural)]
pub enum RepoError {
    EmptyProjectName,
    EmptyTodoTitle,
}

impl RepoError {
    pub open spec fn message_spec(self) -> Seq<char> {
        match self {
            RepoError::EmptyProjectName => "project name cannot be empty"@,
            RepoError::EmptyTodoTitle => "todo title cannot be empty"@,
        }
    }

    pub fn message(&self) -> (r: String)
        ensures
            r@ == self.message_spec(),
    {
        match self {
            RepoError::EmptyProjectName => owned("project name cannot be empty"),
            RepoError::EmptyTodoTitle => owned("todo title cannot be empty"),
        }
    }
}

fn trimmed(s: &str) -> (r: String)
    ensures
        r@ == trim(s@),
{
    let cs = chars_of(s);
    let t = trim_chars(cs.as_slice());
    string_from(t.as_slice())
}

/// A project name as stored: trimmed, and not empty.
pub fn normalize_project_name(name: &str) -> (r: Result<String, RepoError>)
    ensures
        trim(name@).len() == 0 <==> r == Err::<String, RepoError>(RepoError::EmptyProjectName),
        r is Ok ==> r->Ok_0@ == trim(name@),
{
    let t = trimmed(name);
    if t.unicode_len() == 0 {
        Err(RepoError::EmptyProjectName)
    } else {
        Ok(t)
    }
}

/// A todo title as stored: trimmed, and not empty.
pub fn normalize_todo_title(title: &str) -> (r: Result<String, RepoError>)
    ensures
        trim(title@).len() == 0 <==> r == Err::<String, RepoError>(RepoError::EmptyTodoTitle),
        r is Ok ==> r->Ok_0@ == trim(title@),
{
    let t = trimmed(title);
    if t.unicode_len() == 0 {
        Err(RepoError::EmptyTodoTitle)
    } else {
        Ok(t)
    }
}

/// The `LIKE` pattern of a project filter: the trimmed text between `%`
/// signs, or no filter when it is blank.
pub fn project_filter_pattern(filter: Option<&str>) -> (r: Option<String>)
    ensures
        match filter {
            None => r is None,
            Some(f) => if trim(f@).len() == 0 {
                r is None
            } else {
                r is Some && r->0@ == "%"@ + trim(f@) + "%"@
            },
        },
{
    match filter {
        None => None,
        Some(f) => {
            let t = trimmed(f);
            if t.unicode_len() == 0 {
                None
            } else {
                let mut p = concat("%", t.as_str());
                push_str(&mut p, "%");
                Some(p)
            }
        },
    }
}

pub open spec fn list_query_spec(show_archived: bool, filtered: bool) -> Seq<char> {
    if show_archived && filtered {
        "SELECT id, name, path, archived, todo_source, created_at, updated_at FROM projects WHERE name LIKE ?1 OR path LIKE ?1 ORDER BY archived ASC, name COLLATE NOCASE ASC"@
    } else if filtered {
        "SELECT id, name, path, archived, todo_source, created_at, updated_at FROM projects WHERE archived = 0 AND (name LIKE ?1 OR path LIKE ?1) ORDER BY name COLLATE NOCASE ASC"@
    } else if show_archived {
        "SELECT id, name, path, archived, todo_source, created_at, updated_at FROM projects ORDER BY archived ASC, name COLLATE NOCASE ASC"@
    } else {
        "SELECT id, name, path, archived, todo_source, created_at, updated_at FROM projects WHERE archived = 0 ORDER BY name COLLATE NOCASE ASC"@
    }
}

/// The query that lists projects: archived ones only when asked for (and
/// then after the others), matched against name and path when filtered,
/// by name without regard to case.
pub fn list_projects_query(show_archived: bool, filtered: bool) -> (r: &'static str)
    ensures
        r@ == list_query_spec(show_archived, filtered),
{
    if show_archived && filtered {
        "SELECT id, name, path, archived, todo_source, created_at, updated_at FROM projects WHERE name LIKE ?1 OR path LIKE ?1 ORDER BY archived ASC, name COLLATE NOCASE ASC"
    } else if filtered {
        "SELECT id, name, path, archived, todo_source, created_at, updated_at FROM projects WHERE archived = 0 AND (name LIKE ?1 OR path LIKE ?1) ORDER BY name COLLATE NOCASE ASC"
    } else if show_archived {
        "SELECT id, name, path, archived, todo_source, created_at, updated_at FROM projects ORDER BY archived ASC, name COLLATE NOCASE ASC"
    } else {
        "SELECT id, name, path, archived, todo_source, created_at, updated_at FROM projects WHERE archived = 0 ORDER BY name COLLATE NOCASE ASC"
    }
}

/// `needle` occurs in `text`.
pub open spec fn has_part(text: Seq<char>, needle: Seq<char>) -> bool {
    exists|i: int, j: int|
        0 <= i && j == i + needle.len() && j <= text.len() && #[trigger] text.subrange(i, j) == needle
}

/// Every listing query selects the project columns; a filtered one matches
/// the pattern against the name or the path; unless archived projects are
/// asked for, it keeps only unarchived ones (and a filter does not let
/// archived ones through); archived projects, when shown, come after the
/// others, and the list is ordered by name without regard to case.
pub proof fn law_list_query_parts(show_archived: bool, filtered: bool)
    ensures
        ({
            let q = list_query_spec(show_archived, filtered);
            &&& has_part(q, "SELECT id, name, path, archived, todo_source, created_at, updated_at FROM projects"@)
            &&& filtered ==> has_part(q, "name LIKE ?1 OR path LIKE ?1"@)
            &&& !show_archived ==> has_part(q, "WHERE archived = 0"@)
            &&& !show_archived && filtered ==> has_part(q, "archived = 0 AND (name LIKE ?1 OR path LIKE ?1)"@)
            &&& show_archived ==> has_part(q, "ORDER BY archived ASC, name COLLATE NOCASE ASC"@)
            &&& !show_archived ==> has_part(q, "ORDER BY name COLLATE NOCASE ASC"@)
        }),
{
    reveal_strlit("SELECT id, name, path, archived, todo_source, created_at, updated_at FROM projects WHERE name LIKE ?1 OR path LIKE ?1 ORDER BY archived ASC, name COLLATE NOCASE ASC");
    reveal_strlit("SELECT id, name, path, archived, todo_source, created_at, updated_at FROM projects WHERE archived = 0 AND (name LIKE ?1 OR path LIKE ?1) ORDER BY name COLLATE NOCASE ASC");
    reveal_strlit("SELECT id, name, path, archived, todo_source, created_at, updated_at FROM projects ORDER BY archived ASC, name COLLATE NOCASE ASC");
    reveal_strlit("SELECT id, name, path, archived, todo_source, created_at, updated_at FROM projects WHERE archived = 0 ORDER BY name COLLATE NOCASE ASC");
    reveal_strlit("SELECT id, name, path, archived, todo_source, created_at, updated_at FROM projects");
    reveal_strlit("name LIKE ?1 OR path LIKE ?1");
    reveal_strlit("WHERE archived = 0");
    reveal_strlit("archived = 0 AND (name LIKE ?1 OR path LIKE ?1)");
    reveal_strlit("ORDER BY archived ASC, name COLLATE NOCASE ASC");
    reveal_strlit("ORDER BY name COLLATE NOCASE ASC");
    let q = list_query_spec(show_archived, filtered);
    if show_archived == true && filtered == true {
        assert(q.subrange(0, 82) =~= "SELECT id, name, path, archived, todo_source, created_at, updated_at FROM projects"@);
        assert(q.subrange(89, 117) =~= "name LIKE ?1 OR path LIKE ?1"@);
        assert(q.subrange(118, 164) =~= "ORDER BY archived ASC, name COLLATE NOCASE ASC"@);
    }
    if show_archived == false && filtered == true {
        assert(q.subrange(0, 82) =~= "SELECT id, name, path, archived, todo_source, created_at, updated_at FROM projects"@);
        assert(q.subrange(107, 135) =~= "name LIKE ?1 OR path LIKE ?1"@);
        assert(q.subrange(83, 101) =~= "WHERE archived = 0"@);
        assert(q.subrange(89, 136) =~= "archived = 0 AND (name LIKE ?1 OR path LIKE ?1)"@);
        assert(q.subrange(137, 169) =~= "ORDER BY name COLLATE NOCASE ASC"@);
    }
    if show_archived == true && filtered == false {
        assert(q.subrange(0, 82) =~= "SELECT id, name, path, archived, todo_source, created_at, updated_at FROM projects"@);
        assert(q.subrange(83, 129) =~= "ORDER BY archived ASC, name COLLATE NOCASE ASC"@);
    }
    if show_archived == false && filtered == false {
        assert(q.subrange(0, 82) =~= "SELECT id, name, path, archived, todo_source, created_at, updated_at FROM projects"@);
        assert(q.subrange(83, 101) =~= "WHERE archived = 0"@);
        assert(q.subrange(102, 134) =~= "ORDER BY name COLLATE NOCASE ASC"@);
    }
}

/// What registering a directory does to the store.
#[derive(Debug, Clone, PartialEq, Eq)]
pub enum UpsertPlan {
    /// A new project with this name.
    Insert { name: String },
    /// The project already there gets this name.
    Rename { project_id: i64, name: String },
    /// The project already there stays as it is.
    Keep,
}

/// The name a new project gets: the given one, trimmed, when not blank;
/// else the directory's own name; else the whole path.
pub open spec fn inferred_name(path: Seq<char>, file_name: Option<Seq<char>>, name: Option<Seq<char>>) -> Seq<
    char,
> {
    if name is Some && trim(name->0).len() > 0 {
        trim(name->0)
    } else if file_name is Some {
        file_name->0
    } else {
        path
    }
}

pub open spec fn opt_view(o: Option<&str>) -> Option<Seq<char>> {
    match o {
        Some(s) => Some(s@),
        None => None,
    }
}

/// Whether a given name replaces the current one: only a non-blank name
/// that differs once trimmed.
pub open spec fn renames(name: Option<Seq<char>>, current: Seq<char>) -> bool {
    name is Some && trim(name->0).len() > 0 && trim(name->0) != current
}

/// Registering the same directory again with the same name changes nothing:
/// neither the name a new project got nor the name a rename gave is renamed
/// by a second upsert.
pub proof fn law_upsert_again_keeps(path: Seq<char>, file_name: Option<Seq<char>>, name: Option<Seq<char>>)
    ensures
        !renames(name, inferred_name(path, file_name, name)),
        name is Some ==> !renames(name, trim(name->0)),
{
}

/// Decides an upsert of the directory at `path` (whose last component is
/// `file_name`, where it has one), given the project already registered at
/// that path, if any: a new project is inserted; an existing one is renamed
/// only when a different, non-blank name is given.
pub fn plan_upsert(
    existing: Option<&Project>,
    path: &str,
    file_name: Option<&str>,
    name: Option<&str>,
) -> (r: UpsertPlan)
    ensures
        match existing {
            Some(p) => if renames(opt_view(name), p.name@) {
                r matches UpsertPlan::Rename { project_id, name: n } && project_id == p.id && n@
                    == trim(name->0@)
            } else {
                r == UpsertPlan::Keep
            },
            None => r matches UpsertPlan::Insert { name: n } && n@ == inferred_name(
                path@,
                opt_view(file_name),
                opt_view(name),
            ),
        },
{
    let given = match name {
        Some(n) => {
            let t = trimmed(n);
            if t.unicode_len() == 0 {
                None
            } else {
                Some(t)
            }
        },
        None => None,
    };
    match existing {
        Some(p) => match given {
            Some(n) => {
                if crate::text::str_eq(n.as_str(), p.name.as_str()) {
                    UpsertPlan::Keep
                } else {
                    UpsertPlan::Rename { project_id: p.id, name: n }
                }
            },
            None => UpsertPlan::Keep,
        },
        None => {
            let n = match given {
                Some(n) => n,
                None => match file_name {
                    Some(f) => owned(f),
                    None => owned(path),
                },
            };
            UpsertPlan::Insert { name: n }
        },
    }
}

/// The first position of `id`.
pub open spec fn id_index(ids: Seq<i64>, id: i64, k: int) -> int
    decreases ids.len() - k,
{
    if k < 0 || k >= ids.len() {
        ids.len() as int
    } else if ids[k] == id {
        k
    } else {
        id_index(ids, id, k + 1)
    }
}

proof fn lemma_id_index(ids: Seq<i64>, id: i64, k: int)
    requires
        0 <= k <= ids.len(),
    ensures
        k <= id_index(ids, id, k) <= ids.len(),
        id_index(ids, id, k) < ids.len() ==> ids[id_index(ids, id, k)] == id,
        forall|j: int| k <= j < id_index(ids, id, k) ==> ids[j] != id,
    decreases ids.len() - k,
{
    if k < ids.len() && ids[k] != id {
        lemma_id_index(ids, id, k + 1);
    }
}

/// The order after moving `id` one place: `None` when it is not listed or
/// already first (moving up) or last (moving down).
pub open spec fn move_plan_spec(ids: Seq<i64>, id: i64, direction: MoveDirection) -> Option<Seq<i64>> {
    let i = id_index(ids, id, 0);
    if i >= ids.len() {
        None
    } else {
        match direction {
            MoveDirection::Up => if i == 0 {
                None
            } else {
                Some(ids.update(i, ids[i - 1]).update(i - 1, ids[i]))
            },
            MoveDirection::Down => if i + 1 >= ids.len() {
                None
            } else {
                Some(ids.update(i, ids[i + 1]).update(i + 1, ids[i]))
            },
        }
    }
}

/// The ids of a project's todos, in list order, after moving `todo_id` one
/// place in `direction`; `None` when it cannot move.
pub fn move_plan(ids: &[i64], todo_id: i64, direction: MoveDirection) -> (r: Option<Vec<i64>>)
    ensures
        match r {
            Some(v) => move_plan_spec(ids@, todo_id, direction) == Some(v@),
            None => move_plan_spec(ids@, todo_id, direction) is None,
        },
{
    let mut k: usize = 0;
    while k < ids.len() && ids[k] != todo_id
        invariant
            k <= ids@.len(),
            id_index(ids@, todo_id, 0) == id_index(ids@, todo_id, k as int),
        decreases ids@.len() - k,
    {
        k = k + 1;
    }
    proof {
        lemma_id_index(ids@, todo_id, 0);
    }
    if k >= ids.len() {
        return None;
    }
    let target = match direction {
        MoveDirection::Up => if k > 0 {
            k - 1
        } else {
            return None;
        },
        MoveDirection::Down => if k + 1 < ids.len() {
            k + 1
        } else {
            return None;
        },
    };
    let mut v: Vec<i64> = Vec::new();
    let mut c: usize = 0;
    while c < ids.len()
        invariant
            c <= ids@.len(),
            v@ == ids@.take(c as int),
        decreases ids@.len() - c,
    {
        v.push(ids[c]);
        proof {
            assert(ids@.take(c + 1) =~= ids@.take(c as int).push(ids@[c as int]));
        }
        c = c + 1;
    }
    proof {
        assert(ids@.take(c as int) =~= ids@);
    }
    let a = v[k];
    let b = v[target];
    v.set(k, b);
    v.set(target, a);
    Some(v)
}

/// Renumbering a project's todos in the given order: first every todo is
/// parked at ten thousand past its place, then put on its place, so that no
/// two todos ever share a place on the way.
pub fn sort_order_plan(ids: &[i64]) -> (r: (Vec<(i64, i64)>, Vec<(i64, i64)>))
    requires
        ids@.len() <= i64::MAX - 9999,
    ensures
        r.0@.len() == ids@.len(),
        r.1@.len() == ids@.len(),
        forall|i: int| 0 <= i < ids@.len() ==> #[trigger] r.0@[i] == (ids@[i], (i + 10000) as i64),
        forall|i: int| 0 <= i < ids@.len() ==> #[trigger] r.1@[i] == (ids@[i], i as i64),
{
    let mut parked: Vec<(i64, i64)> = Vec::new();
    let mut placed: Vec<(i64, i64)> = Vec::new();
    let mut i: usize = 0;
    while i < ids.len()
        invariant
            i <= ids@.len(),
            ids@.len() <= i64::MAX - 9999,
            parked@.len() == i,
            placed@.len() == i,
            forall|j: int| 0 <= j < i ==> #[trigger] parked@[j] == (ids@[j], (j + 10000) as i64),
            forall|j: int| 0 <= j < i ==> #[trigger] placed@[j] == (ids@[j], j as i64),
        decreases ids@.len() - i,
    {
        let place = i as i64;
        parked.push((ids[i], place + 10000));
        placed.push((ids[i], place));
        i = i + 1;
    }
    (parked, placed)
}

/// Moving a todo and then moving it back the other way restores the order.
pub proof fn law_move_round_trip(ids: Seq<i64>, id: i64, direction: MoveDirection)
    requires
        move_plan_spec(ids, id, direction) is Some,
        forall|a: int, b: int| 0 <= a < b < ids.len() ==> ids[a] != ids[b],
    ensures
        move_plan_spec(
            move_plan_spec(ids, id, direction)->0,
            id,
            match direction {
                MoveDirection::Up => MoveDirection::Down,
                MoveDirection::Down => MoveDirection::Up,
            },
        ) == Some(ids),
{
    let i = id_index(ids, id, 0);
    lemma_id_index(ids, id, 0);
    let moved = move_plan_spec(ids, id, direction)->0;
    let j = match direction {
        MoveDirection::Up => i - 1,
        MoveDirection::Down => i + 1,
    };
    lemma_id_index(moved, id, 0);
    assert(moved[j] == id);
    assert forall|x: int| 0 <= x < j implies moved[x] != id by {
        if x == i {
            assert(moved[x] == ids[j]);
        } else {
            assert(moved[x] == ids[x]);
        }
    }
    if id_index(moved, id, 0) != j {
        assert(moved[id_index(moved, id, 0)] == id);
    }
    assert(id_index(moved, id, 0) == j);
    let back = move_plan_spec(moved, id, match direction {
        MoveDirection::Up => MoveDirection::Down,
        MoveDirection::Down => MoveDirection::Up,
    })->0;
    assert(back =~= ids);
}

/// A move only swaps two neighbours: every id stays listed, none is added.
pub proof fn law_move_is_adjacent_swap(ids: Seq<i64>, id: i64, direction: MoveDirection)
    requires
        move_plan_spec(ids, id, direction) is Some,
    ensures
        move_plan_spec(ids, id, direction)->0.len() == ids.len(),
        move_plan_spec(ids, id, direction)->0.to_multiset() == ids.to_multiset(),
{
    let i = id_index(ids, id, 0);
    lemma_id_index(ids, id, 0);
    let j = match direction {
        MoveDirection::Up => i - 1,
        MoveDirection::Down => i + 1,
    };
    let moved = move_plan_spec(ids, id, direction)->0;
    broadcast use vstd::multiset::group_multiset_axioms;
    let once = ids.update(i, ids[j]);
    vstd::seq_lib::to_multiset_update(ids, i, ids[j]);
    vstd::seq_lib::to_multiset_update(once, j, ids[i]);
    assert(moved == once.update(j, ids[i]));
    assert(once[j] == ids[j]);
    vstd::seq_lib::to_multiset_contains(ids, ids[i]);
    assert(ids.contains(ids[i]));
    let m = ids.to_multiset();
    assert(m.count(ids[i]) > 0);
    assert(m.insert(ids[j]).count(ids[i]) > 0);
    assert(m.insert(ids[j]).remove(ids[i]).insert(ids[i]).count(ids[j]) > 0);
    assert(moved.to_multiset() =~= ids.to_multiset());
}

} // verus!
