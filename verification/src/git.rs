//! What the git state of a project is, decided from what `git`, `gh` and `glab` print.
//!
//! The commands themselves are run by the caller: each probe below is a step
//! function that, given the command it asked for last and that command's
//! outcome, either asks for the next command or gives its answer.
use vstd::prelude::*;
use vstd::utf8::encode_utf8;

use crate::fs::markdown::strs;
use crate::numfmt::{decimal, parse_u32, parse_unsigned, u64_chars};
use crate::text::{
    char_index, char_rindex, chars_eq, chars_of, contains, contains_chars, eq_ignore_ascii_case,
    eq_ignore_case, eq_lit, find, find_char, find_chars, has_prefix, has_suffix, ends_with,
    is_ascii_alnum, is_ascii_alpha, lines_spec, lower_seq, ascii_lowercase_chars, push_char,
    push_chars, push_str, rfind_char, split_chars, split_lines, split_spec, starts_with,
    string_from, sub_chars, trim, trim_chars, trim_matches, trim_matches_chars, trim_start,
    trim_start_chars, views,
};

verus! {

#[derive(Debug, Clone, PartialEq, Eq)]
pub enum GitProjectStatus {
    Changed,
    WaitingToPush,
    Committed,
    UpToDate,
    Behind,
    Diverged,
    NoCommits,
    NotGit,
    /// Not probed yet.
    Loading,
    Error(String),
}

#[derive(Debug, Clone, PartialEq, Eq)]
pub enum GitHistory {
    Lines(Vec<String>),
    Empty,
    NotGit,
    Error(String),
}

#[derive(Debug, Clone, PartialEq, Eq)]
pub enum GitRelease {
    Tagged { tag: String, commits_ahead: u32 },
    NoTags,
    NoCommits,
    NotGit,
    Error(String),
}

#[derive(Debug, Clone, PartialEq, Eq)]
pub enum GitRemoteWebUrl {
    Url(String),
    NoRemote,
    UnsupportedRemote(String),
    NotGit,
    Error(String),
}

#[derive(Debug, Clone, PartialEq, Eq)]
pub enum GitPipelineStatus {
    Passing,
    Failing,
    Running,
    Unknown,
    NotConfigured,
    NotSupported,
    NotGit,
    Error(String),
}

#[derive(Debug, Clone, Copy, PartialEq, Eq, Structural)]
pub enum GitProvider {
    GitHub,
    GitLab,
    Unknown,
}

/// Why a command gave no output.
#[derive(Debug, Clone, PartialEq, Eq)]
pub enum CommandError {
    /// The program is not installed.
    NotFound,
    /// It ran and failed, or could not be started; the text says why.
    Failed(String),
}

/// A command that a probe asks the caller to run. All but the last two are
/// `git -C <project>` commands.
#[derive(Debug, Clone, PartialEq, Eq)]
pub enum GitQuery {
    InsideWorkTree,
    StatusPorcelain,
    VerifyHead,
    HasUpstream,
    AheadCount,
    BehindCount { ahead: u32 },
    Log { max_entries: usize },
    DescribeTags,
    CountSinceTag { tag: String },
    ListRemotes,
    RemoteUrl { name: String },
    GithubRuns { owner: String, repo: String },
    GitlabPipelines { encoded_repo: String },
}

/// The next step of a probe.
#[derive(Debug, Clone, PartialEq, Eq)]
pub enum Probe<T> {
    Run(GitQuery),
    Done(T),
}

pub open spec fn label_spec(s: GitProjectStatus) -> Seq<char> {
    match s {
        GitProjectStatus::Changed => "CHG"@,
        GitProjectStatus::WaitingToPush => "PUSH"@,
        GitProjectStatus::Committed => "COMMIT"@,
        GitProjectStatus::UpToDate => "OK"@,
        GitProjectStatus::Behind => "BEHIND"@,
        GitProjectStatus::Diverged => "DIVERGED"@,
        GitProjectStatus::NoCommits => "NEW"@,
        GitProjectStatus::NotGit => "N/A"@,
        GitProjectStatus::Loading => "..."@,
        GitProjectStatus::Error(_) => "ERR"@,
    }
}

impl GitProjectStatus {
    /// The badge shown in the project list.
    pub fn short_label(&self) -> (r: &'static str)
        ensures
            r@ == label_spec(*self),
    {
        match self {
            GitProjectStatus::Changed => "CHG",
            GitProjectStatus::WaitingToPush => "PUSH",
            GitProjectStatus::Committed => "COMMIT",
            GitProjectStatus::UpToDate => "OK",
            GitProjectStatus::Behind => "BEHIND",
            GitProjectStatus::Diverged => "DIVERGED",
            GitProjectStatus::NoCommits => "NEW",
            GitProjectStatus::NotGit => "N/A",
            GitProjectStatus::Loading => "...",
            GitProjectStatus::Error(_) => "ERR",
        }
    }
}

pub open spec fn indicator_spec(s: GitPipelineStatus) -> Seq<char> {
    match s {
        GitPipelineStatus::Passing => "✓"@,
        GitPipelineStatus::Failing => "x"@,
        GitPipelineStatus::Running => "~"@,
        GitPipelineStatus::Unknown => "?"@,
        GitPipelineStatus::NotConfigured => "-"@,
        GitPipelineStatus::NotSupported => "-"@,
        GitPipelineStatus::NotGit => "-"@,
        GitPipelineStatus::Error(_) => "!"@,
    }
}

impl GitPipelineStatus {
    /// The one-character pipeline badge.
    pub fn indicator(&self) -> (r: &'static str)
        ensures
            r@ == indicator_spec(*self),
    {
        match self {
            GitPipelineStatus::Passing => "✓",
            GitPipelineStatus::Failing => "x",
            GitPipelineStatus::Running => "~",
            GitPipelineStatus::Unknown => "?",
            GitPipelineStatus::NotConfigured => "-",
            GitPipelineStatus::NotSupported => "-",
            GitPipelineStatus::NotGit => "-",
            GitPipelineStatus::Error(_) => "!",
        }
    }
}

pub open spec fn error_text(e: CommandError) -> Seq<char> {
    match e {
        CommandError::NotFound => "command not found"@,
        CommandError::Failed(s) => s@,
    }
}

impl CommandError {
    /// The error as text.
    pub fn message(&self) -> (r: String)
        ensures
            r@ == error_text(*self),
    {
        match self {
            CommandError::NotFound => string_from(chars_of("command not found").as_slice()),
            CommandError::Failed(s) => s.clone(),
        }
    }
}

/// The number printed by `git rev-list --count`, or 0 when it is not a `u32`.
pub open spec fn count_of(out: Seq<char>) -> nat {
    match parse_unsigned(trim(out), 0xFFFF_FFFF) {
        Some(n) => n,
        None => 0,
    }
}

fn count_value(out: &str) -> (n: u32)
    ensures
        n == count_of(out@),
{
    let cs = chars_of(out);
    let t = trim_chars(cs.as_slice());
    match parse_u32(t.as_slice()) {
        Some(n) => n,
        None => 0,
    }
}

/// The trimmed, non-blank lines of `ls`, in order.
pub open spec fn nonblank_trimmed(ls: Seq<Seq<char>>) -> Seq<Seq<char>>
    decreases ls.len(),
{
    if ls.len() == 0 {
        seq![]
    } else if trim(ls.last()).len() > 0 {
        nonblank_trimmed(ls.drop_last()).push(trim(ls.last()))
    } else {
        nonblank_trimmed(ls.drop_last())
    }
}

/// The trimmed, non-blank lines of command output.
pub fn output_lines(out: &str) -> (r: Vec<String>)
    ensures
        strs(r@) == nonblank_trimmed(lines_spec(out@)),
{
    let cs = chars_of(out);
    let parts = split_lines(cs.as_slice());
    let ghost ls = views(parts@);
    let mut r: Vec<String> = Vec::new();
    let mut i: usize = 0;
    while i < parts.len()
        invariant
            i <= parts@.len(),
            ls == views(parts@),
            strs(r@) == nonblank_trimmed(ls.take(i as int)),
        decreases parts@.len() - i,
    {
        let t = trim_chars(parts[i].as_slice());
        assert(ls.take(i + 1).drop_last() =~= ls.take(i as int));
        assert(ls.take(i + 1).last() == parts@[i as int]@);
        if t.len() > 0 {
            let ghost before = r@;
            r.push(string_from(t.as_slice()));
            assert(strs(r@) =~= strs(before).push(t@));
        }
        i = i + 1;
    }
    assert(ls.take(parts@.len() as int) =~= ls);
    r
}

/// Whether the first value at `"key"` in JSON text holds.
/// Reads the first `"key"`, then the string after the next `:`, handling backslash escapes.
pub open spec fn scan_quoted(q: Seq<char>, i: int, escaped: bool, acc: Seq<char>) -> Option<
    Seq<char>,
>
    decreases q.len() - i,
{
    if i < 0 || i >= q.len() {
        None
    } else if escaped {
        scan_quoted(q, i + 1, false, acc.push(q[i]))
    } else if q[i] == '\\' {
        scan_quoted(q, i + 1, true, acc)
    } else if q[i] == '"' {
        Some(acc)
    } else {
        scan_quoted(q, i + 1, false, acc.push(q[i]))
    }
}

pub open spec fn json_field_spec(raw: Seq<char>, key: Seq<char>) -> Option<Seq<char>> {
    let needle = seq!['"'] + key + seq!['"'];
    let ks = find(raw, needle);
    if ks < 0 {
        None
    } else {
        let after = raw.skip(ks + needle.len());
        let ci = char_index(after, ':');
        if ci < 0 {
            None
        } else {
            let value = trim_start(after.skip(ci + 1));
            if value.len() == 0 || value[0] != '"' {
                None
            } else {
                scan_quoted(value.drop_first(), 0, false, seq![])
            }
        }
    }
}

fn json_first_string_field_chars(raw: &[char], key: &[char]) -> (r: Option<Vec<char>>)
    ensures
        match r {
            Some(v) => json_field_spec(raw@, key@) == Some(v@),
            None => json_field_spec(raw@, key@) is None,
        },
{
    let mut needle: Vec<char> = Vec::new();
    needle.push('"');
    let mut i: usize = 0;
    while i < key.len()
        invariant
            i <= key@.len(),
            needle@ == seq!['"'] + key@.take(i as int),
        decreases key@.len() - i,
    {
        needle.push(key[i]);
        i = i + 1;
    }
    needle.push('"');
    assert(needle@ =~= seq!['"'] + key@ + seq!['"']);
    let ks = match find_chars(raw, needle.as_slice()) {
        Some(k) => k,
        None => {
            return None;
        },
    };
    proof {
        crate::text::lemma_find_from(raw@, needle@, 0);
    }
    let rl = raw.len();
    let nl = needle.len();
    assert(ks + nl <= rl);
    let after = sub_chars(raw, ks + nl, rl);
    assert(after@ =~= raw@.skip(ks + needle@.len()));
    let ci = match find_char(after.as_slice(), ':') {
        Some(c) => c,
        None => {
            return None;
        },
    };
    proof {
        crate::text::lemma_char_index_from(after@, ':', 0);
    }
    let rest = sub_chars(after.as_slice(), ci + 1, after.len());
    assert(rest@ =~= after@.skip(ci + 1));
    let value = trim_start_chars(rest.as_slice());
    if value.len() == 0 || value[0] != '"' {
        return None;
    }
    let q = sub_chars(value.as_slice(), 1, value.len());
    assert(q@ =~= value@.drop_first());
    let mut escaped = false;
    let mut parsed: Vec<char> = Vec::new();
    let mut j: usize = 0;
    assert(json_field_spec(raw@, key@) == scan_quoted(q@, 0, false, seq![]));
    while j < q.len()
        invariant
            j <= q@.len(),
            json_field_spec(raw@, key@) == scan_quoted(q@, 0, false, seq![]),
            scan_quoted(q@, 0, false, seq![]) == scan_quoted(q@, j as int, escaped, parsed@),
        decreases q@.len() - j,
    {
        let ch = q[j];
        if escaped {
            parsed.push(ch);
            escaped = false;
        } else if ch == '\\' {
            escaped = true;
        } else if ch == '"' {
            assert(scan_quoted(q@, j as int, escaped, parsed@) == Some(parsed@));
            return Some(parsed);
        } else {
            parsed.push(ch);
        }
        j = j + 1;
    }
    None
}

/// The first string value stored under `key` in JSON text, found by a plain scan.
pub fn json_first_string_field(raw: &str, key: &str) -> (r: Option<String>)
    ensures
        match r {
            Some(v) => json_field_spec(raw@, key@) == Some(v@),
            None => json_field_spec(raw@, key@) is None,
        },
{
    let rc = chars_of(raw);
    let kc = chars_of(key);
    match json_first_string_field_chars(rc.as_slice(), kc.as_slice()) {
        Some(v) => Some(string_from(v.as_slice())),
        None => None,
    }
}

/// The field value, trimmed, or empty when absent.
pub open spec fn json_field_or_empty(raw: Seq<char>, key: Seq<char>) -> Seq<char> {
    match json_field_spec(raw, key) {
        Some(v) => trim(v),
        None => seq![],
    }
}

fn json_field_trimmed(raw: &[char], key: &str) -> (r: Vec<char>)
    ensures
        r@ == json_field_or_empty(raw@, key@),
{
    let kc = chars_of(key);
    match json_first_string_field_chars(raw, kc.as_slice()) {
        Some(v) => trim_chars(v.as_slice()),
        None => Vec::new(),
    }
}

pub open spec fn github_status_spec(raw: Seq<char>) -> GitPipelineStatus {
    if !contains(raw, "\"workflow_runs\""@) {
        GitPipelineStatus::Unknown
    } else {
        let status = json_field_or_empty(raw, "status"@);
        let conclusion = json_field_or_empty(raw, "conclusion"@);
        if eq_ignore_case(status, "completed"@) {
            if conclusion == "success"@ || conclusion == "neutral"@ || conclusion == "skipped"@ {
                GitPipelineStatus::Passing
            } else if conclusion.len() == 0 {
                GitPipelineStatus::Unknown
            } else {
                GitPipelineStatus::Failing
            }
        } else if status == "queued"@ || status == "in_progress"@ || status == "pending"@ || status
            == "requested"@ || status == "waiting"@ {
            GitPipelineStatus::Running
        } else {
            GitPipelineStatus::Unknown
        }
    }
}

/// A GitHub status that means the run has not finished.
pub open spec fn github_running_word(st: Seq<char>) -> bool {
    st == "queued"@ || st == "in_progress"@ || st == "pending"@ || st == "requested"@ || st
        == "waiting"@
}

/// The latest GitHub run, judged by the first `status` and `conclusion`
/// fields (trimmed) of output that lists `workflow_runs`: a run that is
/// queued, in progress, pending, requested or waiting is running; a
/// completed run (in any letter case) passes on success, neutral or
/// skipped, has no state without a conclusion and fails on any other; any
/// other status, or output without `workflow_runs`, is unknown.
pub proof fn law_github_run_states(raw: Seq<char>)
    ensures
        !contains(raw, "\"workflow_runs\""@) ==> github_status_spec(raw) == GitPipelineStatus::Unknown,
        contains(raw, "\"workflow_runs\""@) ==> {
            let st = json_field_or_empty(raw, "status"@);
            let co = json_field_or_empty(raw, "conclusion"@);
            &&& github_running_word(st) ==> github_status_spec(raw) == GitPipelineStatus::Running
            &&& lower_seq(st) == "completed"@ ==> {
                &&& (co == "success"@ || co == "neutral"@ || co == "skipped"@) ==> github_status_spec(
                    raw,
                ) == GitPipelineStatus::Passing
                &&& co.len() == 0 ==> github_status_spec(raw) == GitPipelineStatus::Unknown
                &&& (co.len() > 0 && co != "success"@ && co != "neutral"@ && co != "skipped"@)
                    ==> github_status_spec(raw) == GitPipelineStatus::Failing
            }
            &&& (lower_seq(st) != "completed"@ && !github_running_word(st)) ==> github_status_spec(
                raw,
            ) == GitPipelineStatus::Unknown
        },
{
    reveal_strlit("completed");
    reveal_strlit("queued");
    reveal_strlit("in_progress");
    reveal_strlit("pending");
    reveal_strlit("requested");
    reveal_strlit("waiting");
    reveal_strlit("success");
    reveal_strlit("neutral");
    reveal_strlit("skipped");
    let c = "completed"@;
    assert(lower_seq(c) =~= c);
    let st = json_field_or_empty(raw, "status"@);
    if contains(raw, "\"workflow_runs\""@) {
        if st == "requested"@ {
            assert(lower_seq(st)[0] == 'r');
            assert(lower_seq(c)[0] == 'c');
            assert(lower_seq(st) != lower_seq(c));
            assert(github_status_spec(raw) == GitPipelineStatus::Running);
        } else if github_running_word(st) {
            assert(lower_seq(st).len() != lower_seq(c).len());
            assert(lower_seq(st) != lower_seq(c));
            assert(github_status_spec(raw) == GitPipelineStatus::Running);
        }
        if lower_seq(st) == c {
            assert(eq_ignore_case(st, c));
        } else {
            assert(!eq_ignore_case(st, "completed"@));
        }
    }
}

/// The latest GitLab pipeline, judged by the first `status` field (trimmed)
/// of output that is a JSON list: success and passed pass; failed, canceled
/// and cancelled fail; running, pending, created, preparing,
/// waiting_for_resource, manual and scheduled are running; anything else is
/// unknown, and so is output that is not a list.
pub proof fn law_gitlab_pipeline_states(raw: Seq<char>)
    ensures
        !(trim_start(raw).len() > 0 && trim_start(raw)[0] == '[') ==> gitlab_status_spec(raw)
            == GitPipelineStatus::Unknown,
        (trim_start(raw).len() > 0 && trim_start(raw)[0] == '[') ==> {
            let st = json_field_or_empty(raw, "status"@);
            &&& (st == "success"@ || st == "passed"@) ==> gitlab_status_spec(raw)
                == GitPipelineStatus::Passing
            &&& (st == "failed"@ || st == "canceled"@ || st == "cancelled"@) ==> gitlab_status_spec(
                raw,
            ) == GitPipelineStatus::Failing
            &&& (st == "running"@ || st == "pending"@ || st == "created"@ || st == "preparing"@
                || st == "waiting_for_resource"@ || st == "manual"@ || st == "scheduled"@)
                ==> gitlab_status_spec(raw) == GitPipelineStatus::Running
        },
{
    reveal_strlit("success");
    reveal_strlit("passed");
    reveal_strlit("failed");
    reveal_strlit("canceled");
    reveal_strlit("cancelled");
    reveal_strlit("running");
    reveal_strlit("pending");
    reveal_strlit("created");
    reveal_strlit("preparing");
    reveal_strlit("waiting_for_resource");
    reveal_strlit("manual");
    reveal_strlit("scheduled");
    let st = json_field_or_empty(raw, "status"@);
    if st.len() > 0 {
        let c0 = st[0];
        let c1 = if st.len() > 1 { st[1] } else { ' ' };
        assert(c0 == st[0]);
        assert(st.len() > 1 ==> c1 == st[1]);
    }
}

/// The state of the latest GitHub Actions run, from `gh api .../actions/runs` output.
pub fn parse_github_pipeline_status(raw: &str) -> (r: GitPipelineStatus)
    ensures
        r == github_status_spec(raw@),
{
    let rc = chars_of(raw);
    let marker = chars_of("\"workflow_runs\"");
    if !contains_chars(rc.as_slice(), marker.as_slice()) {
        return GitPipelineStatus::Unknown;
    }
    let status = json_field_trimmed(rc.as_slice(), "status");
    let conclusion = json_field_trimmed(rc.as_slice(), "conclusion");
    let completed = chars_of("completed");
    if eq_ignore_ascii_case(status.as_slice(), completed.as_slice()) {
        if eq_lit(conclusion.as_slice(), "success") || eq_lit(conclusion.as_slice(), "neutral")
            || eq_lit(conclusion.as_slice(), "skipped") {
            GitPipelineStatus::Passing
        } else if conclusion.len() == 0 {
            GitPipelineStatus::Unknown
        } else {
            GitPipelineStatus::Failing
        }
    } else if eq_lit(status.as_slice(), "queued") || eq_lit(status.as_slice(), "in_progress")
        || eq_lit(status.as_slice(), "pending") || eq_lit(status.as_slice(), "requested")
        || eq_lit(status.as_slice(), "waiting") {
        GitPipelineStatus::Running
    } else {
        GitPipelineStatus::Unknown
    }
}

pub open spec fn gitlab_status_spec(raw: Seq<char>) -> GitPipelineStatus {
    let t = trim_start(raw);
    if !(t.len() > 0 && t[0] == '[') {
        GitPipelineStatus::Unknown
    } else {
        let s = json_field_or_empty(raw, "status"@);
        if s == "success"@ || s == "passed"@ {
            GitPipelineStatus::Passing
        } else if s == "failed"@ || s == "canceled"@ || s == "cancelled"@ {
            GitPipelineStatus::Failing
        } else if s == "running"@ || s == "pending"@ || s == "created"@ || s == "preparing"@ || s
            == "waiting_for_resource"@ || s == "manual"@ || s == "scheduled"@ {
            GitPipelineStatus::Running
        } else {
            GitPipelineStatus::Unknown
        }
    }
}

/// The state of the latest GitLab pipeline, from `glab api .../pipelines` output.
pub fn parse_gitlab_pipeline_status(raw: &str) -> (r: GitPipelineStatus)
    ensures
        r == gitlab_status_spec(raw@),
{
    let rc = chars_of(raw);
    let t = trim_start_chars(rc.as_slice());
    if !(t.len() > 0 && t[0] == '[') {
        return GitPipelineStatus::Unknown;
    }
    let s = json_field_trimmed(rc.as_slice(), "status");
    let s = s.as_slice();
    if eq_lit(s, "success") || eq_lit(s, "passed") {
        GitPipelineStatus::Passing
    } else if eq_lit(s, "failed") || eq_lit(s, "canceled") || eq_lit(s, "cancelled") {
        GitPipelineStatus::Failing
    } else if eq_lit(s, "running") || eq_lit(s, "pending") || eq_lit(s, "created") || eq_lit(
        s,
        "preparing",
    ) || eq_lit(s, "waiting_for_resource") || eq_lit(s, "manual") || eq_lit(s, "scheduled") {
        GitPipelineStatus::Running
    } else {
        GitPipelineStatus::Unknown
    }
}


/// The host named by the authority part of a remote URL (`user@host:port`, `[v6]`).
pub open spec fn host_spec(authority: Seq<char>) -> Option<Seq<char>> {
    let at = char_rindex(authority, '@');
    let without_user = trim(
        if at >= 0 {
            authority.skip(at + 1)
        } else {
            authority
        },
    );
    if without_user.len() == 0 {
        None
    } else if without_user[0] == '[' {
        let stripped = without_user.drop_first();
        let close = char_index(stripped, ']');
        if close < 0 {
            None
        } else if trim(stripped.take(close)).len() == 0 {
            None
        } else {
            Some(stripped.take(close))
        }
    } else {
        let c = char_index(without_user, ':');
        let host = trim(
            if c >= 0 {
                without_user.take(c)
            } else {
                without_user
            },
        );
        if host.len() == 0 {
            None
        } else {
            Some(host)
        }
    }
}

pub fn parse_host_from_authority(authority: &str) -> (r: Option<String>)
    ensures
        match r {
            Some(h) => host_spec(authority@) == Some(h@),
            None => host_spec(authority@) is None,
        },
{
    let a = chars_of(authority);
    match host_chars(a.as_slice()) {
        Some(h) => Some(string_from(h.as_slice())),
        None => None,
    }
}

fn host_chars(a: &[char]) -> (r: Option<Vec<char>>)
    ensures
        match r {
            Some(h) => host_spec(a@) == Some(h@),
            None => host_spec(a@) is None,
        },
{
    let without_user = match rfind_char(a, '@') {
        Some(at) => {
            proof {
                lemma_char_rindex_bounds(a@, '@', a@.len() as int);
            }
            let al = a.len();
            assert(at < al);
            let rest = sub_chars(a, at + 1, al);
            assert(rest@ =~= a@.skip(at + 1));
            trim_chars(rest.as_slice())
        },
        None => trim_chars(a),
    };
    if without_user.len() == 0 {
        return None;
    }
    if without_user[0] == '[' {
        let stripped = sub_chars(without_user.as_slice(), 1, without_user.len());
        assert(stripped@ =~= without_user@.drop_first());
        match find_char(stripped.as_slice(), ']') {
            Some(close) => {
                proof {
                    crate::text::lemma_char_index_from(stripped@, ']', 0);
                }
                let host = sub_chars(stripped.as_slice(), 0, close);
                assert(host@ =~= stripped@.take(close as int));
                let th = trim_chars(host.as_slice());
                if th.len() == 0 {
                    None
                } else {
                    Some(host)
                }
            },
            None => None,
        }
    } else {
        let head = match find_char(without_user.as_slice(), ':') {
            Some(c) => {
                proof {
                    crate::text::lemma_char_index_from(without_user@, ':', 0);
                }
                let h = sub_chars(without_user.as_slice(), 0, c);
                assert(h@ =~= without_user@.take(c as int));
                h
            },
            None => without_user,
        };
        let host = trim_chars(head.as_slice());
        if host.len() == 0 {
            None
        } else {
            Some(host)
        }
    }
}

pub proof fn lemma_char_rindex_bounds(s: Seq<char>, c: char, j: int)
    requires
        0 <= j <= s.len(),
    ensures
        crate::text::char_rindex_before(s, c, j) == -1 || (0 <= crate::text::char_rindex_before(
            s,
            c,
            j,
        ) < j && s[crate::text::char_rindex_before(s, c, j)] == c),
    decreases j,
{
    if j > 0 && s[j - 1] != c {
        lemma_char_rindex_bounds(s, c, j - 1);
    }
}

/// Index of the first `?` or `#` at or after `i`, or `s.len()`.
pub open spec fn query_start(s: Seq<char>, i: int) -> int
    decreases s.len() - i,
{
    if i < 0 || i >= s.len() {
        s.len() as int
    } else if s[i] == '?' || s[i] == '#' {
        i
    } else {
        query_start(s, i + 1)
    }
}

/// The repository path of a remote URL: no query or fragment, no surrounding
/// slashes, no `.git` suffix.
pub open spec fn repo_path_spec(path: Seq<char>) -> Option<Seq<char>> {
    let p = trim_matches(trim(path.take(query_start(path, 0))), '/');
    if p.len() == 0 {
        None
    } else {
        let w = trim_matches(
            if has_suffix(p, ".git"@) {
                p.take(p.len() - 4)
            } else {
                p
            },
            '/',
        );
        if w.len() == 0 {
            None
        } else {
            Some(w)
        }
    }
}

proof fn lemma_query_start_bounds(s: Seq<char>, i: int)
    requires
        0 <= i <= s.len(),
    ensures
        i <= query_start(s, i) <= s.len(),
    decreases s.len() - i,
{
    if i < s.len() && !(s[i] == '?' || s[i] == '#') {
        lemma_query_start_bounds(s, i + 1);
    }
}

fn repo_path_chars(path: &[char]) -> (r: Option<Vec<char>>)
    ensures
        match r {
            Some(w) => repo_path_spec(path@) == Some(w@),
            None => repo_path_spec(path@) is None,
        },
{
    let mut i: usize = 0;
    while i < path.len() && !(path[i] == '?' || path[i] == '#')
        invariant
            i <= path@.len(),
            query_start(path@, 0) == query_start(path@, i as int),
        decreases path@.len() - i,
    {
        i = i + 1;
    }
    let head = sub_chars(path, 0, i);
    assert(head@ =~= path@.take(query_start(path@, 0)));
    let t = trim_chars(head.as_slice());
    let p = trim_matches_chars(t.as_slice(), '/');
    if p.len() == 0 {
        return None;
    }
    let suffix = chars_of(".git");
    proof {
        reveal_strlit(".git");
    }
    let base = if ends_with(p.as_slice(), suffix.as_slice()) {
        let b = sub_chars(p.as_slice(), 0, p.len() - 4);
        assert(b@ =~= p@.take(p@.len() - 4));
        b
    } else {
        p
    };
    let w = trim_matches_chars(base.as_slice(), '/');
    if w.len() == 0 {
        None
    } else {
        Some(w)
    }
}

pub fn normalize_repo_path(path: &str) -> (r: Option<String>)
    ensures
        match r {
            Some(w) => repo_path_spec(path@) == Some(w@),
            None => repo_path_spec(path@) is None,
        },
{
    let pc = chars_of(path);
    match repo_path_chars(pc.as_slice()) {
        Some(w) => Some(string_from(w.as_slice())),
        None => None,
    }
}

/// Host and repository path of a remote URL, in `scheme://authority/path`
/// or scp-like `authority:path` form.
pub open spec fn remote_spec(url: Seq<char>) -> Option<(Seq<char>, Seq<char>)> {
    let u = trim(url);
    if u.len() == 0 {
        None
    } else {
        let sch = find(u, "://"@);
        let rest = u.skip(sch + 3);
        let slash = char_index(rest, '/');
        if sch >= 0 && slash >= 0 {
            match (host_spec(rest.take(slash)), repo_path_spec(rest.skip(slash + 1))) {
                (Some(h), Some(p)) => Some((h, p)),
                _ => None,
            }
        } else {
            let colon = char_index(u, ':');
            let auth = u.take(colon);
            if colon >= 0 && char_index(auth, '/') < 0 && !(auth.len() == 1 && is_ascii_alpha(
                auth[0],
            )) {
                match (host_spec(auth), repo_path_spec(u.skip(colon + 1))) {
                    (Some(h), Some(p)) => Some((h, p)),
                    _ => None,
                }
            } else {
                None
            }
        }
    }
}

fn host_and_path(a: &[char], p: &[char]) -> (r: Option<(Vec<char>, Vec<char>)>)
    ensures
        match r {
            Some((h, w)) => host_spec(a@) == Some(h@) && repo_path_spec(p@) == Some(w@),
            None => host_spec(a@) is None || repo_path_spec(p@) is None,
        },
{
    let h = match host_chars(a) {
        Some(h) => h,
        None => {
            return None;
        },
    };
    let w = match repo_path_chars(p) {
        Some(w) => w,
        None => {
            return None;
        },
    };
    Some((h, w))
}

fn remote_chars(url: &[char]) -> (r: Option<(Vec<char>, Vec<char>)>)
    ensures
        match r {
            Some((h, p)) => remote_spec(url@) == Some((h@, p@)),
            None => remote_spec(url@) is None,
        },
{
    let u = trim_chars(url);
    if u.len() == 0 {
        return None;
    }
    let sep = chars_of("://");
    proof {
        reveal_strlit("://");
    }
    match find_chars(u.as_slice(), sep.as_slice()) {
        Some(sch) => {
            proof {
                crate::text::lemma_find_from(u@, sep@, 0);
            }
            let ul = u.len();
            assert(sch + 3 <= ul);
            let rest = sub_chars(u.as_slice(), sch + 3, ul);
            assert(rest@ =~= u@.skip(sch + 3));
            match find_char(rest.as_slice(), '/') {
                Some(slash) => {
                    proof {
                        crate::text::lemma_char_index_from(rest@, '/', 0);
                    }
                    let auth = sub_chars(rest.as_slice(), 0, slash);
                    let path = sub_chars(rest.as_slice(), slash + 1, rest.len());
                    assert(auth@ =~= rest@.take(slash as int));
                    assert(path@ =~= rest@.skip(slash + 1));
                    return host_and_path(auth.as_slice(), path.as_slice());
                },
                None => {},
            }
        },
        None => {},
    }
    match find_char(u.as_slice(), ':') {
        Some(colon) => {
            proof {
                crate::text::lemma_char_index_from(u@, ':', 0);
            }
            let auth = sub_chars(u.as_slice(), 0, colon);
            assert(auth@ =~= u@.take(colon as int));
            let has_slash = find_char(auth.as_slice(), '/').is_some();
            let drive = auth.len() == 1 && (('a' <= auth[0] && auth[0] <= 'z') || ('A' <= auth[0]
                && auth[0] <= 'Z'));
            if !has_slash && !drive {
                let path = sub_chars(u.as_slice(), colon + 1, u.len());
                assert(path@ =~= u@.skip(colon + 1));
                host_and_path(auth.as_slice(), path.as_slice())
            } else {
                None
            }
        },
        None => None,
    }
}

/// Host and repository path of a remote URL, or `None` when the URL has neither form.
pub fn parse_remote_host_and_repo_path(remote_url: &str) -> (r: Option<(String, String)>)
    ensures
        match r {
            Some((h, p)) => remote_spec(remote_url@) == Some((h@, p@)),
            None => remote_spec(remote_url@) is None,
        },
{
    let uc = chars_of(remote_url);
    match remote_chars(uc.as_slice()) {
        Some((h, p)) => Some((string_from(h.as_slice()), string_from(p.as_slice()))),
        None => None,
    }
}

pub open spec fn web_url_spec(host: Seq<char>, repo_path: Seq<char>) -> Seq<char> {
    "https://"@ + host + "/"@ + repo_path
}

/// `https://<host>/<repo_path>`.
pub fn web_url(host: &str, repo_path: &str) -> (r: String)
    ensures
        r@ == web_url_spec(host@, repo_path@),
{
    let mut r = String::new();
    push_str(&mut r, "https://");
    push_str(&mut r, host);
    push_str(&mut r, "/");
    push_str(&mut r, repo_path);
    r
}

pub open spec fn provider_spec(host: Seq<char>) -> GitProvider {
    let l = lower_seq(host);
    if contains(l, "github"@) {
        GitProvider::GitHub
    } else if contains(l, "gitlab"@) {
        GitProvider::GitLab
    } else {
        GitProvider::Unknown
    }
}

/// The CI provider of a host, ignoring ASCII letter case: GitHub when
/// "github" occurs in it, else GitLab when "gitlab" does, else unknown.
pub proof fn law_provider_from_host(host: Seq<char>)
    ensures
        ({
            let l = lower_seq(host);
            let gh = exists|k: int| crate::text::occurs_at(l, "github"@, k);
            let gl = exists|k: int| crate::text::occurs_at(l, "gitlab"@, k);
            &&& gh ==> provider_spec(host) == GitProvider::GitHub
            &&& !gh && gl ==> provider_spec(host) == GitProvider::GitLab
            &&& !gh && !gl ==> provider_spec(host) == GitProvider::Unknown
        }),
{
    let l = lower_seq(host);
    crate::text::lemma_find_from(l, "github"@, 0);
    crate::text::lemma_find_from(l, "gitlab"@, 0);
    if exists|k: int| crate::text::occurs_at(l, "github"@, k) {
        let k = choose|k: int| crate::text::occurs_at(l, "github"@, k);
        assert(find(l, "github"@) >= 0);
    }
    if exists|k: int| crate::text::occurs_at(l, "gitlab"@, k) {
        let k = choose|k: int| crate::text::occurs_at(l, "gitlab"@, k);
        assert(find(l, "gitlab"@) >= 0);
    }
}

/// The CI provider that a remote host names.
pub fn detect_provider(host: &str) -> (r: GitProvider)
    ensures
        r == provider_spec(host@),
{
    let hc = chars_of(host);
    let l = ascii_lowercase_chars(hc.as_slice());
    let gh = chars_of("github");
    let gl = chars_of("gitlab");
    if contains_chars(l.as_slice(), gh.as_slice()) {
        GitProvider::GitHub
    } else if contains_chars(l.as_slice(), gl.as_slice()) {
        GitProvider::GitLab
    } else {
        GitProvider::Unknown
    }
}

/// The pieces of `ls` that are not blank, in order.
pub open spec fn keep_nonblank(ls: Seq<Seq<char>>) -> Seq<Seq<char>>
    decreases ls.len(),
{
    if ls.len() == 0 {
        seq![]
    } else if trim(ls.last()).len() > 0 {
        keep_nonblank(ls.drop_last()).push(ls.last())
    } else {
        keep_nonblank(ls.drop_last())
    }
}

pub open spec fn owner_repo_spec(repo_path: Seq<char>) -> Option<(Seq<char>, Seq<char>)> {
    let segs = keep_nonblank(split_spec(repo_path, '/'));
    if segs.len() < 2 {
        None
    } else {
        Some((segs[segs.len() - 2], segs[segs.len() - 1]))
    }
}

/// The last two non-blank `/`-separated segments of a repository path.
pub fn github_owner_repo(repo_path: &str) -> (r: Option<(String, String)>)
    ensures
        match r {
            Some((o, n)) => owner_repo_spec(repo_path@) == Some((o@, n@)),
            None => owner_repo_spec(repo_path@) is None,
        },
{
    let pc = chars_of(repo_path);
    let parts = split_chars(pc.as_slice(), '/');
    let ghost ls = views(parts@);
    let mut segs: Vec<Vec<char>> = Vec::new();
    let mut i: usize = 0;
    while i < parts.len()
        invariant
            i <= parts@.len(),
            ls == views(parts@),
            views(segs@) == keep_nonblank(ls.take(i as int)),
        decreases parts@.len() - i,
    {
        let t = trim_chars(parts[i].as_slice());
        assert(ls.take(i + 1).drop_last() =~= ls.take(i as int));
        assert(ls.take(i + 1).last() == parts@[i as int]@);
        if t.len() > 0 {
            let ghost before = segs@;
            let piece = sub_chars(parts[i].as_slice(), 0, parts[i].len());
            assert(piece@ =~= parts@[i as int]@);
            segs.push(piece);
            assert(views(segs@) =~= views(before).push(parts@[i as int]@));
        }
        i = i + 1;
    }
    assert(ls.take(parts@.len() as int) =~= ls);
    if segs.len() < 2 {
        return None;
    }
    let n = segs.len();
    Some((string_from(segs[n - 2].as_slice()), string_from(segs[n - 1].as_slice())))
}

pub open spec fn is_unreserved(b: u8) -> bool {
    (48 <= b <= 57) || (65 <= b <= 90) || (97 <= b <= 122) || b == 45 || b == 95 || b == 46 || b
        == 126
}

pub open spec fn hex_upper(d: nat) -> char {
    if d < 10 {
        ((48 + d) as u8) as char
    } else {
        ((55 + d) as u8) as char
    }
}

pub open spec fn encode_byte(b: u8) -> Seq<char> {
    if is_unreserved(b) {
        seq![b as char]
    } else {
        seq!['%', hex_upper((b / 16) as nat), hex_upper((b % 16) as nat)]
    }
}

/// Percent-encoding of the UTF-8 bytes `bs`, keeping unreserved ASCII.
pub open spec fn url_encode_spec(bs: Seq<u8>) -> Seq<char>
    decreases bs.len(),
{
    if bs.len() == 0 {
        seq![]
    } else {
        url_encode_spec(bs.drop_last()) + encode_byte(bs.last())
    }
}

fn hex_digit(d: u8) -> (c: char)
    requires
        d < 16,
    ensures
        c == hex_upper(d as nat),
{
    if d < 10 {
        (48u8 + d) as char
    } else {
        (55u8 + d) as char
    }
}

/// Percent-encodes a path component for a URL.
pub fn url_encode_component(input: &str) -> (r: String)
    ensures
        r@ == url_encode_spec(encode_utf8(input@)),
{
    let bytes = input.as_bytes();
    let mut out: Vec<char> = Vec::new();
    let mut i: usize = 0;
    while i < bytes.len()
        invariant
            i <= bytes@.len(),
            out@ == url_encode_spec(bytes@.take(i as int)),
        decreases bytes@.len() - i,
    {
        let b = bytes[i];
        assert(bytes@.take(i + 1).drop_last() =~= bytes@.take(i as int));
        if (48 <= b && b <= 57) || (65 <= b && b <= 90) || (97 <= b && b <= 122) || b == 45 || b
            == 95 || b == 46 || b == 126 {
            out.push(b as char);
        } else {
            out.push('%');
            out.push(hex_digit(b / 16));
            out.push(hex_digit(b % 16));
        }
        assert(out@ =~= url_encode_spec(bytes@.take(i + 1)));
        i = i + 1;
    }
    assert(bytes@.take(bytes@.len() as int) =~= bytes@);
    string_from(out.as_slice())
}


pub open spec fn status_from_counts(ahead: nat, behind: nat) -> GitProjectStatus {
    if ahead == 0 && behind == 0 {
        GitProjectStatus::UpToDate
    } else if ahead > 0 && behind == 0 {
        GitProjectStatus::WaitingToPush
    } else if ahead == 0 && behind > 0 {
        GitProjectStatus::Behind
    } else {
        GitProjectStatus::Diverged
    }
}

/// The message a probe gives for a command it did not ask for.
pub open spec fn unexpected_query_text() -> Seq<char> {
    "unexpected git query"@
}

fn unexpected_query() -> (s: String)
    ensures
        s@ == unexpected_query_text(),
{
    string_from(chars_of("unexpected git query").as_slice())
}

/// A project's git state with an error's text as characters.
pub enum StatusView {
    Changed,
    WaitingToPush,
    Committed,
    UpToDate,
    Behind,
    Diverged,
    NoCommits,
    NotGit,
    Loading,
    Error(Seq<char>),
}

impl View for GitProjectStatus {
    type V = StatusView;

    open spec fn view(&self) -> StatusView {
        match self {
            GitProjectStatus::Changed => StatusView::Changed,
            GitProjectStatus::WaitingToPush => StatusView::WaitingToPush,
            GitProjectStatus::Committed => StatusView::Committed,
            GitProjectStatus::UpToDate => StatusView::UpToDate,
            GitProjectStatus::Behind => StatusView::Behind,
            GitProjectStatus::Diverged => StatusView::Diverged,
            GitProjectStatus::NoCommits => StatusView::NoCommits,
            GitProjectStatus::NotGit => StatusView::NotGit,
            GitProjectStatus::Loading => StatusView::Loading,
            GitProjectStatus::Error(m) => StatusView::Error(m@),
        }
    }
}

/// A step of the status probe: a command to run, or the state it found.
pub enum StatusStep {
    Run(GitQuery),
    Done(StatusView),
}

pub open spec fn status_probe_view(p: Probe<GitProjectStatus>) -> StatusStep {
    match p {
        Probe::Run(q) => StatusStep::Run(q),
        Probe::Done(v) => StatusStep::Done(v@),
    }
}

/// A command's outcome: its output, or the text of its error.
pub open spec fn reply_view(r: Result<String, CommandError>) -> Result<Seq<char>, Seq<char>> {
    match r {
        Ok(out) => Ok(out@),
        Err(e) => Err(error_text(e)),
    }
}

pub open spec fn last_view(last: Option<(GitQuery, Result<String, CommandError>)>) -> Option<
    (GitQuery, Result<Seq<char>, Seq<char>>),
> {
    match last {
        None => None,
        Some((q, r)) => Some((q, reply_view(r))),
    }
}

pub open spec fn status_from_counts_view(ahead: nat, behind: nat) -> StatusView {
    status_from_counts(ahead, behind)@
}

/// The step of the status probe after the command `q` gave `reply`.
pub open spec fn status_step(last: Option<(GitQuery, Result<Seq<char>, Seq<char>>)>) -> StatusStep {
    match last {
        None => StatusStep::Run(GitQuery::InsideWorkTree),
        Some((q, reply)) => match q {
            GitQuery::InsideWorkTree => if reply is Ok {
                StatusStep::Run(GitQuery::StatusPorcelain)
            } else {
                StatusStep::Done(StatusView::NotGit)
            },
            GitQuery::StatusPorcelain => match reply {
                Ok(out) => if trim(out).len() > 0 {
                    StatusStep::Done(StatusView::Changed)
                } else {
                    StatusStep::Run(GitQuery::VerifyHead)
                },
                Err(e) => StatusStep::Done(StatusView::Error(e)),
            },
            GitQuery::VerifyHead => if reply is Ok {
                StatusStep::Run(GitQuery::HasUpstream)
            } else {
                StatusStep::Done(StatusView::NoCommits)
            },
            GitQuery::HasUpstream => if reply is Ok {
                StatusStep::Run(GitQuery::AheadCount)
            } else {
                StatusStep::Done(StatusView::Committed)
            },
            GitQuery::AheadCount => match reply {
                Ok(out) => StatusStep::Run(GitQuery::BehindCount { ahead: count_of(out) as u32 }),
                Err(e) => StatusStep::Done(StatusView::Error(e)),
            },
            GitQuery::BehindCount { ahead } => match reply {
                Ok(out) => StatusStep::Done(status_from_counts_view(ahead as nat, count_of(out))),
                Err(e) => StatusStep::Done(StatusView::Error(e)),
            },
            _ => StatusStep::Done(StatusView::Error(unexpected_query_text())),
        },
    }
}

/// What git answers about a project, one outcome per command the status
/// probe can ask for.
pub struct StatusAnswers {
    pub inside: Result<Seq<char>, Seq<char>>,
    pub status: Result<Seq<char>, Seq<char>>,
    pub head: Result<Seq<char>, Seq<char>>,
    pub upstream: Result<Seq<char>, Seq<char>>,
    pub ahead: Result<Seq<char>, Seq<char>>,
    pub behind: Result<Seq<char>, Seq<char>>,
}

pub open spec fn answer_to(q: GitQuery, a: StatusAnswers) -> Result<Seq<char>, Seq<char>> {
    match q {
        GitQuery::InsideWorkTree => a.inside,
        GitQuery::StatusPorcelain => a.status,
        GitQuery::VerifyHead => a.head,
        GitQuery::HasUpstream => a.upstream,
        GitQuery::AheadCount => a.ahead,
        GitQuery::BehindCount { .. } => a.behind,
        _ => a.inside,
    }
}

/// Runs the status probe for at most `fuel` more commands, answering each
/// from `a`.
pub open spec fn run_status(fuel: nat, last: Option<(GitQuery, Result<Seq<char>, Seq<char>>)>, a: StatusAnswers) -> Option<
    StatusView,
>
    decreases fuel,
{
    match status_step(last) {
        StatusStep::Done(v) => Some(v),
        StatusStep::Run(q) => if fuel == 0 {
            None
        } else {
            run_status((fuel - 1) as nat, Some((q, answer_to(q, a))), a)
        },
    }
}

/// The state git's answers give, checked in this order: not a work tree,
/// status failed, uncommitted changes, no commit yet, no upstream, a count
/// failed, then the comparison of the two counts.
pub open spec fn expected_status(a: StatusAnswers) -> StatusView {
    if a.inside is Err {
        StatusView::NotGit
    } else {
        match a.status {
            Err(e) => StatusView::Error(e),
            Ok(out) => if trim(out).len() > 0 {
                StatusView::Changed
            } else if a.head is Err {
                StatusView::NoCommits
            } else if a.upstream is Err {
                StatusView::Committed
            } else {
                match a.ahead {
                    Err(e) => StatusView::Error(e),
                    Ok(x) => match a.behind {
                        Err(e) => StatusView::Error(e),
                        Ok(y) => status_from_counts_view(count_of(x), count_of(y)),
                    },
                }
            },
        }
    }
}

/// Stepping the status probe from its start, answering each command it
/// asks for, ends within six commands in the state the answers give.
pub proof fn law_status_probe_outcome(a: StatusAnswers)
    ensures
        run_status(6, None, a) == Some(expected_status(a)),
{
    reveal_with_fuel(run_status, 7);
    if a.ahead is Ok {
        assert(count_of(a.ahead->Ok_0) <= 0xFFFF_FFFF);
    }
}

/// One step of working out the git state of a project: `None` starts it; then
/// each command it asked for is passed back with its outcome.
pub fn probe_project_status(last: Option<(GitQuery, Result<String, CommandError>)>) -> (p: Probe<
    GitProjectStatus,
>)
    ensures
        status_probe_view(p) == status_step(last_view(last)),
        match last {
            None => p == Probe::<GitProjectStatus>::Run(GitQuery::InsideWorkTree),
            Some((q, reply)) => match q {
                GitQuery::InsideWorkTree => if reply is Ok {
                    p == Probe::<GitProjectStatus>::Run(GitQuery::StatusPorcelain)
                } else {
                    p == Probe::<GitProjectStatus>::Done(GitProjectStatus::NotGit)
                },
                GitQuery::StatusPorcelain => match reply {
                    Ok(out) => if trim(out@).len() > 0 {
                        p == Probe::<GitProjectStatus>::Done(GitProjectStatus::Changed)
                    } else {
                        p == Probe::<GitProjectStatus>::Run(GitQuery::VerifyHead)
                    },
                    Err(e) => p matches Probe::Done(GitProjectStatus::Error(m)) && m@ == error_text(e),
                },
                GitQuery::VerifyHead => if reply is Ok {
                    p == Probe::<GitProjectStatus>::Run(GitQuery::HasUpstream)
                } else {
                    p == Probe::<GitProjectStatus>::Done(GitProjectStatus::NoCommits)
                },
                GitQuery::HasUpstream => if reply is Ok {
                    p == Probe::<GitProjectStatus>::Run(GitQuery::AheadCount)
                } else {
                    p == Probe::<GitProjectStatus>::Done(GitProjectStatus::Committed)
                },
                GitQuery::AheadCount => match reply {
                    Ok(out) => p matches Probe::Run(GitQuery::BehindCount { ahead }) && ahead
                        == count_of(out@),
                    Err(e) => p matches Probe::Done(GitProjectStatus::Error(m)) && m@ == error_text(e),
                },
                GitQuery::BehindCount { ahead } => match reply {
                    Ok(out) => p == Probe::<GitProjectStatus>::Done(
                        status_from_counts(ahead as nat, count_of(out@)),
                    ),
                    Err(e) => p matches Probe::Done(GitProjectStatus::Error(m)) && m@ == error_text(e),
                },
                _ => p matches Probe::Done(GitProjectStatus::Error(m)) && m@ == unexpected_query_text(),
            },
        },
{
    let (q, reply) = match last {
        None => {
            return Probe::Run(GitQuery::InsideWorkTree);
        },
        Some(x) => x,
    };
    match q {
        GitQuery::InsideWorkTree => if reply.is_ok() {
            Probe::Run(GitQuery::StatusPorcelain)
        } else {
            Probe::Done(GitProjectStatus::NotGit)
        },
        GitQuery::StatusPorcelain => match reply {
            Ok(out) => {
                let oc = chars_of(out.as_str());
                if trim_chars(oc.as_slice()).len() > 0 {
                    Probe::Done(GitProjectStatus::Changed)
                } else {
                    Probe::Run(GitQuery::VerifyHead)
                }
            },
            Err(e) => Probe::Done(GitProjectStatus::Error(e.message())),
        },
        GitQuery::VerifyHead => if reply.is_ok() {
            Probe::Run(GitQuery::HasUpstream)
        } else {
            Probe::Done(GitProjectStatus::NoCommits)
        },
        GitQuery::HasUpstream => if reply.is_ok() {
            Probe::Run(GitQuery::AheadCount)
        } else {
            Probe::Done(GitProjectStatus::Committed)
        },
        GitQuery::AheadCount => match reply {
            Ok(out) => Probe::Run(GitQuery::BehindCount { ahead: count_value(out.as_str()) }),
            Err(e) => Probe::Done(GitProjectStatus::Error(e.message())),
        },
        GitQuery::BehindCount { ahead } => match reply {
            Ok(out) => {
                let behind = count_value(out.as_str());
                let s = if ahead == 0 && behind == 0 {
                    GitProjectStatus::UpToDate
                } else if ahead > 0 && behind == 0 {
                    GitProjectStatus::WaitingToPush
                } else if ahead == 0 && behind > 0 {
                    GitProjectStatus::Behind
                } else {
                    GitProjectStatus::Diverged
                };
                Probe::Done(s)
            },
            Err(e) => Probe::Done(GitProjectStatus::Error(e.message())),
        },
        _ => Probe::Done(GitProjectStatus::Error(unexpected_query())),
    }
}

/// A history with its lines as characters.
pub enum HistoryView {
    Lines(Seq<Seq<char>>),
    Empty,
    NotGit,
    Error(Seq<char>),
}

impl View for GitHistory {
    type V = HistoryView;

    open spec fn view(&self) -> HistoryView {
        match self {
            GitHistory::Lines(v) => HistoryView::Lines(strs(v@)),
            GitHistory::Empty => HistoryView::Empty,
            GitHistory::NotGit => HistoryView::NotGit,
            GitHistory::Error(m) => HistoryView::Error(m@),
        }
    }
}

pub enum HistoryStep {
    Run(GitQuery),
    Done(HistoryView),
}

pub open spec fn history_probe_view(p: Probe<GitHistory>) -> HistoryStep {
    match p {
        Probe::Run(q) => HistoryStep::Run(q),
        Probe::Done(v) => HistoryStep::Done(v@),
    }
}

/// The step of the history probe after a command gave its reply.
pub open spec fn history_step(max_entries: usize, last: Option<(GitQuery, Result<Seq<char>, Seq<char>>)>) -> HistoryStep {
    match last {
        None => HistoryStep::Run(GitQuery::InsideWorkTree),
        Some((q, reply)) => match q {
            GitQuery::InsideWorkTree => if reply is Ok {
                HistoryStep::Run(GitQuery::VerifyHead)
            } else {
                HistoryStep::Done(HistoryView::NotGit)
            },
            GitQuery::VerifyHead => if reply is Ok {
                HistoryStep::Run(GitQuery::Log { max_entries })
            } else {
                HistoryStep::Done(HistoryView::Empty)
            },
            GitQuery::Log { .. } => match reply {
                Ok(out) => if nonblank_trimmed(lines_spec(out)).len() == 0 {
                    HistoryStep::Done(HistoryView::Empty)
                } else {
                    HistoryStep::Done(HistoryView::Lines(nonblank_trimmed(lines_spec(out))))
                },
                Err(e) => HistoryStep::Done(HistoryView::Error(e)),
            },
            _ => HistoryStep::Done(HistoryView::Error(unexpected_query_text())),
        },
    }
}

/// What git answers for the history probe.
pub struct HistoryAnswers {
    pub inside: Result<Seq<char>, Seq<char>>,
    pub head: Result<Seq<char>, Seq<char>>,
    pub log: Result<Seq<char>, Seq<char>>,
}

pub open spec fn history_answer(q: GitQuery, a: HistoryAnswers) -> Result<Seq<char>, Seq<char>> {
    match q {
        GitQuery::InsideWorkTree => a.inside,
        GitQuery::VerifyHead => a.head,
        GitQuery::Log { .. } => a.log,
        _ => a.inside,
    }
}

pub open spec fn run_history(max_entries: usize, fuel: nat, last: Option<(GitQuery, Result<Seq<char>, Seq<char>>)>, a: HistoryAnswers) -> Option<
    HistoryView,
>
    decreases fuel,
{
    match history_step(max_entries, last) {
        HistoryStep::Done(v) => Some(v),
        HistoryStep::Run(q) => if fuel == 0 {
            None
        } else {
            run_history(max_entries, (fuel - 1) as nat, Some((q, history_answer(q, a))), a)
        },
    }
}

/// Stepping the history probe from its start: not a work tree gives no
/// history to show, no commit gives an empty one, the log asked for holds
/// `max_entries` entries and its non-blank lines, trimmed, are the history
/// (empty when there are none), and a failed log gives its error.
pub proof fn law_history_probe_outcome(max_entries: usize, a: HistoryAnswers)
    ensures
        run_history(max_entries, 3, None, a) == Some(
            if a.inside is Err {
                HistoryView::NotGit
            } else if a.head is Err {
                HistoryView::Empty
            } else {
                match a.log {
                    Ok(out) => if nonblank_trimmed(lines_spec(out)).len() == 0 {
                        HistoryView::Empty
                    } else {
                        HistoryView::Lines(nonblank_trimmed(lines_spec(out)))
                    },
                    Err(e) => HistoryView::Error(e),
                }
            },
        ),
        a.inside is Ok && a.head is Ok ==> history_step(
            max_entries,
            Some((GitQuery::VerifyHead, a.head)),
        ) == HistoryStep::Run(GitQuery::Log { max_entries }),
{
    reveal_with_fuel(run_history, 4);
}

/// One step of reading the recent history (`max_entries` commits) of a project.
pub fn load_git_history(max_entries: usize, last: Option<(GitQuery, Result<String, CommandError>)>) -> (p: Probe<GitHistory>)
    ensures
        history_probe_view(p) == history_step(max_entries, last_view(last)),
        match last {
            None => p == Probe::<GitHistory>::Run(GitQuery::InsideWorkTree),
            Some((q, reply)) => match q {
                GitQuery::InsideWorkTree => if reply is Ok {
                    p == Probe::<GitHistory>::Run(GitQuery::VerifyHead)
                } else {
                    p == Probe::<GitHistory>::Done(GitHistory::NotGit)
                },
                GitQuery::VerifyHead => if reply is Ok {
                    p == Probe::<GitHistory>::Run(GitQuery::Log { max_entries })
                } else {
                    p == Probe::<GitHistory>::Done(GitHistory::Empty)
                },
                GitQuery::Log { .. } => match reply {
                    Ok(out) => if nonblank_trimmed(lines_spec(out@)).len() == 0 {
                        p == Probe::<GitHistory>::Done(GitHistory::Empty)
                    } else {
                        p matches Probe::Done(GitHistory::Lines(v)) && strs(v@) == nonblank_trimmed(
                            lines_spec(out@),
                        )
                    },
                    Err(e) => p matches Probe::Done(GitHistory::Error(m)) && m@ == error_text(e),
                },
                _ => p matches Probe::Done(GitHistory::Error(m)) && m@ == unexpected_query_text(),
            },
        },
{
    let (q, reply) = match last {
        None => {
            return Probe::Run(GitQuery::InsideWorkTree);
        },
        Some(x) => x,
    };
    match q {
        GitQuery::InsideWorkTree => if reply.is_ok() {
            Probe::Run(GitQuery::VerifyHead)
        } else {
            Probe::Done(GitHistory::NotGit)
        },
        GitQuery::VerifyHead => if reply.is_ok() {
            Probe::Run(GitQuery::Log { max_entries })
        } else {
            Probe::Done(GitHistory::Empty)
        },
        GitQuery::Log { .. } => match reply {
            Ok(out) => {
                let lines = output_lines(out.as_str());
                if lines.len() == 0 {
                    Probe::Done(GitHistory::Empty)
                } else {
                    Probe::Done(GitHistory::Lines(lines))
                }
            },
            Err(e) => Probe::Done(GitHistory::Error(e.message())),
        },
        _ => Probe::Done(GitHistory::Error(unexpected_query())),
    }
}

/// `git describe` found no tag to report.
pub open spec fn no_tag_message(m: Seq<char>) -> bool {
    contains(m, "No names found"@) || contains(m, "No tags can describe"@) || contains(
        m,
        "cannot describe"@,
    )
}

/// A release with its texts as characters.
pub enum ReleaseView {
    Tagged { tag: Seq<char>, commits_ahead: nat },
    NoTags,
    NoCommits,
    NotGit,
    Error(Seq<char>),
}

impl View for GitRelease {
    type V = ReleaseView;

    open spec fn view(&self) -> ReleaseView {
        match self {
            GitRelease::Tagged { tag, commits_ahead } => ReleaseView::Tagged {
                tag: tag@,
                commits_ahead: *commits_ahead as nat,
            },
            GitRelease::NoTags => ReleaseView::NoTags,
            GitRelease::NoCommits => ReleaseView::NoCommits,
            GitRelease::NotGit => ReleaseView::NotGit,
            GitRelease::Error(m) => ReleaseView::Error(m@),
        }
    }
}

/// The commands of the release probe, with the tag as characters.
pub enum ReleaseQuery {
    InsideWorkTree,
    VerifyHead,
    DescribeTags,
    CountSinceTag(Seq<char>),
    Other,
}

pub open spec fn release_query_view(q: GitQuery) -> ReleaseQuery {
    match q {
        GitQuery::InsideWorkTree => ReleaseQuery::InsideWorkTree,
        GitQuery::VerifyHead => ReleaseQuery::VerifyHead,
        GitQuery::DescribeTags => ReleaseQuery::DescribeTags,
        GitQuery::CountSinceTag { tag } => ReleaseQuery::CountSinceTag(tag@),
        _ => ReleaseQuery::Other,
    }
}

pub enum ReleaseStep {
    Run(ReleaseQuery),
    Done(ReleaseView),
}

pub open spec fn release_probe_view(p: Probe<GitRelease>) -> ReleaseStep {
    match p {
        Probe::Run(q) => ReleaseStep::Run(release_query_view(q)),
        Probe::Done(v) => ReleaseStep::Done(v@),
    }
}

pub open spec fn release_last_view(last: Option<(GitQuery, Result<String, CommandError>)>) -> Option<
    (ReleaseQuery, Result<Seq<char>, Seq<char>>),
> {
    match last {
        None => None,
        Some((q, r)) => Some((release_query_view(q), reply_view(r))),
    }
}

/// The step of the release probe after a command gave its reply.
pub open spec fn release_step(last: Option<(ReleaseQuery, Result<Seq<char>, Seq<char>>)>) -> ReleaseStep {
    match last {
        None => ReleaseStep::Run(ReleaseQuery::InsideWorkTree),
        Some((q, reply)) => match q {
            ReleaseQuery::InsideWorkTree => if reply is Ok {
                ReleaseStep::Run(ReleaseQuery::VerifyHead)
            } else {
                ReleaseStep::Done(ReleaseView::NotGit)
            },
            ReleaseQuery::VerifyHead => if reply is Ok {
                ReleaseStep::Run(ReleaseQuery::DescribeTags)
            } else {
                ReleaseStep::Done(ReleaseView::NoCommits)
            },
            ReleaseQuery::DescribeTags => match reply {
                Ok(out) => if trim(out).len() == 0 {
                    ReleaseStep::Done(ReleaseView::NoTags)
                } else {
                    ReleaseStep::Run(ReleaseQuery::CountSinceTag(trim(out)))
                },
                Err(e) => if no_tag_message(e) {
                    ReleaseStep::Done(ReleaseView::NoTags)
                } else {
                    ReleaseStep::Done(ReleaseView::Error(e))
                },
            },
            ReleaseQuery::CountSinceTag(tag) => match reply {
                Ok(out) => ReleaseStep::Done(ReleaseView::Tagged { tag, commits_ahead: count_of(out) }),
                Err(e) => ReleaseStep::Done(ReleaseView::Error(e)),
            },
            ReleaseQuery::Other => ReleaseStep::Done(ReleaseView::Error(unexpected_query_text())),
        },
    }
}

/// What git answers for the release probe: whether the directory is a work
/// tree, whether HEAD exists, what `describe --tags` gives, and the count of
/// commits since a tag.
pub struct ReleaseAnswers {
    pub inside: Result<Seq<char>, Seq<char>>,
    pub head: Result<Seq<char>, Seq<char>>,
    pub describe: Result<Seq<char>, Seq<char>>,
    pub count: Result<Seq<char>, Seq<char>>,
}

pub open spec fn release_answer(q: ReleaseQuery, a: ReleaseAnswers) -> Result<Seq<char>, Seq<char>> {
    match q {
        ReleaseQuery::InsideWorkTree => a.inside,
        ReleaseQuery::VerifyHead => a.head,
        ReleaseQuery::DescribeTags => a.describe,
        ReleaseQuery::CountSinceTag(_) => a.count,
        ReleaseQuery::Other => a.inside,
    }
}

pub open spec fn run_release(fuel: nat, last: Option<(ReleaseQuery, Result<Seq<char>, Seq<char>>)>, a: ReleaseAnswers) -> Option<
    ReleaseView,
>
    decreases fuel,
{
    match release_step(last) {
        ReleaseStep::Done(v) => Some(v),
        ReleaseStep::Run(q) => if fuel == 0 {
            None
        } else {
            run_release((fuel - 1) as nat, Some((q, release_answer(q, a))), a)
        },
    }
}

/// The release the answers give, in this order: not a work tree, no commit
/// yet, no tag (describe finds none or reports that no names or tags can
/// describe HEAD), describe failed otherwise, the count failed, else the
/// trimmed tag with the number of commits since it.
pub open spec fn expected_release(a: ReleaseAnswers) -> ReleaseView {
    if a.inside is Err {
        ReleaseView::NotGit
    } else if a.head is Err {
        ReleaseView::NoCommits
    } else {
        match a.describe {
            Ok(out) => if trim(out).len() == 0 {
                ReleaseView::NoTags
            } else {
                match a.count {
                    Ok(c) => ReleaseView::Tagged { tag: trim(out), commits_ahead: count_of(c) },
                    Err(e) => ReleaseView::Error(e),
                }
            },
            Err(e) => if contains(e, "No names found"@) || contains(e, "No tags can describe"@)
                || contains(e, "cannot describe"@) {
                ReleaseView::NoTags
            } else {
                ReleaseView::Error(e)
            },
        }
    }
}

/// Stepping the release probe from its start, answering each command it
/// asks for, ends within four commands in the release the answers give.
pub proof fn law_release_probe_outcome(a: ReleaseAnswers)
    ensures
        run_release(4, None, a) == Some(expected_release(a)),
{
    reveal_with_fuel(run_release, 5);
}

/// One step of finding the latest reachable tag and how far HEAD is past it.
pub fn load_git_release(last: Option<(GitQuery, Result<String, CommandError>)>) -> (p: Probe<
    GitRelease,
>)
    ensures
        release_probe_view(p) == release_step(release_last_view(last)),
        match last {
            None => p == Probe::<GitRelease>::Run(GitQuery::InsideWorkTree),
            Some((q, reply)) => match q {
                GitQuery::InsideWorkTree => if reply is Ok {
                    p == Probe::<GitRelease>::Run(GitQuery::VerifyHead)
                } else {
                    p == Probe::<GitRelease>::Done(GitRelease::NotGit)
                },
                GitQuery::VerifyHead => if reply is Ok {
                    p == Probe::<GitRelease>::Run(GitQuery::DescribeTags)
                } else {
                    p == Probe::<GitRelease>::Done(GitRelease::NoCommits)
                },
                GitQuery::DescribeTags => match reply {
                    Ok(out) => if trim(out@).len() == 0 {
                        p == Probe::<GitRelease>::Done(GitRelease::NoTags)
                    } else {
                        p matches Probe::Run(GitQuery::CountSinceTag { tag }) && tag@ == trim(out@)
                    },
                    Err(e) => if no_tag_message(error_text(e)) {
                        p == Probe::<GitRelease>::Done(GitRelease::NoTags)
                    } else {
                        p matches Probe::Done(GitRelease::Error(m)) && m@ == error_text(e)
                    },
                },
                GitQuery::CountSinceTag { tag } => match reply {
                    Ok(out) => p matches Probe::Done(GitRelease::Tagged { tag: t, commits_ahead })
                        && t == tag && commits_ahead == count_of(out@),
                    Err(e) => p matches Probe::Done(GitRelease::Error(m)) && m@ == error_text(e),
                },
                _ => p matches Probe::Done(GitRelease::Error(m)) && m@ == unexpected_query_text(),
            },
        },
{
    let (q, reply) = match last {
        None => {
            return Probe::Run(GitQuery::InsideWorkTree);
        },
        Some(x) => x,
    };
    match q {
        GitQuery::InsideWorkTree => if reply.is_ok() {
            Probe::Run(GitQuery::VerifyHead)
        } else {
            Probe::Done(GitRelease::NotGit)
        },
        GitQuery::VerifyHead => if reply.is_ok() {
            Probe::Run(GitQuery::DescribeTags)
        } else {
            Probe::Done(GitRelease::NoCommits)
        },
        GitQuery::DescribeTags => match reply {
            Ok(out) => {
                let oc = chars_of(out.as_str());
                let tag = trim_chars(oc.as_slice());
                if tag.len() == 0 {
                    Probe::Done(GitRelease::NoTags)
                } else {
                    Probe::Run(GitQuery::CountSinceTag { tag: string_from(tag.as_slice()) })
                }
            },
            Err(e) => {
                let m = e.message();
                let mc = chars_of(m.as_str());
                let n1 = chars_of("No names found");
                let n2 = chars_of("No tags can describe");
                let n3 = chars_of("cannot describe");
                if contains_chars(mc.as_slice(), n1.as_slice()) || contains_chars(
                    mc.as_slice(),
                    n2.as_slice(),
                ) || contains_chars(mc.as_slice(), n3.as_slice()) {
                    Probe::Done(GitRelease::NoTags)
                } else {
                    Probe::Done(GitRelease::Error(m))
                }
            },
        },
        GitQuery::CountSinceTag { tag } => match reply {
            Ok(out) => {
                let n = count_value(out.as_str());
                Probe::Done(GitRelease::Tagged { tag, commits_ahead: n })
            },
            Err(e) => Probe::Done(GitRelease::Error(e.message())),
        },
        _ => Probe::Done(GitRelease::Error(unexpected_query())),
    }
}

/// The remote to use among `names`: `origin` when present, else the first.
pub open spec fn primary_remote(names: Seq<Seq<char>>) -> Seq<char> {
    if names.contains("origin"@) {
        "origin"@
    } else {
        names[0]
    }
}

fn pick_remote(names: &Vec<String>) -> (r: String)
    requires
        names@.len() > 0,
    ensures
        r@ == primary_remote(strs(names@)),
{
    let origin = chars_of("origin");
    let mut i: usize = 0;
    while i < names.len()
        invariant
            i <= names@.len(),
            origin@ == "origin"@,
            forall|k: int| 0 <= k < i ==> names@[k]@ != "origin"@,
        decreases names@.len() - i,
    {
        let nc = chars_of(names[i].as_str());
        if chars_eq(nc.as_slice(), origin.as_slice()) {
            assert(strs(names@)[i as int] == "origin"@);
            return string_from(origin.as_slice());
        }
        i = i + 1;
    }
    assert forall|k: int| 0 <= k < strs(names@).len() implies strs(names@)[k] != "origin"@ by {
        assert(strs(names@)[k] == names@[k]@);
    }
    assert(!strs(names@).contains("origin"@));
    names[0].clone()
}

/// The outcome of looking up the primary remote after the `git remote` listing.
pub open spec fn after_remote_list(out: Seq<char>) -> Option<Seq<char>> {
    let names = nonblank_trimmed(lines_spec(out));
    if names.len() == 0 {
        None
    } else {
        Some(primary_remote(names))
    }
}

/// The remote whose URL is looked up: `origin` whenever the listing names
/// it; otherwise the first remote listed; none when no remote is listed.
pub proof fn law_primary_remote_prefers_origin(out: Seq<char>)
    ensures
        ({
            let names = nonblank_trimmed(lines_spec(out));
            &&& names.len() == 0 <==> after_remote_list(out) is None
            &&& names.contains("origin"@) ==> after_remote_list(out) == Some("origin"@)
            &&& names.len() > 0 && !names.contains("origin"@) ==> after_remote_list(out) == Some(
                names[0],
            )
            &&& after_remote_list(out) matches Some(n) ==> names.contains(n)
        }),
{
    let names = nonblank_trimmed(lines_spec(out));
    if names.len() > 0 && !names.contains("origin"@) {
        assert(names[0] == names[0]);
    }
}

fn remote_name_from_listing(out: &str) -> (r: Option<String>)
    ensures
        match r {
            Some(n) => after_remote_list(out@) == Some(n@),
            None => after_remote_list(out@) is None,
        },
{
    let names = output_lines(out);
    if names.len() == 0 {
        None
    } else {
        Some(pick_remote(&names))
    }
}

/// One step of finding the browser URL of a project's primary remote.
pub fn load_project_remote_web_url(last: Option<(GitQuery, Result<String, CommandError>)>) -> (p:
    Probe<GitRemoteWebUrl>)
    ensures
        match last {
            None => p == Probe::<GitRemoteWebUrl>::Run(GitQuery::InsideWorkTree),
            Some((q, reply)) => match q {
                GitQuery::InsideWorkTree => if reply is Ok {
                    p == Probe::<GitRemoteWebUrl>::Run(GitQuery::ListRemotes)
                } else {
                    p == Probe::<GitRemoteWebUrl>::Done(GitRemoteWebUrl::NotGit)
                },
                GitQuery::ListRemotes => match reply {
                    Ok(out) => match after_remote_list(out@) {
                        None => p == Probe::<GitRemoteWebUrl>::Done(GitRemoteWebUrl::NoRemote),
                        Some(name) => p matches Probe::Run(GitQuery::RemoteUrl { name: n }) && n@
                            == name,
                    },
                    Err(e) => p matches Probe::Done(GitRemoteWebUrl::Error(m)) && m@ == error_text(e),
                },
                GitQuery::RemoteUrl { .. } => match reply {
                    Ok(out) => if trim(out@).len() == 0 {
                        p == Probe::<GitRemoteWebUrl>::Done(GitRemoteWebUrl::NoRemote)
                    } else {
                        match remote_spec(trim(out@)) {
                            None => p matches Probe::Done(GitRemoteWebUrl::UnsupportedRemote(u))
                                && u@ == trim(out@),
                            Some((h, path)) => p matches Probe::Done(GitRemoteWebUrl::Url(u)) && u@
                                == web_url_spec(h, path),
                        }
                    },
                    Err(e) => p matches Probe::Done(GitRemoteWebUrl::Error(m)) && m@ == error_text(e),
                },
                _ => p matches Probe::Done(GitRemoteWebUrl::Error(m)) && m@ == unexpected_query_text(),
            },
        },
{
    let (q, reply) = match last {
        None => {
            return Probe::Run(GitQuery::InsideWorkTree);
        },
        Some(x) => x,
    };
    match q {
        GitQuery::InsideWorkTree => if reply.is_ok() {
            Probe::Run(GitQuery::ListRemotes)
        } else {
            Probe::Done(GitRemoteWebUrl::NotGit)
        },
        GitQuery::ListRemotes => match reply {
            Ok(out) => match remote_name_from_listing(out.as_str()) {
                None => Probe::Done(GitRemoteWebUrl::NoRemote),
                Some(name) => Probe::Run(GitQuery::RemoteUrl { name }),
            },
            Err(e) => Probe::Done(GitRemoteWebUrl::Error(e.message())),
        },
        GitQuery::RemoteUrl { .. } => match reply {
            Ok(out) => {
                let oc = chars_of(out.as_str());
                let url = trim_chars(oc.as_slice());
                if url.len() == 0 {
                    return Probe::Done(GitRemoteWebUrl::NoRemote);
                }
                match remote_chars(url.as_slice()) {
                    None => Probe::Done(GitRemoteWebUrl::UnsupportedRemote(string_from(url.as_slice()))),
                    Some((h, path)) => {
                        let hs = string_from(h.as_slice());
                        let ps = string_from(path.as_slice());
                        Probe::Done(GitRemoteWebUrl::Url(web_url(hs.as_str(), ps.as_str())))
                    },
                }
            },
            Err(e) => Probe::Done(GitRemoteWebUrl::Error(e.message())),
        },
        _ => Probe::Done(GitRemoteWebUrl::Error(unexpected_query())),
    }
}

/// The CI query for a remote with host `h` and repository path `path`, or the
/// answer when there is none to make.
pub open spec fn pipeline_query_ok(h: Seq<char>, path: Seq<char>, p: Probe<GitPipelineStatus>) -> bool {
    match provider_spec(h) {
        GitProvider::GitHub => match owner_repo_spec(path) {
            None => p == Probe::<GitPipelineStatus>::Done(GitPipelineStatus::NotSupported),
            Some((o, r)) => p matches Probe::Run(GitQuery::GithubRuns { owner, repo }) && owner@ == o
                && repo@ == r,
        },
        GitProvider::GitLab => p matches Probe::Run(GitQuery::GitlabPipelines { encoded_repo })
            && encoded_repo@ == url_encode_spec(encode_utf8(path)),
        GitProvider::Unknown => p == Probe::<GitPipelineStatus>::Done(GitPipelineStatus::NotSupported),
    }
}

/// One step of finding the state of the latest CI pipeline of a project.
pub fn probe_project_pipeline_status(last: Option<(GitQuery, Result<String, CommandError>)>) -> (p:
    Probe<GitPipelineStatus>)
    ensures
        match last {
            None => p == Probe::<GitPipelineStatus>::Run(GitQuery::InsideWorkTree),
            Some((q, reply)) => match q {
                GitQuery::InsideWorkTree => if reply is Ok {
                    p == Probe::<GitPipelineStatus>::Run(GitQuery::ListRemotes)
                } else {
                    p == Probe::<GitPipelineStatus>::Done(GitPipelineStatus::NotGit)
                },
                GitQuery::ListRemotes => match reply {
                    Ok(out) => match after_remote_list(out@) {
                        None => p == Probe::<GitPipelineStatus>::Done(GitPipelineStatus::NotConfigured),
                        Some(name) => p matches Probe::Run(GitQuery::RemoteUrl { name: n }) && n@
                            == name,
                    },
                    Err(e) => p matches Probe::Done(GitPipelineStatus::Error(m)) && m@ == error_text(e),
                },
                GitQuery::RemoteUrl { .. } => match reply {
                    Ok(out) => if trim(out@).len() == 0 {
                        p == Probe::<GitPipelineStatus>::Done(GitPipelineStatus::NotConfigured)
                    } else {
                        match remote_spec(trim(out@)) {
                            None => p == Probe::<GitPipelineStatus>::Done(GitPipelineStatus::NotSupported),
                            Some((h, path)) => pipeline_query_ok(h, path, p),
                        }
                    },
                    Err(e) => p matches Probe::Done(GitPipelineStatus::Error(m)) && m@ == error_text(e),
                },
                GitQuery::GithubRuns { .. } => match reply {
                    Ok(out) => p == Probe::<GitPipelineStatus>::Done(github_status_spec(out@)),
                    Err(CommandError::NotFound) => p == Probe::<GitPipelineStatus>::Done(GitPipelineStatus::NotConfigured),
                    Err(CommandError::Failed(m)) => p matches Probe::Done(GitPipelineStatus::Error(x)) && x == m,
                },
                GitQuery::GitlabPipelines { .. } => match reply {
                    Ok(out) => p == Probe::<GitPipelineStatus>::Done(gitlab_status_spec(out@)),
                    Err(CommandError::NotFound) => p == Probe::<GitPipelineStatus>::Done(GitPipelineStatus::NotConfigured),
                    Err(CommandError::Failed(m)) => p matches Probe::Done(GitPipelineStatus::Error(x)) && x == m,
                },
                _ => p matches Probe::Done(GitPipelineStatus::Error(m)) && m@ == unexpected_query_text(),
            },
        },
{
    let (q, reply) = match last {
        None => {
            return Probe::Run(GitQuery::InsideWorkTree);
        },
        Some(x) => x,
    };
    match q {
        GitQuery::InsideWorkTree => if reply.is_ok() {
            Probe::Run(GitQuery::ListRemotes)
        } else {
            Probe::Done(GitPipelineStatus::NotGit)
        },
        GitQuery::ListRemotes => match reply {
            Ok(out) => match remote_name_from_listing(out.as_str()) {
                None => Probe::Done(GitPipelineStatus::NotConfigured),
                Some(name) => Probe::Run(GitQuery::RemoteUrl { name }),
            },
            Err(e) => Probe::Done(GitPipelineStatus::Error(e.message())),
        },
        GitQuery::RemoteUrl { .. } => match reply {
            Ok(out) => {
                let oc = chars_of(out.as_str());
                let url = trim_chars(oc.as_slice());
                if url.len() == 0 {
                    return Probe::Done(GitPipelineStatus::NotConfigured);
                }
                match remote_chars(url.as_slice()) {
                    None => Probe::Done(GitPipelineStatus::NotSupported),
                    Some((h, path)) => {
                        let hs = string_from(h.as_slice());
                        let ps = string_from(path.as_slice());
                        match detect_provider(hs.as_str()) {
                            GitProvider::GitHub => match github_owner_repo(ps.as_str()) {
                                None => Probe::Done(GitPipelineStatus::NotSupported),
                                Some((owner, repo)) => Probe::Run(GitQuery::GithubRuns { owner, repo }),
                            },
                            GitProvider::GitLab => Probe::Run(
                                GitQuery::GitlabPipelines { encoded_repo: url_encode_component(ps.as_str()) },
                            ),
                            GitProvider::Unknown => Probe::Done(GitPipelineStatus::NotSupported),
                        }
                    },
                }
            },
            Err(e) => Probe::Done(GitPipelineStatus::Error(e.message())),
        },
        GitQuery::GithubRuns { .. } => match reply {
            Ok(out) => Probe::Done(parse_github_pipeline_status(out.as_str())),
            Err(CommandError::NotFound) => Probe::Done(GitPipelineStatus::NotConfigured),
            Err(CommandError::Failed(m)) => Probe::Done(GitPipelineStatus::Error(m)),
        },
        GitQuery::GitlabPipelines { .. } => match reply {
            Ok(out) => Probe::Done(parse_gitlab_pipeline_status(out.as_str())),
            Err(CommandError::NotFound) => Probe::Done(GitPipelineStatus::NotConfigured),
            Err(CommandError::Failed(m)) => Probe::Done(GitPipelineStatus::Error(m)),
        },
        _ => Probe::Done(GitPipelineStatus::Error(unexpected_query())),
    }
}


pub open spec fn is_git_query(q: GitQuery) -> bool {
    !(q is GithubRuns || q is GitlabPipelines)
}

/// The program that runs a query.
pub open spec fn query_program(q: GitQuery) -> Seq<char> {
    match q {
        GitQuery::GithubRuns { .. } => "gh"@,
        GitQuery::GitlabPipelines { .. } => "glab"@,
        _ => "git"@,
    }
}

/// The arguments of a query, after `-C <project>` for git.
pub open spec fn query_args(q: GitQuery) -> Seq<Seq<char>> {
    match q {
        GitQuery::InsideWorkTree => seq!["rev-parse"@, "--is-inside-work-tree"@],
        GitQuery::StatusPorcelain => seq!["status"@, "--porcelain"@, "--untracked-files=normal"@],
        GitQuery::VerifyHead => seq!["rev-parse"@, "--verify"@, "HEAD"@],
        GitQuery::HasUpstream => seq![
            "rev-parse"@,
            "--abbrev-ref"@,
            "--symbolic-full-name"@,
            "@{upstream}"@,
        ],
        GitQuery::AheadCount => seq!["rev-list"@, "--count"@, "@{upstream}..HEAD"@],
        GitQuery::BehindCount { .. } => seq!["rev-list"@, "--count"@, "HEAD..@{upstream}"@],
        GitQuery::Log { max_entries } => seq![
            "log"@,
            "--date=short"@,
            "--pretty=format:%h %ad %s"@,
            "-n"@,
            decimal(max_entries as nat),
        ],
        GitQuery::DescribeTags => seq!["describe"@, "--tags"@, "--abbrev=0"@],
        GitQuery::CountSinceTag { tag } => seq!["rev-list"@, "--count"@, tag@ + "..HEAD"@],
        GitQuery::ListRemotes => seq!["remote"@],
        GitQuery::RemoteUrl { name } => seq!["remote"@, "get-url"@, name@],
        GitQuery::GithubRuns { owner, repo } => seq![
            "api"@,
            "repos/"@ + owner@ + "/"@ + repo@ + "/actions/runs?per_page=1"@,
        ],
        GitQuery::GitlabPipelines { encoded_repo } => seq![
            "api"@,
            "projects/"@ + encoded_repo@ + "/pipelines?per_page=1"@,
        ],
    }
}

/// All arguments of a query run for the project at `project_path`.
pub open spec fn full_query_args(q: GitQuery, project_path: Seq<char>) -> Seq<Seq<char>> {
    if is_git_query(q) {
        seq!["-C"@, project_path] + query_args(q)
    } else {
        query_args(q)
    }
}

fn push_owned(v: &mut Vec<String>, s: &str)
    ensures
        strs(final(v)@) == strs(old(v)@).push(s@),
{
    let ghost before = v@;
    v.push(crate::text::owned(s));
    assert(strs(v@) =~= strs(before).push(s@));
}

fn push_string(v: &mut Vec<String>, s: String)
    ensures
        strs(final(v)@) == strs(old(v)@).push(s@),
{
    let ghost before = v@;
    v.push(s);
    assert(strs(v@) =~= strs(before).push(s@));
}

/// The program and arguments that run query `q` for the project at `project_path`.
pub fn query_command(q: &GitQuery, project_path: &str) -> (r: (String, Vec<String>))
    ensures
        r.0@ == query_program(*q),
        strs(r.1@) == full_query_args(*q, project_path@),
{
    let mut args: Vec<String> = Vec::new();
    let program = match q {
        GitQuery::GithubRuns { .. } => crate::text::owned("gh"),
        GitQuery::GitlabPipelines { .. } => crate::text::owned("glab"),
        _ => {
            push_owned(&mut args, "-C");
            push_owned(&mut args, project_path);
            crate::text::owned("git")
        },
    };
    let ghost pre = strs(args@);
    match q {
        GitQuery::InsideWorkTree => {
            push_owned(&mut args, "rev-parse");
            push_owned(&mut args, "--is-inside-work-tree");
        },
        GitQuery::StatusPorcelain => {
            push_owned(&mut args, "status");
            push_owned(&mut args, "--porcelain");
            push_owned(&mut args, "--untracked-files=normal");
        },
        GitQuery::VerifyHead => {
            push_owned(&mut args, "rev-parse");
            push_owned(&mut args, "--verify");
            push_owned(&mut args, "HEAD");
        },
        GitQuery::HasUpstream => {
            push_owned(&mut args, "rev-parse");
            push_owned(&mut args, "--abbrev-ref");
            push_owned(&mut args, "--symbolic-full-name");
            push_owned(&mut args, "@{upstream}");
        },
        GitQuery::AheadCount => {
            push_owned(&mut args, "rev-list");
            push_owned(&mut args, "--count");
            push_owned(&mut args, "@{upstream}..HEAD");
        },
        GitQuery::BehindCount { .. } => {
            push_owned(&mut args, "rev-list");
            push_owned(&mut args, "--count");
            push_owned(&mut args, "HEAD..@{upstream}");
        },
        GitQuery::Log { max_entries } => {
            push_owned(&mut args, "log");
            push_owned(&mut args, "--date=short");
            push_owned(&mut args, "--pretty=format:%h %ad %s");
            push_owned(&mut args, "-n");
            let n = u64_chars(*max_entries as u64);
            push_string(&mut args, string_from(n.as_slice()));
        },
        GitQuery::DescribeTags => {
            push_owned(&mut args, "describe");
            push_owned(&mut args, "--tags");
            push_owned(&mut args, "--abbrev=0");
        },
        GitQuery::CountSinceTag { tag } => {
            push_owned(&mut args, "rev-list");
            push_owned(&mut args, "--count");
            let mut s = tag.clone();
            push_str(&mut s, "..HEAD");
            push_string(&mut args, s);
        },
        GitQuery::ListRemotes => {
            push_owned(&mut args, "remote");
        },
        GitQuery::RemoteUrl { name } => {
            push_owned(&mut args, "remote");
            push_owned(&mut args, "get-url");
            push_string(&mut args, name.clone());
        },
        GitQuery::GithubRuns { owner, repo } => {
            push_owned(&mut args, "api");
            let mut s = crate::text::owned("repos/");
            push_str(&mut s, owner.as_str());
            push_str(&mut s, "/");
            push_str(&mut s, repo.as_str());
            push_str(&mut s, "/actions/runs?per_page=1");
            push_string(&mut args, s);
        },
        GitQuery::GitlabPipelines { encoded_repo } => {
            push_owned(&mut args, "api");
            let mut s = crate::text::owned("projects/");
            push_str(&mut s, encoded_repo.as_str());
            push_str(&mut s, "/pipelines?per_page=1");
            push_string(&mut args, s);
        },
    }
    assert(strs(args@) =~= full_query_args(*q, project_path@));
    (program, args)
}

} // verus!
