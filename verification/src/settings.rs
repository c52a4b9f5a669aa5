//! The user settings file (`settings.toml`): a few `key = value` lines.
use vstd::prelude::*;

use crate::fs::markdown::{render_spec, strs};
use crate::numfmt::{decimal, u64_chars};
use crate::text::{
    char_index, chars_of, is_ws, eq_ignore_ascii_case, eq_ignore_case, eq_lit, find_char, lines_spec, lower_seq,
    push_chars, push_str, split_lines, string_from, sub_chars, trim, trim_chars, views,
};

verus! {

#[derive(Debug, Clone, Copy, PartialEq, Eq, Structural)]
pub struct Settings {
    /// When false, CI pipeline checks are skipped and their badges hidden.
    pub git_pipeline_check: bool,
}

impl Default for Settings {
    fn default() -> (s: Self)
        ensures
            s.git_pipeline_check,
    {
        Settings { git_pipeline_check: true }
    }
}

/// Why a settings file was refused; `line` counts from 1.
#[derive(Debug, Clone, PartialEq, Eq)]
pub enum SettingsError {
    MissingEquals { line: usize },
    InvalidBool { line: usize, value: String },
}

pub open spec fn settings_error_text(e: SettingsError) -> Seq<char> {
    match e {
        SettingsError::MissingEquals { line } => "line "@ + decimal(line as nat)
            + " must use key = value syntax"@,
        SettingsError::InvalidBool { line, value } => "line "@ + decimal(line as nat)
            + " has invalid boolean for git_pipeline_check: "@ + value@,
    }
}

impl SettingsError {
    pub fn message(&self) -> (r: String)
        ensures
            r@ == settings_error_text(*self),
    {
        match self {
            SettingsError::MissingEquals { line } => {
                let mut r = crate::text::owned("line ");
                push_chars(&mut r, u64_chars(*line as u64).as_slice());
                push_str(&mut r, " must use key = value syntax");
                r
            },
            SettingsError::InvalidBool { line, value } => {
                let mut r = crate::text::owned("line ");
                push_chars(&mut r, u64_chars(*line as u64).as_slice());
                push_str(&mut r, " has invalid boolean for git_pipeline_check: ");
                push_str(&mut r, value.as_str());
                r
            },
        }
    }
}

/// `true` and `false`, in any ASCII case.
pub open spec fn parse_bool_spec(v: Seq<char>) -> Option<bool> {
    if eq_ignore_case(v, "true"@) {
        Some(true)
    } else if eq_ignore_case(v, "false"@) {
        Some(false)
    } else {
        None
    }
}

/// A setting's value reads as a boolean exactly when it is `true` or
/// `false` in any mix of ASCII letter case.
pub proof fn law_parse_bool_any_case(v: Seq<char>)
    ensures
        parse_bool_spec(v) == Some(true) <==> lower_seq(v) == "true"@,
        parse_bool_spec(v) == Some(false) <==> lower_seq(v) == "false"@,
        parse_bool_spec(v) is None <==> (lower_seq(v) != "true"@ && lower_seq(v) != "false"@),
{
    reveal_strlit("true");
    reveal_strlit("false");
    assert(lower_seq("true"@) =~= "true"@);
    assert(lower_seq("false"@) =~= "false"@);
    assert("true"@ != "false"@) by {
        assert("true"@.len() != "false"@.len());
    }
}

pub fn parse_bool(value: &str) -> (r: Option<bool>)
    ensures
        r == parse_bool_spec(value@),
{
    let vc = chars_of(value);
    let t = chars_of("true");
    let f = chars_of("false");
    if eq_ignore_ascii_case(vc.as_slice(), t.as_slice()) {
        Some(true)
    } else if eq_ignore_ascii_case(vc.as_slice(), f.as_slice()) {
        Some(false)
    } else {
        None
    }
}

/// A line without its `#` comment, trimmed.
pub open spec fn content_of(line: Seq<char>) -> Seq<char> {
    let h = char_index(line, '#');
    trim(
        if h >= 0 {
            line.take(h)
        } else {
            line
        },
    )
}

/// What one line (number `lineno`) does to the flag: `Err((lineno, None))` for a
/// line without `=`, `Err((lineno, Some(value)))` for a bad boolean.
pub open spec fn settings_line_step(line: Seq<char>, lineno: nat, flag: bool) -> Result<
    bool,
    (nat, Option<Seq<char>>),
> {
    let c = content_of(line);
    if c.len() == 0 {
        Ok(flag)
    } else {
        let eq = char_index(c, '=');
        if eq < 0 {
            Err((lineno, None))
        } else if trim(c.take(eq)) == "git_pipeline_check"@ {
            match parse_bool_spec(trim(c.skip(eq + 1))) {
                Some(b) => Ok(b),
                None => Err((lineno, Some(trim(c.skip(eq + 1))))),
            }
        } else {
            Ok(flag)
        }
    }
}

/// The flag after the first `n` lines, or the first error.
pub open spec fn settings_lines_spec(ls: Seq<Seq<char>>, n: int) -> Result<
    bool,
    (nat, Option<Seq<char>>),
>
    decreases n,
{
    if n <= 0 {
        Ok(true)
    } else {
        match settings_lines_spec(ls, n - 1) {
            Ok(flag) => settings_line_step(ls[n - 1], n as nat, flag),
            Err(e) => Err(e),
        }
    }
}

pub open spec fn parse_settings_spec(content: Seq<char>) -> Result<bool, (nat, Option<Seq<char>>)> {
    let ls = lines_spec(content);
    settings_lines_spec(ls, ls.len() as int)
}

fn content_chars(line: &[char]) -> (r: Vec<char>)
    ensures
        r@ == content_of(line@),
{
    match find_char(line, '#') {
        Some(h) => {
            proof {
                crate::text::lemma_char_index_from(line@, '#', 0);
            }
            let head = sub_chars(line, 0, h);
            assert(head@ =~= line@.take(h as int));
            trim_chars(head.as_slice())
        },
        None => trim_chars(line),
    }
}

proof fn lemma_settings_err_sticks(ls: Seq<Seq<char>>, k: int, n: int)
    requires
        0 <= k <= n,
        settings_lines_spec(ls, k) is Err,
    ensures
        settings_lines_spec(ls, n) == settings_lines_spec(ls, k),
    decreases n - k,
{
    if k < n {
        lemma_settings_err_sticks(ls, k, n - 1);
    }
}

/// Reads settings text: comments after `#` and blank lines are skipped, every
/// other line must be `key = value`, and `git_pipeline_check` takes a boolean.
/// Keys it does not know are ignored.
pub fn parse_settings(content: &str) -> (r: Result<Settings, SettingsError>)
    requires
        lines_spec(content@).len() < usize::MAX,
    ensures
        match r {
            Ok(s) => parse_settings_spec(content@) == Ok::<bool, (nat, Option<Seq<char>>)>(
                s.git_pipeline_check,
            ),
            Err(SettingsError::MissingEquals { line }) => parse_settings_spec(content@) == Err::<
                bool,
                (nat, Option<Seq<char>>),
            >((line as nat, None)),
            Err(SettingsError::InvalidBool { line, value }) => parse_settings_spec(content@)
                == Err::<bool, (nat, Option<Seq<char>>)>((line as nat, Some(value@))),
        },
{
    let cc = chars_of(content);
    let parts = split_lines(cc.as_slice());
    let ghost ls = views(parts@);
    let mut flag = true;
    let mut i: usize = 0;
    while i < parts.len()
        invariant
            i <= parts@.len(),
            parts@.len() < usize::MAX,
            ls == views(parts@),
            ls == lines_spec(content@),
            settings_lines_spec(ls, i as int) == Ok::<bool, (nat, Option<Seq<char>>)>(flag),
        decreases parts@.len() - i,
    {
        assert(ls[i as int] == parts@[i as int]@);
        let c = content_chars(parts[i].as_slice());
        if c.len() > 0 {
            match find_char(c.as_slice(), '=') {
                None => {
                    proof {
                        lemma_settings_err_sticks(ls, i + 1, ls.len() as int);
                    }
                    return Err(SettingsError::MissingEquals { line: i + 1 });
                },
                Some(eq) => {
                    proof {
                        crate::text::lemma_char_index_from(c@, '=', 0);
                    }
                    let key = sub_chars(c.as_slice(), 0, eq);
                    let value = sub_chars(c.as_slice(), eq + 1, c.len());
                    assert(key@ =~= c@.take(eq as int));
                    assert(value@ =~= c@.skip(eq + 1));
                    let tk = trim_chars(key.as_slice());
                    if eq_lit(tk.as_slice(), "git_pipeline_check") {
                        let tv = trim_chars(value.as_slice());
                        let tvs = string_from(tv.as_slice());
                        match parse_bool(tvs.as_str()) {
                            Some(b) => {
                                flag = b;
                            },
                            None => {
                                proof {
                                    lemma_settings_err_sticks(ls, i + 1, ls.len() as int);
                                }
                                return Err(SettingsError::InvalidBool { line: i + 1, value: tvs });
                            },
                        }
                    }
                },
            }
        }
        i = i + 1;
    }
    Ok(Settings { git_pipeline_check: flag })
}

pub open spec fn settings_header() -> Seq<char> {
    "# prm settings"@
}

pub open spec fn settings_note() -> Seq<char> {
    "# When false, skip CI pipeline checks and hide pipeline badges in the Projects pane."@
}

pub open spec fn bool_text(b: bool) -> Seq<char> {
    if b {
        "true"@
    } else {
        "false"@
    }
}

pub open spec fn settings_lines(s: Settings) -> Seq<Seq<char>> {
    seq![settings_header(), settings_note(), "git_pipeline_check = "@ + bool_text(s.git_pipeline_check)]
}

/// The text of a settings file: a comment header and the `git_pipeline_check` line.
pub fn render_settings(settings: Settings) -> (r: String)
    ensures
        r@ == render_spec(settings_lines(settings)),
{
    let mut r = String::new();
    push_str(&mut r, "# prm settings");
    push_str(&mut r, "\n");
    push_str(
        &mut r,
        "# When false, skip CI pipeline checks and hide pipeline badges in the Projects pane.",
    );
    push_str(&mut r, "\n");
    push_str(&mut r, "git_pipeline_check = ");
    if settings.git_pipeline_check {
        push_str(&mut r, "true");
    } else {
        push_str(&mut r, "false");
    }
    push_str(&mut r, "\n");
    proof {
        reveal_strlit("\n");
        let ls = settings_lines(settings);
        let l1 = ls.drop_first();
        let l2 = l1.drop_first();
        let l3 = l2.drop_first();
        assert(l3 =~= Seq::<Seq<char>>::empty());
        assert(render_spec(l3) =~= Seq::<char>::empty());
        assert(l2[0] == ls[2]);
        assert(l1[0] == ls[1]);
        assert(render_spec(l2) == l2[0] + seq!['\n'] + render_spec(l3));
        assert(render_spec(l1) == l1[0] + seq!['\n'] + render_spec(l2));
        assert(render_spec(ls) == ls[0] + seq!['\n'] + render_spec(l1));
    }
    assert(r@ =~= render_spec(settings_lines(settings)));
    r
}


/// No directory to keep configuration in could be found.
#[derive(Debug, Clone, Copy, PartialEq, Eq, Structural)]
pub struct NoConfigHome;

impl NoConfigHome {
    pub fn message(&self) -> (r: String)
        ensures
            r@ == "could not determine XDG config home (XDG_CONFIG_HOME, HOME, USERPROFILE)"@,
    {
        crate::text::owned("could not determine XDG config home (XDG_CONFIG_HOME, HOME, USERPROFILE)")
    }
}

pub open spec fn set_and_not_empty(v: Option<&str>) -> bool {
    v is Some && v->0@.len() > 0
}

pub open spec fn settings_path_spec(
    xdg_config_home: Option<&str>,
    home: Option<&str>,
    user_profile: Option<&str>,
) -> Option<Seq<Seq<char>>> {
    if set_and_not_empty(xdg_config_home) {
        Some(seq![xdg_config_home->0@, "prm"@, "settings.toml"@])
    } else if set_and_not_empty(home) {
        Some(seq![home->0@, ".config"@, "prm"@, "settings.toml"@])
    } else if set_and_not_empty(user_profile) {
        Some(seq![user_profile->0@, ".config"@, "prm"@, "settings.toml"@])
    } else {
        None
    }
}

/// Where the settings file lives, as path components to join: under
/// `XDG_CONFIG_HOME` where it is set and not empty, else under `.config` of
/// `HOME`, else of `USERPROFILE`.
pub fn settings_path(
    xdg_config_home: Option<&str>,
    home: Option<&str>,
    user_profile: Option<&str>,
) -> (r: Result<Vec<String>, NoConfigHome>)
    ensures
        match settings_path_spec(xdg_config_home, home, user_profile) {
            Some(parts) => r is Ok && r->Ok_0@.map_values(|p: String| p@) == parts,
            None => r == Err::<Vec<String>, NoConfigHome>(NoConfigHome),
        },
{
    let mut parts: Vec<String> = Vec::new();
    let base_is_xdg = match xdg_config_home {
        Some(v) => v.unicode_len() > 0,
        None => false,
    };
    if base_is_xdg {
        parts.push(crate::text::owned(xdg_config_home.unwrap()));
    } else {
        let base = match home {
            Some(h) if h.unicode_len() > 0 => h,
            _ => match user_profile {
                Some(u) if u.unicode_len() > 0 => u,
                _ => {
                    return Err(NoConfigHome);
                },
            },
        };
        parts.push(crate::text::owned(base));
        parts.push(crate::text::owned(".config"));
    }
    parts.push(crate::text::owned("prm"));
    parts.push(crate::text::owned("settings.toml"));
    proof {
        assert(parts@.map_values(|p: String| p@) =~= settings_path_spec(
            xdg_config_home,
            home,
            user_profile,
        )->0);
    }
    Ok(parts)
}

/// The settings given the settings file's text, or `None` where there is no
/// file yet: then the defaults, and the text to create the file with.
pub fn load_or_create(existing: Option<&str>) -> (r: Result<(Settings, Option<String>), SettingsError>)
    requires
        existing is Some ==> lines_spec(existing->0@).len() < usize::MAX,
    ensures
        match existing {
            None => r is Ok && r->Ok_0.0.git_pipeline_check && r->Ok_0.1 is Some
                && r->Ok_0.1->0@ == render_spec(settings_lines(r->Ok_0.0)),
            Some(content) => match r {
                Ok(x) => x.1 is None && parse_settings_spec(content@) == Ok::<
                    bool,
                    (nat, Option<Seq<char>>),
                >(x.0.git_pipeline_check),
                Err(SettingsError::MissingEquals { line }) => parse_settings_spec(content@)
                    == Err::<bool, (nat, Option<Seq<char>>)>((line as nat, None)),
                Err(SettingsError::InvalidBool { line, value }) => parse_settings_spec(content@)
                    == Err::<bool, (nat, Option<Seq<char>>)>((line as nat, Some(value@))),
            },
        },
{
    match existing {
        None => {
            let defaults = Settings { git_pipeline_check: true };
            let text = render_settings(defaults);
            Ok((defaults, Some(text)))
        },
        Some(content) => match parse_settings(content) {
            Ok(s) => Ok((s, None)),
            Err(e) => Err(e),
        },
    }
}


proof fn lemma_comment_line_is_skipped(line: Seq<char>, lineno: nat, flag: bool)
    requires
        line.len() > 0,
        line[0] == '#',
    ensures
        settings_line_step(line, lineno, flag) == Ok::<bool, (nat, Option<Seq<char>>)>(flag),
{
    assert(char_index(line, '#') == 0);
    assert(line.take(0) =~= Seq::<char>::empty());
    assert(trim(Seq::<char>::empty()) =~= Seq::<char>::empty());
}

proof fn lemma_value_line(b: bool, lineno: nat, flag: bool)
    ensures
        settings_line_step("git_pipeline_check = "@ + bool_text(b), lineno, flag) == Ok::<
            bool,
            (nat, Option<Seq<char>>),
        >(b),
{
    reveal_strlit("git_pipeline_check = ");
    reveal_strlit("git_pipeline_check");
    reveal_strlit("true");
    reveal_strlit("false");
    let line = "git_pipeline_check = "@ + bool_text(b);
    let n = line.len() as int;
    crate::text::lemma_char_index_from(line, '#', 0);
    assert(forall|k: int| 0 <= k < n ==> line[k] != '#');
    assert(char_index(line, '#') == -1);
    crate::text::lemma_lead_ws_bounds(line, 0);
    crate::text::lemma_trail_ws_bounds(line, n);
    assert(!is_ws(line[0]));
    assert(crate::text::lead_ws(line, 0) == 0);
    assert(line.skip(0) =~= line);
    assert(!is_ws(line[n - 1]));
    assert(crate::text::trail_ws(line, n) == n);
    assert(line.take(n) =~= line);
    let c = content_of(line);
    assert(c == line);
    crate::text::lemma_char_index_from(c, '=', 0);
    assert(c[19] == '=');
    assert(forall|k: int| 0 <= k < 19 ==> c[k] != '=');
    assert(char_index(c, '=') == 19);
    let key = c.take(19);
    crate::text::lemma_lead_ws_bounds(key, 0);
    crate::text::lemma_trail_ws_bounds(key, 19);
    assert(!is_ws(key[0]));
    assert(crate::text::lead_ws(key, 0) == 0);
    assert(key.skip(0) =~= key);
    assert(is_ws(key[18]));
    assert(!is_ws(key[17]));
    assert(crate::text::trail_ws(key, 19) == 18);
    assert(trim(key) =~= "git_pipeline_check"@);
    let value = c.skip(20);
    crate::text::lemma_lead_ws_bounds(value, 0);
    crate::text::lemma_trail_ws_bounds(value.skip(1), value.len() - 1);
    assert(is_ws(value[0]));
    assert(!is_ws(value[1]));
    assert(crate::text::lead_ws(value, 0) == 1);
    let v1 = value.skip(1);
    assert(v1 =~= bool_text(b));
    assert(!is_ws(v1[v1.len() - 1]));
    assert(crate::text::trail_ws(v1, v1.len() as int) == v1.len());
    assert(v1.take(v1.len() as int) =~= v1);
    assert(trim(value) =~= bool_text(b));
    assert(lower_seq("true"@) =~= "true"@);
    assert(lower_seq("false"@) =~= "false"@);
    if !b {
        assert(lower_seq("false"@) != lower_seq("true"@)) by {
            assert(lower_seq("false"@).len() != lower_seq("true"@).len());
        }
    }
}

/// Settings written by `render_settings` read back as the same settings.
pub proof fn law_render_then_parse(s: Settings)
    ensures
        parse_settings_spec(render_spec(settings_lines(s))) == Ok::<bool, (nat, Option<Seq<char>>)>(
            s.git_pipeline_check,
        ),
{
    reveal_strlit("# prm settings");
    reveal_strlit(
        "# When false, skip CI pipeline checks and hide pipeline badges in the Projects pane.",
    );
    reveal_strlit("git_pipeline_check = ");
    reveal_strlit("true");
    reveal_strlit("false");
    let ls = settings_lines(s);
    assert forall|i: int, j: int| 0 <= i < ls.len() && 0 <= j < ls[i].len() implies #[trigger] ls[i][j]
        != '\n' by {
        if i == 2 {
            if j < 21 {
                assert(ls[i][j] == ("git_pipeline_check = "@)[j]);
            } else {
                assert(ls[i][j] == bool_text(s.git_pipeline_check)[j - 21]);
            }
        }
    }
    assert forall|i: int| 0 <= i < ls.len() && ls[i].len() > 0 implies (#[trigger] ls[i]).last()
        != '\r' by {
        if i == 2 {
            assert(ls[i].last() == bool_text(s.git_pipeline_check).last());
        }
    }
    crate::fs::markdown::law_render_then_lines(ls);
    let content = render_spec(ls);
    assert(lines_spec(content) == ls);
    lemma_comment_line_is_skipped(ls[0], 1, true);
    lemma_comment_line_is_skipped(ls[1], 2, true);
    lemma_value_line(s.git_pipeline_check, 3, true);
    assert(settings_lines_spec(ls, 0) == Ok::<bool, (nat, Option<Seq<char>>)>(true));
    assert(settings_lines_spec(ls, 1) == Ok::<bool, (nat, Option<Seq<char>>)>(true));
    assert(settings_lines_spec(ls, 2) == Ok::<bool, (nat, Option<Seq<char>>)>(true));
    assert(settings_lines_spec(ls, 3) == Ok::<bool, (nat, Option<Seq<char>>)>(s.git_pipeline_check));
}


proof fn lemma_settings_prefix(ls: Seq<Seq<char>>, l: Seq<char>, k: int)
    requires
        0 <= k <= ls.len(),
    ensures
        settings_lines_spec(ls.push(l), k) == settings_lines_spec(ls, k),
    decreases k,
{
    if k > 0 {
        lemma_settings_prefix(ls, l, k - 1);
        assert(ls.push(l)[k - 1] == ls[k - 1]);
    }
}

/// Reading settings line by line: with no lines the pipeline check is on; a
/// comment line changes nothing; a `git_pipeline_check = true|false` line
/// sets the flag, so the last such line wins; and after the first error
/// nothing that follows changes the outcome.
pub proof fn law_settings_lines(ls: Seq<Seq<char>>, l: Seq<char>, b: bool)
    ensures
        settings_lines_spec(ls, 0) == Ok::<bool, (nat, Option<Seq<char>>)>(true),
        l.len() > 0 && l[0] == '#' ==> settings_lines_spec(ls.push(l), ls.len() + 1int)
            == settings_lines_spec(ls, ls.len() as int),
        settings_lines_spec(ls, ls.len() as int) is Ok && l == "git_pipeline_check = "@ + bool_text(
            b,
        ) ==> settings_lines_spec(ls.push(l), ls.len() + 1int) == Ok::<
            bool,
            (nat, Option<Seq<char>>),
        >(b),
        settings_lines_spec(ls, ls.len() as int) is Err ==> settings_lines_spec(
            ls.push(l),
            ls.len() + 1int,
        ) == settings_lines_spec(ls, ls.len() as int),
{
    let n = ls.len() as int;
    lemma_settings_prefix(ls, l, n);
    assert(ls.push(l)[n] == l);
    if let Ok(flag) = settings_lines_spec(ls, n) {
        if l.len() > 0 && l[0] == '#' {
            lemma_comment_line_is_skipped(l, (n + 1) as nat, flag);
        }
        lemma_value_line(b, (n + 1) as nat, flag);
    }
}

} // verus!
