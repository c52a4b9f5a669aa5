//! How external tools (lazygit, tmux) are launched for a project, and what the
//! status line says afterwards. The processes themselves are started by the caller.
use vstd::prelude::*;
use vstd::utf8::{encode_scalar, encode_utf8};

use crate::numfmt::{i64_chars, signed_decimal};
use crate::text::{chars_of, push_chars, push_str, string_from, trim, trim_chars};

verus! {

#[derive(Debug, Clone, Copy, PartialEq, Eq, Structural)]
pub enum LazyGitLaunchStrategy {
    TryTmuxPopupFirst,
    FullscreenOnly,
}

#[derive(Debug, Clone, PartialEq, Eq)]
pub enum LazyGitLaunchOutcome {
    PopupSuccess,
    FullscreenSuccess { popup_failure: Option<String> },
    FullscreenNonZero { popup_failure: Option<String>, exit_code: Option<i32> },
}

/// A `TMUX` value names a session when it is set and not blank.
pub open spec fn in_tmux(tmux_env: Option<Seq<char>>) -> bool {
    match tmux_env {
        Some(v) => trim(v).len() > 0,
        None => false,
    }
}

pub fn has_tmux_session(tmux_env: Option<&str>) -> (r: bool)
    ensures
        r == in_tmux(
            match tmux_env {
                Some(v) => Some(v@),
                None => None,
            },
        ),
{
    match tmux_env {
        Some(v) => {
            let vc = chars_of(v);
            trim_chars(vc.as_slice()).len() > 0
        },
        None => false,
    }
}

pub fn lazygit_launch_strategy(tmux_env: Option<&str>) -> (r: LazyGitLaunchStrategy)
    ensures
        r == (if in_tmux(
            match tmux_env {
                Some(v) => Some(v@),
                None => None,
            },
        ) {
            LazyGitLaunchStrategy::TryTmuxPopupFirst
        } else {
            LazyGitLaunchStrategy::FullscreenOnly
        }),
{
    if has_tmux_session(tmux_env) {
        LazyGitLaunchStrategy::TryTmuxPopupFirst
    } else {
        LazyGitLaunchStrategy::FullscreenOnly
    }
}

/// A popup that did not succeed is followed by a fullscreen run.
pub fn should_fallback_to_fullscreen(popup_succeeded: bool) -> (r: bool)
    ensures
        r == !popup_succeeded,
{
    !popup_succeeded
}

/// Length in bytes of the UTF-8 encoding.
pub open spec fn utf8_len(s: Seq<char>) -> nat {
    encode_utf8(s).len()
}

pub proof fn lemma_encode_utf8_append(a: Seq<char>, b: Seq<char>)
    ensures
        encode_utf8(a + b) == encode_utf8(a) + encode_utf8(b),
    decreases a.len(),
{
    if a.len() == 0 {
        assert(a + b =~= b);
        assert(encode_utf8(a) =~= Seq::<u8>::empty());
        assert(encode_utf8(a) + encode_utf8(b) =~= encode_utf8(b));
    } else {
        assert((a + b).drop_first() =~= a.drop_first() + b);
        assert((a + b)[0] == a[0]);
        lemma_encode_utf8_append(a.drop_first(), b);
        assert(encode_utf8(a + b) =~= encode_utf8(a) + encode_utf8(b));
    }
}

proof fn lemma_encode_one(c: char)
    ensures
        encode_utf8(seq![c]) == encode_scalar(c as u32),
{
    assert(seq![c].drop_first() =~= Seq::<char>::empty());
    assert(encode_utf8(seq![c].drop_first()) =~= Seq::<u8>::empty());
    assert(encode_utf8(seq![c]) =~= encode_scalar(c as u32));
}

/// Bytes that `c` takes in UTF-8.
pub fn char_utf8_len(c: char) -> (n: usize)
    ensures
        n == encode_scalar(c as u32).len(),
        1 <= n <= 4,
{
    proof {
        vstd::utf8::char_is_scalar(c);
    }
    let u = c as u32;
    if u <= 0x7F {
        1
    } else if u <= 0x7FF {
        2
    } else if u <= 0xFFFF {
        3
    } else {
        4
    }
}

/// `String::truncate` to `max` bytes is allowed: either the text is short
/// enough or byte `max` starts a character.
pub open spec fn truncatable(s: Seq<char>, max: nat) -> bool {
    utf8_len(s) <= max || exists|k: int| 0 <= k <= s.len() && utf8_len(s.take(k)) == max
}

/// The longest prefix of at most `max` bytes, as `String::truncate(max)` leaves it.
pub open spec fn truncate_bytes(s: Seq<char>, max: nat) -> Seq<char> {
    if utf8_len(s) <= max {
        s
    } else {
        s.take(choose|k: int| 0 <= k <= s.len() && utf8_len(s.take(k)) == max)
    }
}

proof fn lemma_utf8_len_take_mono(s: Seq<char>, a: int, b: int)
    requires
        0 <= a < b <= s.len(),
    ensures
        utf8_len(s.take(a)) < utf8_len(s.take(b)),
    decreases b - a,
{
    lemma_utf8_len_take_step(s, b - 1);
    if a < b - 1 {
        lemma_utf8_len_take_mono(s, a, b - 1);
    }
}

proof fn lemma_utf8_len_take_step(s: Seq<char>, k: int)
    requires
        0 <= k < s.len(),
    ensures
        utf8_len(s.take(k + 1)) == utf8_len(s.take(k)) + encode_scalar(s[k] as u32).len(),
        encode_scalar(s[k] as u32).len() >= 1,
{
    assert(s.take(k + 1) =~= s.take(k) + seq![s[k]]);
    lemma_encode_utf8_append(s.take(k), seq![s[k]]);
    lemma_encode_one(s[k]);
    vstd::utf8::char_is_scalar(s[k]);
}

/// Cuts `s` to `max` bytes the way `String::truncate` does.
pub fn truncate_to_bytes(s: &[char], max: usize) -> (r: Vec<char>)
    requires
        truncatable(s@, max as nat),
    ensures
        r@ == truncate_bytes(s@, max as nat),
{
    let mut bytes: usize = 0;
    let mut k: usize = 0;
    while k < s.len() && char_utf8_len(s[k]) <= max - bytes
        invariant
            k <= s@.len(),
            bytes == utf8_len(s@.take(k as int)),
            bytes <= max,
        decreases s@.len() - k,
    {
        let w = char_utf8_len(s[k]);
        proof {
            lemma_utf8_len_take_step(s@, k as int);
        }
        bytes = bytes + w;
        k = k + 1;
    }
    if k == s.len() {
        assert(s@.take(k as int) =~= s@);
        return crate::text::sub_chars(s, 0, k);
    }
    let w = char_utf8_len(s[k]);
    proof {
        lemma_utf8_len_take_step(s@, k as int);
        assert(utf8_len(s@.take(k + 1)) > max);
        assert(s@.take(s@.len() as int) =~= s@);
        if k + 1 < s@.len() {
            lemma_utf8_len_take_mono(s@, k + 1, s@.len() as int);
        }
        assert(utf8_len(s@) > max);
        let j = choose|j: int| 0 <= j <= s@.len() && utf8_len(s@.take(j)) == max;
        if j < k {
            lemma_utf8_len_take_mono(s@, j, k as int);
        } else if j > k + 1 {
            lemma_utf8_len_take_mono(s@, k + 1, j);
        }
        assert(j == k);
    }
    crate::text::sub_chars(s, 0, k)
}

pub open spec fn window_name_spec(project_name: Seq<char>) -> Seq<char> {
    let name = if trim(project_name).len() == 0 {
        "prm-shell"@
    } else {
        "prm:"@ + trim(project_name)
    };
    truncate_bytes(name, 48)
}

/// The requirement of `tmux_window_name`: the untruncated name can be cut at 48 bytes.
pub open spec fn window_name_truncatable(project_name: Seq<char>) -> bool {
    truncatable(
        if trim(project_name).len() == 0 {
            "prm-shell"@
        } else {
            "prm:"@ + trim(project_name)
        },
        48,
    )
}

/// Whether `String::truncate(max)` accepts `s`: it is at most `max` bytes,
/// or byte `max` starts a character.
fn cuttable(s: &[char], max: usize) -> (r: bool)
    requires
        max <= 48,
    ensures
        r == truncatable(s@, max as nat),
{
    let mut bytes: usize = 0;
    let mut k: usize = 0;
    proof {
        assert(s@.take(0) =~= Seq::<char>::empty());
    }
    while k < s.len() && bytes < max
        invariant
            k <= s@.len(),
            max <= 48,
            bytes == utf8_len(s@.take(k as int)),
            bytes <= max + 4,
            forall|j: int| 0 <= j < k ==> #[trigger] utf8_len(s@.take(j)) < max,
        decreases s@.len() - k,
    {
        proof {
            lemma_utf8_len_take_step(s@, k as int);
        }
        bytes = bytes + char_utf8_len(s[k]);
        k = k + 1;
    }
    proof {
        assert(s@.take(s@.len() as int) =~= s@);
        if k == s@.len() {
            assert(utf8_len(s@) == bytes);
        }
        if bytes > max {
            assert forall|j: int| 0 <= j <= s@.len() implies utf8_len(#[trigger] s@.take(j)) != max by {
                if j > k {
                    lemma_utf8_len_take_mono(s@, k as int, j);
                }
            }
            if k < s@.len() {
                lemma_utf8_len_take_mono(s@, k as int, s@.len() as int);
            }
        }
    }
    bytes <= max
}

/// Whether `tmux_window_name` can be asked for this project name: the name
/// it builds is at most 48 bytes or can be cut at byte 48.
pub fn window_name_cuttable(project_name: &str) -> (r: bool)
    ensures
        r == window_name_truncatable(project_name@),
{
    let pc = chars_of(project_name);
    let t = trim_chars(pc.as_slice());
    let name = if t.len() == 0 {
        chars_of("prm-shell")
    } else {
        let mut v = chars_of("prm:");
        let ghost v0 = v@;
        let mut i: usize = 0;
        while i < t.len()
            invariant
                i <= t@.len(),
                v@ == v0 + t@.take(i as int),
            decreases t@.len() - i,
        {
            v.push(t[i]);
            i = i + 1;
        }
        assert(t@.take(t@.len() as int) =~= t@);
        v
    };
    cuttable(name.as_slice(), 48)
}

/// The tmux window name for a project: `prm:<name>` (or `prm-shell`), at most 48 bytes.
pub fn tmux_window_name(project_name: &str) -> (r: String)
    requires
        window_name_truncatable(project_name@),
    ensures
        r@ == window_name_spec(project_name@),
{
    let pc = chars_of(project_name);
    let t = trim_chars(pc.as_slice());
    let name = if t.len() == 0 {
        chars_of("prm-shell")
    } else {
        let mut v = chars_of("prm:");
        let ghost v0 = v@;
        let mut i: usize = 0;
        while i < t.len()
            invariant
                i <= t@.len(),
                v@ == v0 + t@.take(i as int),
            decreases t@.len() - i,
        {
            v.push(t[i]);
            i = i + 1;
        }
        assert(t@.take(t@.len() as int) =~= t@);
        v
    };
    let cut = truncate_to_bytes(name.as_slice(), 48);
    string_from(cut.as_slice())
}

/// The tmux window name before any cut: `prm:` and the trimmed project
/// name, or `prm-shell` for a blank name.
pub open spec fn window_base(project_name: Seq<char>) -> Seq<char> {
    if trim(project_name).len() == 0 {
        "prm-shell"@
    } else {
        "prm:"@ + trim(project_name)
    }
}

/// The tmux window name is the name before any cut, cut to at most 48
/// bytes at a character boundary: the whole of it whenever it fits.
pub proof fn law_window_name(project_name: Seq<char>)
    requires
        window_name_truncatable(project_name),
    ensures
        utf8_len(window_name_spec(project_name)) <= 48,
        exists|k: int|
            0 <= k <= window_base(project_name).len() && window_name_spec(project_name)
                == #[trigger] window_base(project_name).take(k),
        utf8_len(window_base(project_name)) <= 48 ==> window_name_spec(project_name)
            == window_base(project_name),
{
    let base = window_base(project_name);
    let r = window_name_spec(project_name);
    assert(r == truncate_bytes(base, 48));
    if utf8_len(base) <= 48 {
        assert(base.take(base.len() as int) =~= base);
        assert(r == base.take(base.len() as int));
    } else {
        assert(truncatable(base, 48));
        let k = choose|k: int| 0 <= k <= base.len() && utf8_len(base.take(k)) == 48;
        assert(r == base.take(k));
        assert(utf8_len(r) == 48);
    }
}

pub open spec fn exit_code_text(code: Option<i32>) -> Seq<char> {
    match code {
        Some(c) => signed_decimal(c as int),
        None => "unknown"@,
    }
}

pub fn format_exit_code(exit_code: Option<i32>) -> (r: String)
    ensures
        r@ == exit_code_text(exit_code),
{
    match exit_code {
        Some(c) => string_from(i64_chars(c as i64).as_slice()),
        None => crate::text::owned("unknown"),
    }
}

pub open spec fn lazygit_status_text(outcome: LazyGitLaunchOutcome) -> Seq<char> {
    match outcome {
        LazyGitLaunchOutcome::PopupSuccess => "Closed lazygit popup; git state refreshed"@,
        LazyGitLaunchOutcome::FullscreenSuccess { popup_failure: None } =>
            "Closed lazygit; git state refreshed"@,
        LazyGitLaunchOutcome::FullscreenSuccess { popup_failure: Some(err) } => "tmux popup failed ("@
            + err@ + "); ran lazygit fullscreen; git state refreshed"@,
        LazyGitLaunchOutcome::FullscreenNonZero { popup_failure: None, exit_code } =>
            "lazygit exited with status "@ + exit_code_text(exit_code) + "; git state refreshed"@,
        LazyGitLaunchOutcome::FullscreenNonZero { popup_failure: Some(err), exit_code } =>
            "tmux popup failed ("@ + err@ + "); lazygit exited with status "@ + exit_code_text(
            exit_code,
        ) + "; git state refreshed"@,
    }
}

/// The status line after lazygit returns.
pub fn format_lazygit_status(outcome: LazyGitLaunchOutcome) -> (r: String)
    ensures
        r@ == lazygit_status_text(outcome),
{
    match outcome {
        LazyGitLaunchOutcome::PopupSuccess => crate::text::owned(
            "Closed lazygit popup; git state refreshed",
        ),
        LazyGitLaunchOutcome::FullscreenSuccess { popup_failure: None } => crate::text::owned(
            "Closed lazygit; git state refreshed",
        ),
        LazyGitLaunchOutcome::FullscreenSuccess { popup_failure: Some(err) } => {
            let mut r = crate::text::owned("tmux popup failed (");
            push_str(&mut r, err.as_str());
            push_str(&mut r, "); ran lazygit fullscreen; git state refreshed");
            r
        },
        LazyGitLaunchOutcome::FullscreenNonZero { popup_failure: None, exit_code } => {
            let mut r = crate::text::owned("lazygit exited with status ");
            let code = format_exit_code(exit_code);
            push_str(&mut r, code.as_str());
            push_str(&mut r, "; git state refreshed");
            r
        },
        LazyGitLaunchOutcome::FullscreenNonZero { popup_failure: Some(err), exit_code } => {
            let mut r = crate::text::owned("tmux popup failed (");
            push_str(&mut r, err.as_str());
            push_str(&mut r, "); lazygit exited with status ");
            let code = format_exit_code(exit_code);
            push_str(&mut r, code.as_str());
            push_str(&mut r, "; git state refreshed");
            r
        },
    }
}

} // verus!
