//! Display widths of text in terminal columns, as the unicode-width crate
//! measures them, and the truncations that fit text into a width.
use vstd::prelude::*;

use crate::app::input::{clamp_cursor, cursor_pos, lemma_pos_from_bounds};
use crate::text::{chars_of, owned, push_char, push_chars, push_str, string_from, sub_chars};

verus! {

/// What `UnicodeWidthChar::width` gives for a character.
pub uninterp spec fn char_width_of(c: char) -> Option<usize>;

/// What `UnicodeWidthStr::width` gives for a string.
pub uninterp spec fn str_width_of(s: Seq<char>) -> usize;

pub open spec fn printable_ascii(c: char) -> bool {
    0x20 <= (c as u32) && (c as u32) < 0x7F
}

/// `UnicodeWidthChar::width` (unicode-width): the columns a character takes,
/// `None` for a control character. Claimed beyond the name, as the crate's
/// `single_char_width` spells out: printable ASCII takes one column; below
/// U+0020 and from U+007F to U+009F is `None`; from U+00A0 on there is a
/// width of at most three. The widths from the crate's tables are not stated.
#[verifier::external_body]
pub(crate) fn char_width(c: char) -> (r: Option<usize>)
    ensures
        r == char_width_of(c),
        printable_ascii(c) ==> r == Some(1usize),
        (c as u32) < 0x20 || (0x7F <= (c as u32) && (c as u32) < 0xA0) ==> r is None,
        (c as u32) >= 0xA0 ==> r is Some && r->0 <= 3,
{
    unicode_width::UnicodeWidthChar::width(c)
}

/// `UnicodeWidthStr::width` (unicode-width): the columns a string takes.
/// Claimed beyond the name: a string of printable ASCII takes one column per
/// character. How emoji sequences, ligatures and line breaks count is not
/// stated.
#[verifier::external_body]
pub(crate) fn str_width(s: &str) -> (r: usize)
    ensures
        r == str_width_of(s@),
        (forall|i: int| 0 <= i < s@.len() ==> printable_ascii(#[trigger] s@[i])) ==> r == s@.len(),
{
    unicode_width::UnicodeWidthStr::width(s)
}

pub open spec fn w_or_zero(o: Option<usize>) -> int {
    match o {
        Some(w) => w as int,
        None => 0,
    }
}

pub open spec fn widths_of(s: Seq<char>) -> Seq<Option<usize>> {
    s.map_values(|c: char| char_width_of(c))
}

/// How many characters, from `k` on, fit after `sum` columns within `limit`:
/// the first that does not fit ends the run.
pub open spec fn fit_from(ws: Seq<Option<usize>>, limit: int, k: int, sum: int) -> int
    decreases ws.len() - k,
{
    if k < 0 || k >= ws.len() {
        ws.len() as int
    } else if sum + w_or_zero(ws[k]) > limit {
        k
    } else {
        fit_from(ws, limit, k + 1, sum + w_or_zero(ws[k]))
    }
}

pub open spec fn dots(n: nat) -> Seq<char> {
    Seq::new(n, |i: int| '.')
}

/// Text fitted into `max` columns: kept whole when it fits; else as many
/// characters as fit before a `...`; only dots where even that is too wide.
pub open spec fn truncate_spec(text: Seq<char>, text_width: int, ws: Seq<Option<usize>>, max: int) -> Seq<
    char,
> {
    if text_width <= max {
        text
    } else if max <= 3 {
        dots(max as nat)
    } else {
        text.take(fit_from(ws, max - 3, 0, 0)) + "..."@
    }
}

proof fn lemma_fit_from_bounds(ws: Seq<Option<usize>>, limit: int, k: int, sum: int)
    requires
        0 <= k <= ws.len(),
    ensures
        k <= fit_from(ws, limit, k, sum) <= ws.len(),
    decreases ws.len() - k,
{
    if k < ws.len() && sum + w_or_zero(ws[k]) <= limit {
        lemma_fit_from_bounds(ws, limit, k + 1, sum + w_or_zero(ws[k]));
    }
}

/// Where a run of `ws` from index `from`, after `start` columns, stops
/// fitting within `limit`.
fn fit_index(ws: &[Option<usize>], limit: usize, from: usize, start: usize) -> (r: usize)
    requires
        from <= ws@.len(),
    ensures
        r == fit_from(ws@, limit as int, from as int, start as int),
        from <= r <= ws@.len(),
{
    proof {
        lemma_fit_from_bounds(ws@, limit as int, from as int, start as int);
    }
    if start > limit {
        return from;
    }
    let mut k: usize = from;
    let mut used: usize = start;
    let mut stop = false;
    while k < ws.len() && !stop
        invariant
            from <= k <= ws@.len(),
            used <= limit,
            !stop ==> fit_from(ws@, limit as int, from as int, start as int) == fit_from(
                ws@,
                limit as int,
                k as int,
                used as int,
            ),
            stop ==> fit_from(ws@, limit as int, from as int, start as int) == k,
        decreases 2 * (ws@.len() - k) + if stop {
            0int
        } else {
            1int
        },
    {
        let w = match ws[k] {
            Some(w) => w,
            None => 0,
        };
        if w > limit - used {
            stop = true;
        } else {
            used = used + w;
            k = k + 1;
        }
    }
    k
}

fn char_widths(cs: &[char]) -> (r: Vec<Option<usize>>)
    ensures
        r@ == widths_of(cs@),
{
    let mut v: Vec<Option<usize>> = Vec::new();
    let mut i: usize = 0;
    while i < cs.len()
        invariant
            i <= cs@.len(),
            v@ == widths_of(cs@.take(i as int)),
        decreases cs@.len() - i,
    {
        v.push(char_width(cs[i]));
        proof {
            assert(widths_of(cs@.take(i + 1)) =~= widths_of(cs@.take(i as int)).push(
                char_width_of(cs@[i as int]),
            ));
        }
        i = i + 1;
    }
    proof {
        assert(cs@.take(i as int) =~= cs@);
    }
    v
}

/// `text` fitted into `max_width` columns, given its width and the width of
/// each of its characters.
pub fn truncate_with_widths(
    text: &str,
    text_width: usize,
    char_widths: &[Option<usize>],
    max_width: usize,
) -> (r: String)
    requires
        char_widths@.len() == text@.len(),
    ensures
        r@ == truncate_spec(text@, text_width as int, char_widths@, max_width as int),
{
    if text_width <= max_width {
        return owned(text);
    }
    if max_width <= 3 {
        let mut s = String::new();
        let mut i: usize = 0;
        while i < max_width
            invariant
                i <= max_width,
                s@ == dots(i as nat),
            decreases max_width - i,
        {
            push_char(&mut s, '.');
            proof {
                assert(s@ =~= dots((i + 1) as nat));
            }
            i = i + 1;
        }
        return s;
    }
    let n = fit_index(char_widths, max_width - 3, 0, 0);
    let cs = chars_of(text);
    let kept = sub_chars(cs.as_slice(), 0, n);
    let mut s = string_from(kept.as_slice());
    push_str(&mut s, "...");
    proof {
        assert(kept@ =~= text@.take(n as int));
    }
    s
}

/// A todo title fitted into `max_width` columns with a trailing `...`.
pub fn truncate_with_ellipsis(text: &str, max_width: usize) -> (r: String)
    ensures
        r@ == truncate_spec(text@, str_width_of(text@) as int, widths_of(text@), max_width as int),
{
    let w = str_width(text);
    let cs = chars_of(text);
    let ws = char_widths(cs.as_slice());
    truncate_with_widths(text, w, ws.as_slice(), max_width)
}


/// Columns taken by `ws[a..b]`.
pub open spec fn sum_widths(ws: Seq<Option<usize>>, a: int, b: int) -> int
    decreases b - a,
{
    if a >= b {
        0
    } else {
        w_or_zero(ws[a]) + sum_widths(ws, a + 1, b)
    }
}

proof fn lemma_fit_from_fits(ws: Seq<Option<usize>>, limit: int, k: int, sum: int)
    requires
        0 <= k <= ws.len(),
        sum <= limit,
    ensures
        sum + sum_widths(ws, k, fit_from(ws, limit, k, sum)) <= limit,
        fit_from(ws, limit, k, sum) < ws.len() ==> sum + sum_widths(
            ws,
            k,
            fit_from(ws, limit, k, sum) + 1,
        ) > limit,
    decreases ws.len() - k,
{
    lemma_fit_from_bounds(ws, limit, k, sum);
    let r = fit_from(ws, limit, k, sum);
    if k < ws.len() {
        let w = w_or_zero(ws[k]);
        if sum + w > limit {
            assert(sum_widths(ws, k + 1, k + 1) == 0);
        } else {
            lemma_fit_from_fits(ws, limit, k + 1, sum + w);
            lemma_fit_from_bounds(ws, limit, k + 1, sum + w);
            assert(sum_widths(ws, k, r) == w + sum_widths(ws, k + 1, r));
            if r < ws.len() {
                assert(sum_widths(ws, k, r + 1) == w + sum_widths(ws, k + 1, r + 1));
            }
        }
    }
}

/// A shortened text takes at most the width it was fitted into: the kept
/// characters take at most `max - 3` columns before the `...`, and they are
/// the longest start of the text that does.
pub proof fn law_truncation_fits(text: Seq<char>, text_width: int, ws: Seq<Option<usize>>, max: int)
    requires
        ws.len() == text.len(),
        text_width > max,
        max > 3,
    ensures
        ({
            let r = truncate_spec(text, text_width, ws, max);
            let n = r.len() - 3;
            &&& 0 <= n <= text.len()
            &&& r == text.take(n) + "..."@
            &&& sum_widths(ws, 0, n) + 3 <= max
            &&& n < text.len() ==> sum_widths(ws, 0, n + 1) + 3 > max
        }),
{
    reveal_strlit("...");
    lemma_fit_from_bounds(ws, max - 3, 0, 0);
    lemma_fit_from_fits(ws, max - 3, 0, 0);
}

/// How many characters before index `j`, counted backwards, fit after `sum`
/// columns within `limit`.
pub open spec fn fit_back(ws: Seq<Option<usize>>, limit: int, j: int, sum: int) -> int
    decreases j,
{
    if j <= 0 || j > ws.len() {
        0
    } else if sum + w_or_zero(ws[j - 1]) > limit {
        0
    } else {
        1 + fit_back(ws, limit, j - 1, sum + w_or_zero(ws[j - 1]))
    }
}

/// A text field drawn into `max` columns, with the cursor kept in view: the
/// text before the cursor is cut from the left, marked with `<` when
/// something was cut, and the text after the cursor fills what is left.
/// Returns the shown text and the column of the cursor in it.
pub open spec fn input_view_spec(v: Seq<char>, cursor: usize, max: int) -> (Seq<char>, int) {
    if max == 0 {
        (Seq::empty(), 0)
    } else {
        let k = cursor_pos(v, cursor as nat);
        let ws = widths_of(v);
        if str_width_of(v) <= max {
            (v, str_width_of(v.take(k)) as int)
        } else {
            let nb = fit_back(ws, max - 1, k, 0);
            let bw = sum_widths(ws, k - nb, k);
            let marker = if str_width_of(v.take(k)) > bw {
                "<"@
            } else {
                Seq::empty()
            };
            let shown = marker + v.subrange(k - nb, k);
            let cw = str_width_of(shown);
            (shown + v.subrange(k, fit_from(ws, max, k, cw as int)), cw as int)
        }
    }
}

proof fn lemma_fit_back_bounds(ws: Seq<Option<usize>>, limit: int, j: int, sum: int)
    requires
        0 <= j <= ws.len(),
    ensures
        0 <= fit_back(ws, limit, j, sum) <= j,
    decreases j,
{
    if j > 0 && sum + w_or_zero(ws[j - 1]) <= limit {
        lemma_fit_back_bounds(ws, limit, j - 1, sum + w_or_zero(ws[j - 1]));
    }
}

/// The visible part of a text field `max_width` columns wide, and where its
/// cursor is drawn.
pub fn input_view(value: &str, cursor: usize, max_width: usize) -> (r: (String, usize))
    ensures
        (r.0@, r.1 as int) == input_view_spec(value@, cursor, max_width as int),
{
    if max_width == 0 {
        return (String::new(), 0);
    }
    let cs = chars_of(value);
    let k = crate::app::input::cursor_index(value, cursor);
    let total = str_width(value);
    let before = string_from(sub_chars(cs.as_slice(), 0, k).as_slice());
    proof {
        assert(before@ =~= value@.take(k as int));
    }
    let before_total = str_width(before.as_str());
    if total <= max_width {
        return (owned(value), before_total);
    }
    let ws = char_widths(cs.as_slice());
    let limit = max_width - 1;
    let mut nb: usize = 0;
    let mut bw: usize = 0;
    let mut stop = false;
    proof {
        lemma_fit_back_bounds(ws@, limit as int, k as int, 0);
    }
    while nb < k && !stop
        invariant
            k <= ws@.len(),
            ws@ == widths_of(value@),
            nb <= k,
            bw <= limit,
            bw == sum_widths(ws@, k - nb, k as int),
            !stop ==> fit_back(ws@, limit as int, k as int, 0) == nb + fit_back(
                ws@,
                limit as int,
                k - nb,
                bw as int,
            ),
            stop ==> fit_back(ws@, limit as int, k as int, 0) == nb,
        decreases 2 * (k - nb) + if stop {
            0int
        } else {
            1int
        },
    {
        let w = match ws[k - nb - 1] {
            Some(w) => w,
            None => 0,
        };
        if w > limit - bw {
            stop = true;
        } else {
            bw = bw + w;
            nb = nb + 1;
        }
    }
    let mut shown = if before_total > bw {
        owned("<")
    } else {
        String::new()
    };
    let kept = sub_chars(cs.as_slice(), k - nb, k);
    push_chars(&mut shown, kept.as_slice());
    let cw = str_width(shown.as_str());
    proof {
        lemma_fit_from_bounds(ws@, max_width as int, k as int, cw as int);
    }
    let end = fit_index(ws.as_slice(), max_width, k, cw);
    let rest = sub_chars(cs.as_slice(), k, end);
    push_chars(&mut shown, rest.as_slice());
    (shown, cw)
}


/// What marks the selected row of a list.
pub const TODO_HIGHLIGHT_SYMBOL: &'static str = "▌ ";

pub open spec fn check_spec(done: bool) -> Seq<char> {
    if done {
        "[x] "@
    } else {
        "[ ] "@
    }
}

pub open spec fn sat_sub_int(a: int, b: int) -> int {
    if a < b {
        0
    } else {
        a - b
    }
}

/// The columns left for a todo's title in a list `list_width` columns wide.
pub open spec fn title_width_spec(list_width: int, done: bool) -> int {
    sat_sub_int(
        sat_sub_int(list_width, str_width_of(TODO_HIGHLIGHT_SYMBOL@) as int),
        str_width_of(check_spec(done)) as int,
    )
}

/// A row of the todos pane: the check box and the title, fitted into the
/// columns the list leaves after its highlight mark.
pub fn todo_row(done: bool, title: &str, list_width: usize) -> (r: String)
    ensures
        r@ == check_spec(done) + truncate_spec(
            title@,
            str_width_of(title@) as int,
            widths_of(title@),
            title_width_spec(list_width as int, done),
        ),
{
    let check = crate::ui::view::todo_check(done);
    let width = list_width.saturating_sub(str_width(TODO_HIGHLIGHT_SYMBOL)).saturating_sub(
        str_width(check),
    );
    let t = truncate_with_ellipsis(title, width);
    let mut s = owned(check);
    push_str(&mut s, t.as_str());
    s
}

} // verus!
