//! Character-level text utilities: the building blocks that the parsers,
//! formatters and editors of this crate use on `Seq<char>` views of strings.
use vstd::prelude::*;

verus! {

/// Appends one character to a string (wraps `String::push`).
#[verifier::external_body]
pub(crate) fn push_char(s: &mut String, c: char)
    ensures
        final(s)@ == old(s)@.push(c),
{
    s.push(c)
}

/// Unicode `White_Space`, the property that `char::is_whitespace` and `str::trim` use.
pub open spec fn is_ws(c: char) -> bool {
    let u = c as u32;
    ||| 0x09 <= u <= 0x0D
    ||| u == 0x20
    ||| u == 0x85
    ||| u == 0xA0
    ||| u == 0x1680
    ||| 0x2000 <= u <= 0x200A
    ||| u == 0x2028
    ||| u == 0x2029
    ||| u == 0x202F
    ||| u == 0x205F
    ||| u == 0x3000
}

pub fn is_whitespace(c: char) -> (b: bool)
    ensures
        b == is_ws(c),
{
    let u = c as u32;
    (0x09 <= u && u <= 0x0D) || u == 0x20 || u == 0x85 || u == 0xA0 || u == 0x1680 || (0x2000
        <= u && u <= 0x200A) || u == 0x2028 || u == 0x2029 || u == 0x202F || u == 0x205F || u
        == 0x3000
}

/// Index of the first non-whitespace character at or after `i` (or `s.len()`).
pub open spec fn lead_ws(s: Seq<char>, i: int) -> int
    decreases s.len() - i,
{
    if 0 <= i < s.len() && is_ws(s[i]) {
        lead_ws(s, i + 1)
    } else {
        i
    }
}

/// End of `s.take(j)` once its trailing whitespace is removed.
pub open spec fn trail_ws(s: Seq<char>, j: int) -> int
    decreases j,
{
    if 0 < j <= s.len() && is_ws(s[j - 1]) {
        trail_ws(s, j - 1)
    } else {
        j
    }
}

pub open spec fn trim_start(s: Seq<char>) -> Seq<char> {
    s.skip(lead_ws(s, 0))
}

pub open spec fn trim_end(s: Seq<char>) -> Seq<char> {
    s.take(trail_ws(s, s.len() as int))
}

/// What `str::trim` gives.
pub open spec fn trim(s: Seq<char>) -> Seq<char> {
    trim_end(trim_start(s))
}

pub proof fn lemma_lead_ws_bounds(s: Seq<char>, i: int)
    requires
        0 <= i <= s.len(),
    ensures
        i <= lead_ws(s, i) <= s.len(),
        forall|k: int| i <= k < lead_ws(s, i) ==> is_ws(#[trigger] s[k]),
        lead_ws(s, i) < s.len() ==> !is_ws(s[lead_ws(s, i)]),
    decreases s.len() - i,
{
    if i < s.len() && is_ws(s[i]) {
        lemma_lead_ws_bounds(s, i + 1);
    }
}

pub proof fn lemma_trail_ws_bounds(s: Seq<char>, j: int)
    requires
        0 <= j <= s.len(),
    ensures
        0 <= trail_ws(s, j) <= j,
        forall|k: int| trail_ws(s, j) <= k < j ==> is_ws(#[trigger] s[k]),
        trail_ws(s, j) > 0 ==> !is_ws(s[trail_ws(s, j) - 1]),
    decreases j,
{
    if j > 0 && is_ws(s[j - 1]) {
        lemma_trail_ws_bounds(s, j - 1);
    }
}

/// A copy of `s[a..b]`.
pub fn sub_chars(s: &[char], a: usize, b: usize) -> (v: Vec<char>)
    requires
        a <= b <= s@.len(),
    ensures
        v@ == s@.subrange(a as int, b as int),
{
    let mut v: Vec<char> = Vec::new();
    let mut i = a;
    while i < b
        invariant
            a <= i <= b <= s@.len(),
            v@ == s@.subrange(a as int, i as int),
        decreases b - i,
    {
        v.push(s[i]);
        i = i + 1;
    }
    v
}

pub fn trim_start_chars(s: &[char]) -> (v: Vec<char>)
    ensures
        v@ == trim_start(s@),
{
    let mut i: usize = 0;
    while i < s.len() && is_whitespace(s[i])
        invariant
            0 <= i <= s@.len(),
            lead_ws(s@, 0) == lead_ws(s@, i as int),
        decreases s@.len() - i,
    {
        i = i + 1;
    }
    sub_chars(s, i, s.len())
}

pub fn trim_end_chars(s: &[char]) -> (v: Vec<char>)
    ensures
        v@ == trim_end(s@),
{
    let mut j: usize = s.len();
    while j > 0 && is_whitespace(s[j - 1])
        invariant
            0 <= j <= s@.len(),
            trail_ws(s@, s@.len() as int) == trail_ws(s@, j as int),
        decreases j,
    {
        j = j - 1;
    }
    sub_chars(s, 0, j)
}

pub fn trim_chars(s: &[char]) -> (v: Vec<char>)
    ensures
        v@ == trim(s@),
{
    let t = trim_start_chars(s);
    trim_end_chars(t.as_slice())
}

/// The characters of a string slice, in order.
pub fn chars_of(s: &str) -> (v: Vec<char>)
    ensures
        v@ == s@,
{
    let mut v: Vec<char> = Vec::new();
    for c in it: s.chars()
        invariant
            v@ == it.seq().take(it.index() as int),
    {
        v.push(c);
    }
    v
}

/// Builds a string from a slice of characters.
pub fn string_from(cs: &[char]) -> (s: String)
    ensures
        s@ == cs@,
{
    let mut s = String::new();
    let mut i: usize = 0;
    while i < cs.len()
        invariant
            i <= cs@.len(),
            s@ == cs@.take(i as int),
        decreases cs@.len() - i,
    {
        push_char(&mut s, cs[i]);
        i = i + 1;
    }
    s
}

/// Appends all of `cs` to `s`.
pub fn push_chars(s: &mut String, cs: &[char])
    ensures
        final(s)@ == old(s)@ + cs@,
{
    let mut i: usize = 0;
    while i < cs.len()
        invariant
            i <= cs@.len(),
            s@ == old(s)@ + cs@.take(i as int),
        decreases cs@.len() - i,
    {
        push_char(s, cs[i]);
        i = i + 1;
    }
}

/// Appends all of `t` to `s`.
pub fn push_str(s: &mut String, t: &str)
    ensures
        final(s)@ == old(s)@ + t@,
{
    let cs = chars_of(t);
    push_chars(s, cs.as_slice());
}

/// `s` and `t` side by side.
pub fn concat(s: &str, t: &str) -> (r: String)
    ensures
        r@ == s@ + t@,
{
    let mut r = String::new();
    push_str(&mut r, s);
    push_str(&mut r, t);
    r
}

pub fn chars_eq(a: &[char], b: &[char]) -> (r: bool)
    ensures
        r == (a@ == b@),
{
    if a.len() != b.len() {
        return false;
    }
    let mut i: usize = 0;
    while i < a.len()
        invariant
            a@.len() == b@.len(),
            i <= a@.len(),
            forall|k: int| 0 <= k < i ==> a@[k] == b@[k],
        decreases a@.len() - i,
    {
        if a[i] != b[i] {
            return false;
        }
        i = i + 1;
    }
    assert(a@ =~= b@);
    true
}

pub fn str_eq(a: &str, b: &str) -> (r: bool)
    ensures
        r == (a@ == b@),
{
    let x = chars_of(a);
    let y = chars_of(b);
    chars_eq(x.as_slice(), y.as_slice())
}

/// `p` is a prefix of `s`.
pub open spec fn has_prefix(s: Seq<char>, p: Seq<char>) -> bool {
    p.len() <= s.len() && s.take(p.len() as int) == p
}

/// `p` is a suffix of `s`.
pub open spec fn has_suffix(s: Seq<char>, p: Seq<char>) -> bool {
    p.len() <= s.len() && s.skip(s.len() - p.len()) == p
}

pub fn starts_with(s: &[char], p: &[char]) -> (r: bool)
    ensures
        r == has_prefix(s@, p@),
{
    if p.len() > s.len() {
        return false;
    }
    let mut i: usize = 0;
    while i < p.len()
        invariant
            p@.len() <= s@.len(),
            i <= p@.len(),
            forall|k: int| 0 <= k < i ==> s@[k] == p@[k],
        decreases p@.len() - i,
    {
        if s[i] != p[i] {
            assert(s@.take(p@.len() as int)[i as int] != p@[i as int]);
            return false;
        }
        i = i + 1;
    }
    assert(s@.take(p@.len() as int) =~= p@);
    true
}

pub fn ends_with(s: &[char], p: &[char]) -> (r: bool)
    ensures
        r == has_suffix(s@, p@),
{
    if p.len() > s.len() {
        return false;
    }
    let off = s.len() - p.len();
    let mut i: usize = 0;
    while i < p.len()
        invariant
            p@.len() <= s@.len(),
            off + p@.len() == s@.len(),
            s@.len() == s.len(),
            p@.len() == p.len(),
            i <= p@.len(),
            forall|k: int| 0 <= k < i ==> s@[off + k] == p@[k],
        decreases p@.len() - i,
    {
        if s[off + i] != p[i] {
            assert(s@.skip(off as int)[i as int] != p@[i as int]);
            return false;
        }
        i = i + 1;
    }
    assert(s@.skip(off as int) =~= p@);
    true
}

/// `needle` occurs in `s` starting at `i`.
pub open spec fn occurs_at(s: Seq<char>, needle: Seq<char>, i: int) -> bool {
    0 <= i && i + needle.len() <= s.len() && s.subrange(i, i + needle.len()) == needle
}

/// First index at or after `i` where `needle` occurs, or -1.
pub open spec fn find_from(s: Seq<char>, needle: Seq<char>, i: int) -> int
    decreases s.len() + 1 - i,
{
    if i < 0 || i + needle.len() > s.len() {
        -1
    } else if occurs_at(s, needle, i) {
        i
    } else {
        find_from(s, needle, i + 1)
    }
}

/// What `str::find` gives, as an index (or -1).
pub open spec fn find(s: Seq<char>, needle: Seq<char>) -> int {
    find_from(s, needle, 0)
}

pub open spec fn contains(s: Seq<char>, needle: Seq<char>) -> bool {
    find(s, needle) >= 0
}

pub proof fn lemma_find_from(s: Seq<char>, needle: Seq<char>, i: int)
    requires
        0 <= i,
    ensures
        find_from(s, needle, i) == -1 || (i <= find_from(s, needle, i) && occurs_at(
            s,
            needle,
            find_from(s, needle, i),
        )),
        forall|k: int|
            i <= k && (find_from(s, needle, i) == -1 || k < find_from(s, needle, i)) ==> !occurs_at(
                s,
                needle,
                k,
            ),
    decreases s.len() + 1 - i,
{
    if i + needle.len() > s.len() {
    } else if occurs_at(s, needle, i) {
    } else {
        lemma_find_from(s, needle, i + 1);
    }
}

/// Whether `needle` occurs at `i` (executable).
pub fn occurs_at_exec(s: &[char], needle: &[char], i: usize) -> (r: bool)
    ensures
        r == occurs_at(s@, needle@, i as int),
{
    if i > s.len() || needle.len() > s.len() - i {
        return false;
    }
    let mut k: usize = 0;
    while k < needle.len()
        invariant
            i + needle@.len() <= s@.len(),
            s@.len() == s.len(),
            needle@.len() == needle.len(),
            k <= needle@.len(),
            forall|m: int| 0 <= m < k ==> s@[i + m] == needle@[m],
        decreases needle@.len() - k,
    {
        if s[i + k] != needle[k] {
            assert(s@.subrange(i as int, i + needle@.len())[k as int] != needle@[k as int]);
            return false;
        }
        k = k + 1;
    }
    assert(s@.subrange(i as int, i + needle@.len()) =~= needle@);
    true
}

/// First index of `needle` in `s`, as `str::find` does.
pub fn find_chars(s: &[char], needle: &[char]) -> (r: Option<usize>)
    ensures
        match r {
            Some(k) => k as int == find(s@, needle@),
            None => find(s@, needle@) == -1,
        },
{
    if needle.len() > s.len() {
        return None;
    }
    let mut i: usize = 0;
    let last = s.len() - needle.len();
    let mut i: usize = 0;
    loop
        invariant
            last == s@.len() - needle@.len(),
            i <= last,
            find(s@, needle@) == find_from(s@, needle@, i as int),
        decreases last - i,
    {
        if occurs_at_exec(s, needle, i) {
            return Some(i);
        }
        if i == last {
            assert(find_from(s@, needle@, i + 1) == -1);
            return None;
        }
        i = i + 1;
    }
}

pub fn contains_chars(s: &[char], needle: &[char]) -> (r: bool)
    ensures
        r == contains(s@, needle@),
{
    match find_chars(s, needle) {
        Some(_) => true,
        None => false,
    }
}

/// First index at or after `i` holding `c`, or -1.
pub open spec fn char_index_from(s: Seq<char>, c: char, i: int) -> int
    decreases s.len() - i,
{
    if i < 0 || i >= s.len() {
        -1
    } else if s[i] == c {
        i
    } else {
        char_index_from(s, c, i + 1)
    }
}

pub open spec fn char_index(s: Seq<char>, c: char) -> int {
    char_index_from(s, c, 0)
}

pub proof fn lemma_char_index_from(s: Seq<char>, c: char, i: int)
    requires
        0 <= i,
    ensures
        char_index_from(s, c, i) == -1 || (i <= char_index_from(s, c, i) < s.len() && s[char_index_from(s, c, i)] == c),
        forall|k: int| i <= k < s.len() && (char_index_from(s, c, i) == -1 || k < char_index_from(s, c, i)) ==> s[k] != c,
    decreases s.len() - i,
{
    if i < s.len() && s[i] != c {
        lemma_char_index_from(s, c, i + 1);
    }
}

pub fn find_char(s: &[char], c: char) -> (r: Option<usize>)
    ensures
        match r {
            Some(k) => k as int == char_index(s@, c),
            None => char_index(s@, c) == -1,
        },
{
    let mut i: usize = 0;
    while i < s.len()
        invariant
            i <= s@.len(),
            char_index(s@, c) == char_index_from(s@, c, i as int),
        decreases s@.len() - i,
    {
        if s[i] == c {
            return Some(i);
        }
        i = i + 1;
    }
    None
}

/// Last index before `j` holding `c`, or -1.
pub open spec fn char_rindex_before(s: Seq<char>, c: char, j: int) -> int
    decreases j,
{
    if j <= 0 || j > s.len() {
        -1
    } else if s[j - 1] == c {
        j - 1
    } else {
        char_rindex_before(s, c, j - 1)
    }
}

pub open spec fn char_rindex(s: Seq<char>, c: char) -> int {
    char_rindex_before(s, c, s.len() as int)
}

pub fn rfind_char(s: &[char], c: char) -> (r: Option<usize>)
    ensures
        match r {
            Some(k) => k as int == char_rindex(s@, c),
            None => char_rindex(s@, c) == -1,
        },
{
    let mut j: usize = s.len();
    while j > 0
        invariant
            j <= s@.len(),
            char_rindex(s@, c) == char_rindex_before(s@, c, j as int),
        decreases j,
    {
        if s[j - 1] == c {
            return Some(j - 1);
        }
        j = j - 1;
    }
    None
}

/// ASCII lower-casing of one character (`char::to_ascii_lowercase`).
pub open spec fn lower(c: char) -> char {
    if 'A' <= c && c <= 'Z' {
        ((c as u32) + 32) as char
    } else {
        c
    }
}

pub fn to_ascii_lower(c: char) -> (r: char)
    ensures
        r == lower(c),
{
    if 'A' <= c && c <= 'Z' {
        let u = (c as u32) + 32;
        assert(0x61 <= u <= 0x7A);
        // in the ASCII range, so the value is a char
        char_from_ascii(u)
    } else {
        c
    }
}

/// The char of a lower-case ASCII letter code.
fn char_from_ascii(u: u32) -> (c: char)
    requires
        0x61 <= u <= 0x7A,
    ensures
        c == u as char,
{
    let b = u as u8;
    b as char
}

pub open spec fn lower_seq(s: Seq<char>) -> Seq<char> {
    Seq::new(s.len(), |i: int| lower(s[i]))
}

/// `str::to_ascii_lowercase`.
pub fn ascii_lowercase_chars(s: &[char]) -> (v: Vec<char>)
    ensures
        v@ == lower_seq(s@),
{
    let mut v: Vec<char> = Vec::new();
    let mut i: usize = 0;
    while i < s.len()
        invariant
            i <= s@.len(),
            v@ == lower_seq(s@).take(i as int),
        decreases s@.len() - i,
    {
        v.push(to_ascii_lower(s[i]));
        i = i + 1;
    }
    v
}

/// `str::eq_ignore_ascii_case`.
pub open spec fn eq_ignore_case(a: Seq<char>, b: Seq<char>) -> bool {
    lower_seq(a) == lower_seq(b)
}

pub fn eq_ignore_ascii_case(a: &[char], b: &[char]) -> (r: bool)
    ensures
        r == eq_ignore_case(a@, b@),
{
    let x = ascii_lowercase_chars(a);
    let y = ascii_lowercase_chars(b);
    chars_eq(x.as_slice(), y.as_slice())
}


/// First index at or after `start` holding `c` (executable).
pub fn find_char_from(s: &[char], c: char, start: usize) -> (r: Option<usize>)
    requires
        start <= s@.len(),
    ensures
        match r {
            Some(k) => k as int == char_index_from(s@, c, start as int),
            None => char_index_from(s@, c, start as int) == -1,
        },
{
    let mut i: usize = start;
    while i < s.len()
        invariant
            start <= i <= s@.len(),
            char_index_from(s@, c, start as int) == char_index_from(s@, c, i as int),
        decreases s@.len() - i,
    {
        if s[i] == c {
            return Some(i);
        }
        i = i + 1;
    }
    None
}

pub proof fn lemma_char_index_skip(s: Seq<char>, c: char, start: int, k: int)
    requires
        0 <= start <= s.len(),
        0 <= k,
    ensures
        char_index_from(s.skip(start), c, k) == (if char_index_from(s, c, start + k) == -1 {
            -1
        } else {
            char_index_from(s, c, start + k) - start
        }),
    decreases s.len() - start - k,
{
    if k < s.len() - start && s[start + k] != c {
        lemma_char_index_skip(s, c, start, k + 1);
    }
}

/// One line as `str::lines` yields it: a `"\r"` before the `"\n"` is dropped.
pub open spec fn strip_cr(t: Seq<char>) -> Seq<char> {
    if t.len() > 0 && t.last() == '\r' {
        t.drop_last()
    } else {
        t
    }
}

/// What `str::lines` gives.
pub open spec fn lines_spec(s: Seq<char>) -> Seq<Seq<char>>
    decreases s.len(),
{
    if s.len() == 0 {
        seq![]
    } else {
        let i = char_index(s, '\n');
        if i < 0 {
            seq![s]
        } else {
            proof {
                lemma_char_index_from(s, '\n', 0);
            }
            seq![strip_cr(s.take(i))] + lines_spec(s.skip(i + 1))
        }
    }
}

pub open spec fn views(v: Seq<Vec<char>>) -> Seq<Seq<char>> {
    v.map_values(|x: Vec<char>| x@)
}

pub fn strip_cr_chars(t: Vec<char>) -> (r: Vec<char>)
    ensures
        r@ == strip_cr(t@),
{
    let mut t = t;
    if t.len() > 0 && t[t.len() - 1] == '\r' {
        t.pop();
    }
    t
}

/// `str::lines` on characters.
pub fn split_lines(s: &[char]) -> (out: Vec<Vec<char>>)
    ensures
        views(out@) == lines_spec(s@),
{
    let mut out: Vec<Vec<char>> = Vec::new();
    let mut start: usize = 0;
    assert(s@.skip(0) =~= s@);
    assert(views(out@) + lines_spec(s@) =~= lines_spec(s@));
    while start < s.len()
        invariant
            start <= s@.len(),
            lines_spec(s@) == views(out@) + lines_spec(s@.skip(start as int)),
        decreases s@.len() - start,
    {
        let ghost rest = s@.skip(start as int);
        proof {
            lemma_char_index_skip(s@, '\n', start as int, 0);
            lemma_char_index_from(s@, '\n', start as int);
        }
        match find_char_from(s, '\n', start) {
            Some(j) => {
                let line = strip_cr_chars(sub_chars(s, start, j));
                proof {
                    assert(rest.take(j - start) =~= s@.subrange(start as int, j as int));
                    assert(rest.skip(j - start + 1) =~= s@.skip(j + 1));
                }
                let ghost old_out = out@;
                out.push(line);
                assert(views(out@) =~= views(old_out) + seq![line@]);
                start = j + 1;
            },
            None => {
                let line = sub_chars(s, start, s.len());
                assert(line@ =~= rest);
                let ghost old_out = out@;
                out.push(line);
                assert(views(out@) =~= views(old_out) + seq![line@]);
                assert(s@.skip(s@.len() as int) =~= Seq::<char>::empty());
                return out;
            },
        }
    }
    assert(s@.skip(start as int) =~= Seq::<char>::empty());
    assert(views(out@) + Seq::<Seq<char>>::empty() =~= views(out@));
    out
}


/// `s` equals the string literal `lit`.
pub fn eq_lit(s: &[char], lit: &str) -> (r: bool)
    ensures
        r == (s@ == lit@),
{
    let l = chars_of(lit);
    chars_eq(s, l.as_slice())
}

/// Index of the first character at or after `i` that is not `c` (or `s.len()`).
pub open spec fn lead_ch(s: Seq<char>, c: char, i: int) -> int
    decreases s.len() - i,
{
    if 0 <= i < s.len() && s[i] == c {
        lead_ch(s, c, i + 1)
    } else {
        i
    }
}

/// End of `s.take(j)` once trailing `c`s are removed.
pub open spec fn trail_ch(s: Seq<char>, c: char, j: int) -> int
    decreases j,
{
    if 0 < j <= s.len() && s[j - 1] == c {
        trail_ch(s, c, j - 1)
    } else {
        j
    }
}

/// What `str::trim_matches(c)` gives.
pub open spec fn trim_matches(s: Seq<char>, c: char) -> Seq<char> {
    let t = s.skip(lead_ch(s, c, 0));
    t.take(trail_ch(t, c, t.len() as int))
}

pub proof fn lemma_lead_ch_bounds(s: Seq<char>, c: char, i: int)
    requires
        0 <= i <= s.len(),
    ensures
        i <= lead_ch(s, c, i) <= s.len(),
    decreases s.len() - i,
{
    if i < s.len() && s[i] == c {
        lemma_lead_ch_bounds(s, c, i + 1);
    }
}

pub proof fn lemma_trail_ch_bounds(s: Seq<char>, c: char, j: int)
    requires
        0 <= j <= s.len(),
    ensures
        0 <= trail_ch(s, c, j) <= j,
    decreases j,
{
    if j > 0 && s[j - 1] == c {
        lemma_trail_ch_bounds(s, c, j - 1);
    }
}

pub fn trim_matches_chars(s: &[char], c: char) -> (v: Vec<char>)
    ensures
        v@ == trim_matches(s@, c),
{
    let mut i: usize = 0;
    while i < s.len() && s[i] == c
        invariant
            0 <= i <= s@.len(),
            lead_ch(s@, c, 0) == lead_ch(s@, c, i as int),
        decreases s@.len() - i,
    {
        i = i + 1;
    }
    let t = sub_chars(s, i, s.len());
    let mut j: usize = t.len();
    while j > 0 && t[j - 1] == c
        invariant
            0 <= j <= t@.len(),
            trail_ch(t@, c, t@.len() as int) == trail_ch(t@, c, j as int),
        decreases j,
    {
        j = j - 1;
    }
    sub_chars(t.as_slice(), 0, j)
}

/// What `str::split(c)` gives: always at least one piece.
pub open spec fn split_spec(s: Seq<char>, c: char) -> Seq<Seq<char>>
    decreases s.len(),
{
    let i = char_index(s, c);
    if i < 0 {
        seq![s]
    } else {
        proof {
            lemma_char_index_from(s, c, 0);
        }
        seq![s.take(i)] + split_spec(s.skip(i + 1), c)
    }
}

/// `str::split(c)` on characters.
pub fn split_chars(s: &[char], c: char) -> (out: Vec<Vec<char>>)
    ensures
        views(out@) == split_spec(s@, c),
{
    let mut out: Vec<Vec<char>> = Vec::new();
    let mut start: usize = 0;
    assert(s@.skip(0) =~= s@);
    assert(views(out@) + split_spec(s@, c) =~= split_spec(s@, c));
    loop
        invariant
            start <= s@.len(),
            split_spec(s@, c) == views(out@) + split_spec(s@.skip(start as int), c),
        decreases s@.len() - start,
    {
        let ghost rest = s@.skip(start as int);
        proof {
            lemma_char_index_skip(s@, c, start as int, 0);
            lemma_char_index_from(s@, c, start as int);
        }
        match find_char_from(s, c, start) {
            Some(j) => {
                let piece = sub_chars(s, start, j);
                assert(j < s.len());
                proof {
                    assert(rest.take(j - start) =~= s@.subrange(start as int, j as int));
                    assert(rest.skip(j - start + 1) =~= s@.skip(j + 1));
                }
                let ghost old_out = out@;
                out.push(piece);
                assert(views(out@) =~= views(old_out) + seq![piece@]);
                start = j + 1;
            },
            None => {
                let piece = sub_chars(s, start, s.len());
                assert(piece@ =~= rest);
                let ghost old_out = out@;
                out.push(piece);
                assert(views(out@) =~= views(old_out) + seq![piece@]);
                return out;
            },
        }
    }
}

pub open spec fn is_ascii_alnum(c: char) -> bool {
    ('0' <= c && c <= '9') || ('a' <= c && c <= 'z') || ('A' <= c && c <= 'Z')
}

pub open spec fn is_ascii_alpha(c: char) -> bool {
    ('a' <= c && c <= 'z') || ('A' <= c && c <= 'Z')
}


/// An owned copy of a string slice.
pub fn owned(s: &str) -> (r: String)
    ensures
        r@ == s@,
{
    string_from(chars_of(s).as_slice())
}

} // verus!
