//! Editing a text field at a cursor. The cursor is a byte offset into the
//! text, as `String` indexes it; it is first moved back to the nearest
//! character boundary at or before it.
use vstd::prelude::*;

use crate::launch::{char_utf8_len, lemma_encode_utf8_append, utf8_len};
use crate::text::{chars_of, string_from};

verus! {

/// Byte offset of the `k`-th character boundary.
pub open spec fn off(s: Seq<char>, k: int) -> nat {
    utf8_len(s.take(k))
}

pub open spec fn pos_from(s: Seq<char>, cursor: nat, k: int) -> int
    decreases s.len() - k,
{
    if 0 <= k < s.len() && off(s, k + 1) <= cursor {
        pos_from(s, cursor, k + 1)
    } else {
        k
    }
}

/// How many characters lie before the cursor once it is moved back to a boundary.
pub open spec fn cursor_pos(s: Seq<char>, cursor: nat) -> int {
    pos_from(s, cursor, 0)
}

/// The cursor moved back to the nearest character boundary (and into the text).
pub open spec fn clamp_spec(s: Seq<char>, cursor: nat) -> nat {
    off(s, cursor_pos(s, cursor))
}

pub proof fn lemma_off_step(s: Seq<char>, k: int)
    requires
        0 <= k < s.len(),
    ensures
        off(s, k + 1) == off(s, k) + vstd::utf8::encode_scalar(s[k] as u32).len(),
        off(s, k) < off(s, k + 1),
{
    assert(s.take(k + 1) =~= s.take(k) + seq![s[k]]);
    lemma_encode_utf8_append(s.take(k), seq![s[k]]);
    assert(seq![s[k]].drop_first() =~= Seq::<char>::empty());
    assert(vstd::utf8::encode_utf8(seq![s[k]].drop_first()) =~= Seq::<u8>::empty());
    assert(vstd::utf8::encode_utf8(seq![s[k]]) =~= vstd::utf8::encode_scalar(s[k] as u32));
    vstd::utf8::char_is_scalar(s[k]);
}

pub proof fn lemma_off_mono(s: Seq<char>, a: int, b: int)
    requires
        0 <= a <= b <= s.len(),
    ensures
        off(s, a) <= off(s, b),
    decreases b - a,
{
    if a < b {
        lemma_off_step(s, b - 1);
        lemma_off_mono(s, a, b - 1);
    }
}

pub proof fn lemma_pos_from_bounds(s: Seq<char>, cursor: nat, k: int)
    requires
        0 <= k <= s.len(),
    ensures
        k <= pos_from(s, cursor, k) <= s.len(),
    decreases s.len() - k,
{
    if k < s.len() && off(s, k + 1) <= cursor {
        lemma_pos_from_bounds(s, cursor, k + 1);
    }
}

proof fn lemma_pos_at_boundary(s: Seq<char>, j: int, k: int)
    requires
        0 <= k <= j <= s.len(),
    ensures
        pos_from(s, off(s, j), k) == j,
    decreases j - k,
{
    if k < j {
        lemma_off_mono(s, k + 1, j);
        lemma_pos_at_boundary(s, j, k + 1);
    } else if j < s.len() {
        lemma_off_step(s, j);
    }
}

/// A cursor on the `j`-th character boundary stands before `j` characters.
pub proof fn lemma_cursor_pos_of_boundary(s: Seq<char>, j: int)
    requires
        0 <= j <= s.len(),
    ensures
        cursor_pos(s, off(s, j)) == j,
{
    lemma_pos_at_boundary(s, j, 0);
}

/// The byte length of the text with one character inserted: at most four more.
pub proof fn lemma_insert_len(s: Seq<char>, k: int, ch: char)
    requires
        0 <= k <= s.len(),
    ensures
        utf8_len(insert_spec(s, k, ch)) <= utf8_len(s) + 4,
        s.len() + 1 == insert_spec(s, k, ch).len(),
{
    let a = s.take(k);
    let b = s.skip(k);
    assert(s =~= a + b);
    assert(insert_spec(s, k, ch) =~= a + (seq![ch] + b));
    lemma_encode_utf8_append(a, seq![ch] + b);
    lemma_encode_utf8_append(seq![ch], b);
    lemma_encode_utf8_append(a, b);
    assert(seq![ch].drop_first() =~= Seq::<char>::empty());
    assert(vstd::utf8::encode_utf8(seq![ch].drop_first()) =~= Seq::<u8>::empty());
    assert(vstd::utf8::encode_utf8(seq![ch]) =~= vstd::utf8::encode_scalar(ch as u32));
}

/// Byte length of the text.
pub fn byte_len(s: &str) -> (n: usize)
    ensures
        n == utf8_len(s@),
{
    let b = s.as_bytes();
    b.len()
}

/// Character position and byte offset of the cursor after clamping.
fn locate(s: &[char], cursor: usize) -> (r: (usize, usize))
    ensures
        r.0 == cursor_pos(s@, cursor as nat),
        r.1 == clamp_spec(s@, cursor as nat),
        r.1 <= cursor,
{
    let mut bytes: usize = 0;
    let mut k: usize = 0;
    proof {
        assert(s@.take(0) =~= Seq::<char>::empty());
    }
    while k < s.len() && char_utf8_len(s[k]) <= cursor - bytes
        invariant
            k <= s@.len(),
            bytes == off(s@, k as int),
            bytes <= cursor,
            cursor_pos(s@, cursor as nat) == pos_from(s@, cursor as nat, k as int),
        decreases s@.len() - k,
    {
        proof {
            lemma_off_step(s@, k as int);
        }
        bytes = bytes + char_utf8_len(s[k]);
        k = k + 1;
    }
    proof {
        if k < s@.len() {
            lemma_off_step(s@, k as int);
        }
    }
    (k, bytes)
}

/// How many characters lie before the cursor once it is moved back to a boundary.
pub fn cursor_index(value: &str, cursor: usize) -> (r: usize)
    ensures
        r == cursor_pos(value@, cursor as nat),
        r <= value@.len(),
{
    let cs = chars_of(value);
    proof {
        lemma_pos_from_bounds(cs@, cursor as nat, 0);
    }
    locate(cs.as_slice(), cursor).0
}

/// The cursor moved back to the nearest character boundary within the text.
pub fn clamp_cursor(value: &str, cursor: usize) -> (r: usize)
    ensures
        r == clamp_spec(value@, cursor as nat),
{
    let cs = chars_of(value);
    locate(cs.as_slice(), cursor).1
}

pub open spec fn insert_spec(s: Seq<char>, k: int, ch: char) -> Seq<char> {
    s.take(k) + seq![ch] + s.skip(k)
}

/// Inserts `ch` at the cursor and moves the cursor past it.
pub fn insert_at_cursor(value: &mut String, cursor: &mut usize, ch: char)
    ensures
        ({
            let k = cursor_pos(old(value)@, *old(cursor) as nat);
            &&& final(value)@ == insert_spec(old(value)@, k, ch)
            &&& *final(cursor) == off(final(value)@, k + 1)
        }),
{
    let cs = chars_of(value.as_str());
    let (k, at) = locate(cs.as_slice(), *cursor);
    let ghost s = cs@;
    proof {
        lemma_pos_from_bounds(s, *cursor as nat, 0);
    }
    let mut v: Vec<char> = Vec::new();
    let mut i: usize = 0;
    while i < k
        invariant
            i <= k <= s.len(),
            s == cs@,
            v@ == s.take(i as int),
        decreases k - i,
    {
        v.push(cs[i]);
        i = i + 1;
    }
    v.push(ch);
    let mut j: usize = k;
    while j < cs.len()
        invariant
            k <= j <= s.len(),
            s == cs@,
            v@ == s.take(k as int) + seq![ch] + s.subrange(k as int, j as int),
        decreases s.len() - j,
    {
        v.push(cs[j]);
        j = j + 1;
    }
    let ghost t = v@;
    assert(t =~= insert_spec(s, k as int, ch));
    let new_value = string_from(v.as_slice());
    let total = byte_len(new_value.as_str());
    proof {
        assert(t.take(k as int) =~= s.take(k as int));
        lemma_off_step(t, k as int);
        lemma_off_mono(t, k + 1, t.len() as int);
        assert(t.take(t.len() as int) =~= t);
    }
    let w = char_utf8_len(ch);
    *value = new_value;
    *cursor = at + w;
}

/// Removes the character before the cursor, moving the cursor back over it.
pub fn delete_before_cursor(value: &mut String, cursor: &mut usize)
    ensures
        ({
            let k = cursor_pos(old(value)@, *old(cursor) as nat);
            &&& k == 0 ==> final(value)@ == old(value)@ && *final(cursor) == 0
            &&& k > 0 ==> final(value)@ == old(value)@.remove(k - 1) && *final(cursor) == off(
                old(value)@,
                k - 1,
            )
        }),
{
    let cs = chars_of(value.as_str());
    let (k, at) = locate(cs.as_slice(), *cursor);
    let ghost s = cs@;
    proof {
        lemma_pos_from_bounds(s, *cursor as nat, 0);
    }
    if k == 0 {
        assert(s.take(0) =~= Seq::<char>::empty());
        *cursor = 0;
        return;
    }
    let mut v: Vec<char> = Vec::new();
    let mut bytes: usize = 0;
    let mut i: usize = 0;
    proof {
        assert(s.take(0) =~= Seq::<char>::empty());
    }
    while i < k - 1
        invariant
            i <= k - 1,
            k <= s.len(),
            s == cs@,
            v@ == s.take(i as int),
            bytes == off(s, i as int),
            at == off(s, k as int),
        decreases k - 1 - i,
    {
        proof {
            lemma_off_step(s, i as int);
            lemma_off_mono(s, i + 1, k as int);
        }
        bytes = bytes + char_utf8_len(cs[i]);
        v.push(cs[i]);
        i = i + 1;
    }
    let mut j: usize = k;
    while j < cs.len()
        invariant
            k <= j <= s.len(),
            s == cs@,
            v@ == s.take(k - 1) + s.subrange(k as int, j as int),
        decreases s.len() - j,
    {
        v.push(cs[j]);
        j = j + 1;
    }
    assert(v@ =~= s.remove(k - 1));
    *value = string_from(v.as_slice());
    *cursor = bytes;
}

/// Removes the character at the cursor, if any; the cursor is left as given.
pub fn delete_at_cursor(value: &mut String, cursor: usize)
    ensures
        ({
            let k = cursor_pos(old(value)@, cursor as nat);
            &&& k == old(value)@.len() ==> final(value)@ == old(value)@
            &&& k < old(value)@.len() ==> final(value)@ == old(value)@.remove(k)
        }),
{
    let cs = chars_of(value.as_str());
    let (k, _at) = locate(cs.as_slice(), cursor);
    let ghost s = cs@;
    proof {
        lemma_pos_from_bounds(s, cursor as nat, 0);
    }
    if k == cs.len() {
        return;
    }
    let mut v: Vec<char> = Vec::new();
    let mut i: usize = 0;
    while i < cs.len()
        invariant
            k < s.len(),
            i <= s.len(),
            s == cs@,
            v@ == (if i <= k {
                s.take(i as int)
            } else {
                s.take(k as int) + s.subrange(k + 1, i as int)
            }),
        decreases s.len() - i,
    {
        if i != k {
            v.push(cs[i]);
        }
        proof {
            if i < k {
                assert(s.take(i + 1) =~= s.take(i as int).push(s[i as int]));
            } else if i == k {
                assert(s.subrange(k + 1, i + 1) =~= Seq::<char>::empty());
                assert(s.take(k as int) + s.subrange(k + 1, i + 1) =~= s.take(k as int));
            } else {
                assert(s.subrange(k + 1, i + 1) =~= s.subrange(k + 1, i as int).push(s[i as int]));
            }
        }
        i = i + 1;
    }
    assert(v@ =~= s.remove(k as int));
    *value = string_from(v.as_slice());
}

/// The cursor one character to the left: the start stays the start.
pub open spec fn left_spec(s: Seq<char>, cursor: nat) -> nat {
    let k = cursor_pos(s, cursor);
    if k == 0 {
        0
    } else {
        off(s, k - 1)
    }
}

/// The cursor one character to the right: the end stays the end.
pub open spec fn right_spec(s: Seq<char>, cursor: nat) -> nat {
    let k = cursor_pos(s, cursor);
    if k == s.len() {
        off(s, k)
    } else {
        off(s, k + 1)
    }
}

/// From a cursor before the end of the text, one step right and one step
/// left bring it back; from a cursor after the start, one step left and one
/// step right do.
pub proof fn law_cursor_steps_undo(s: Seq<char>, j: int)
    requires
        0 <= j <= s.len(),
    ensures
        j < s.len() ==> left_spec(s, right_spec(s, off(s, j))) == off(s, j),
        j > 0 ==> right_spec(s, left_spec(s, off(s, j))) == off(s, j),
{
    lemma_cursor_pos_of_boundary(s, j);
    if j < s.len() {
        lemma_cursor_pos_of_boundary(s, j + 1);
    }
    if j > 0 {
        lemma_cursor_pos_of_boundary(s, j - 1);
    }
}

/// Moves the cursor one character left (after clamping).
pub fn move_cursor_left(value: &str, cursor: &mut usize)
    ensures
        *final(cursor) == left_spec(value@, *old(cursor) as nat),
{
    let cs = chars_of(value);
    let (k, at) = locate(cs.as_slice(), *cursor);
    proof {
        lemma_pos_from_bounds(cs@, *cursor as nat, 0);
        assert(cs@.take(0) =~= Seq::<char>::empty());
    }
    if k == 0 {
        *cursor = 0;
        return;
    }
    proof {
        lemma_off_step(cs@, k - 1);
    }
    let w = char_utf8_len(cs[k - 1]);
    *cursor = at - w;
}

/// Moves the cursor one character right (after clamping).
pub fn move_cursor_right(value: &str, cursor: &mut usize)
    ensures
        *final(cursor) == right_spec(value@, *old(cursor) as nat),
{
    let cs = chars_of(value);
    let (k, at) = locate(cs.as_slice(), *cursor);
    proof {
        lemma_pos_from_bounds(cs@, *cursor as nat, 0);
    }
    if k == cs.len() {
        *cursor = at;
        return;
    }
    let total = byte_len(value);
    proof {
        lemma_off_step(cs@, k as int);
        lemma_off_mono(cs@, k + 1, cs@.len() as int);
        assert(cs@.take(cs@.len() as int) =~= cs@);
    }
    let w = char_utf8_len(cs[k]);
    *cursor = at + w;
}

} // verus!
