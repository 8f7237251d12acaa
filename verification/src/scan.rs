//! Character scanning over text: whitespace trimming bounds, character
//! search and counting. Shared by the JSON pre-check and the datetime
//! shape classifier.

use vstd::prelude::*;

verus! {

/// The whitespace characters trimmed at the edges of an input: the
/// Unicode White_Space set, the same set `str::trim` removes — the
/// ASCII controls and space, NEL, NBSP, the Ogham space mark, the
/// typographic spaces, the line and paragraph separators, and the
/// ideographic space.
pub open spec fn is_space_char(c: char) -> bool {
    let u = c as u32;
    (9 <= u && u <= 13) || u == 32 || u == 0x85 || u == 0xA0 || u == 0x1680 || (0x2000 <= u && u
        <= 0x200A) || u == 0x2028 || u == 0x2029 || u == 0x202F || u == 0x205F || u == 0x3000
}

/// The executable test for `is_space_char`.
fn is_space(c: char) -> (r: bool)
    ensures
        r == is_space_char(c),
{
    let u = c as u32;
    (9 <= u && u <= 13) || u == 32 || u == 0x85 || u == 0xA0 || u == 0x1680 || (0x2000 <= u && u
        <= 0x200A) || u == 0x2028 || u == 0x2029 || u == 0x202F || u == 0x205F || u == 0x3000
}

/// The index of the first non-whitespace character at or after `i`, or
/// the length when none follows.
pub open spec fn spec_skip_ws(s: Seq<char>, i: int) -> int
    decreases s.len() - i,
{
    if i < 0 || i >= s.len() {
        s.len() as int
    } else if is_space_char(s[i]) {
        spec_skip_ws(s, i + 1)
    } else {
        i
    }
}

/// The exclusive end of the text once trailing whitespace before `i` is
/// dropped: 0 when everything before `i` is whitespace.
pub open spec fn spec_trim_end(s: Seq<char>, i: int) -> int
    decreases i,
{
    if i <= 0 || i > s.len() {
        0
    } else if is_space_char(s[i - 1]) {
        spec_trim_end(s, i - 1)
    } else {
        i
    }
}

/// The trimmed text is empty: the whole input is whitespace.
pub open spec fn spec_is_blank(s: Seq<char>) -> bool {
    spec_skip_ws(s, 0) == s.len()
}

/// The index of the first non-whitespace character, or the length when
/// the input is all whitespace.
pub fn first_mark(s: &str) -> (r: usize)
    ensures
        r == spec_skip_ws(s@, 0),
        r <= s@.len(),
{
    let n = s.unicode_len();
    let mut i: usize = 0;
    while i < n
        invariant
            0 <= i <= n,
            n == s@.len(),
            spec_skip_ws(s@, 0) == spec_skip_ws(s@, i as int),
        decreases n - i,
    {
        let c = s.get_char(i);
        if !is_space(c) {
            return i;
        }
        i = i + 1;
    }
    i
}

/// The exclusive end of the text with trailing whitespace dropped.
pub fn end_mark(s: &str) -> (r: usize)
    ensures
        r == spec_trim_end(s@, s@.len() as int),
        r <= s@.len(),
{
    let n = s.unicode_len();
    let mut i: usize = n;
    while i > 0
        invariant
            0 <= i <= n,
            n == s@.len(),
            spec_trim_end(s@, n as int) == spec_trim_end(s@, i as int),
        decreases i,
    {
        let c = s.get_char(i - 1);
        if !is_space(c) {
            return i;
        }
        i = i - 1;
    }
    i
}

/// Whether the text is empty or whitespace only.
pub fn is_blank(s: &str) -> (r: bool)
    ensures
        r == spec_is_blank(s@),
{
    let n = s.unicode_len();
    first_mark(s) == n
}

/// Whether the text contains the character `c`.
pub fn contains_char(s: &str, c: char) -> (r: bool)
    ensures
        r == s@.contains(c),
{
    let n = s.unicode_len();
    let mut i: usize = 0;
    while i < n
        invariant
            0 <= i <= n,
            n == s@.len(),
            forall|j: int| 0 <= j < i ==> #[trigger] s@[j] != c,
        decreases n - i,
    {
        if s.get_char(i) == c {
            return true;
        }
        i = i + 1;
    }
    false
}

/// How many times the character `c` occurs in the text.
pub open spec fn spec_count_char(s: Seq<char>, c: char) -> nat
    decreases s.len(),
{
    if s.len() == 0 {
        0
    } else {
        spec_count_char(s.drop_last(), c) + if s.last() == c {
            1nat
        } else {
            0nat
        }
    }
}

/// Counts occurrences of the character `c`.
pub fn count_char(s: &str, c: char) -> (r: usize)
    ensures
        r == spec_count_char(s@, c),
{
    let n = s.unicode_len();
    let mut i: usize = 0;
    let mut k: usize = 0;
    while i < n
        invariant
            0 <= i <= n,
            n == s@.len(),
            k <= i,
            k == spec_count_char(s@.subrange(0, i as int), c),
        decreases n - i,
    {
        let ghost pre = s@.subrange(0, i as int);
        let ghost cur = s@.subrange(0, i as int + 1);
        proof {
            assert(cur.drop_last() =~= pre);
        }
        if s.get_char(i) == c {
            k = k + 1;
        }
        i = i + 1;
    }
    proof {
        assert(s@.subrange(0, n as int) =~= s@);
    }
    k
}

} // verus!
