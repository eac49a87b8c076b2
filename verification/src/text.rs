//! Verified text helpers: whitespace trimming and character search.
//!
//! Trimming follows std's notion of Unicode whitespace, which is taken on
//! trust through a single specification for `char::is_whitespace`; everything
//! built on top of it is verified.

use vstd::prelude::*;

verus! {

/// Whether `char::is_whitespace` returns true on `c`: membership of `c` in
/// the Unicode White_Space table, a function of the character alone.
pub uninterp spec fn is_ws(c: char) -> bool;

/// Relies on std's `char::is_whitespace`: a pure character classification
/// whose full table is not restated here; `is_ws` names its result.
pub assume_specification[ char::is_whitespace ](c: char) -> (r: bool)
    ensures
        r == is_ws(c),
;

/// The sequence with its leading whitespace removed.
pub open spec fn drop_leading_ws(s: Seq<char>) -> Seq<char>
    decreases s.len(),
{
    if s.len() > 0 && is_ws(s[0]) {
        drop_leading_ws(s.subrange(1, s.len() as int))
    } else {
        s
    }
}

/// The sequence with its trailing whitespace removed.
pub open spec fn drop_trailing_ws(s: Seq<char>) -> Seq<char>
    decreases s.len(),
{
    if s.len() > 0 && is_ws(s[s.len() - 1]) {
        drop_trailing_ws(s.subrange(0, s.len() - 1))
    } else {
        s
    }
}

/// What `str::trim` means: leading and trailing whitespace removed.
pub open spec fn trim_spec(s: Seq<char>) -> Seq<char> {
    drop_trailing_ws(drop_leading_ws(s))
}

proof fn lemma_drop_leading_ws_range(s: Seq<char>, i: int)
    requires
        0 <= i <= s.len(),
        forall|k: int| 0 <= k < i ==> is_ws(s[k]),
        i < s.len() ==> !is_ws(s[i]),
    ensures
        drop_leading_ws(s) =~= s.subrange(i, s.len() as int),
    decreases i,
{
    if i == 0 {
        assert(s.subrange(0, s.len() as int) =~= s);
    } else {
        let t = s.subrange(1, s.len() as int);
        lemma_drop_leading_ws_range(t, i - 1);
        assert(t.subrange(i - 1, t.len() as int) =~= s.subrange(i, s.len() as int));
    }
}

proof fn lemma_drop_trailing_ws_range(s: Seq<char>, j: int)
    requires
        0 <= j <= s.len(),
        forall|k: int| j <= k < s.len() ==> is_ws(s[k]),
        j > 0 ==> !is_ws(s[j - 1]),
    ensures
        drop_trailing_ws(s) =~= s.subrange(0, j),
    decreases s.len() - j,
{
    if j == s.len() {
        assert(s.subrange(0, s.len() as int) =~= s);
    } else {
        let t = s.subrange(0, s.len() - 1);
        lemma_drop_trailing_ws_range(t, j);
        assert(t.subrange(0, j) =~= s.subrange(0, j));
    }
}

/// `str::trim`, verified against `trim_spec`.
pub fn trim_str<'a>(s: &'a str) -> (r: &'a str)
    ensures
        r@ == trim_spec(s@),
{
    let len = s.unicode_len();
    let mut lo: usize = 0;
    while lo < len && s.get_char(lo).is_whitespace()
        invariant
            lo <= len,
            len == s@.len(),
            forall|k: int| 0 <= k < lo ==> is_ws(s@[k]),
        decreases len - lo,
    {
        lo = lo + 1;
    }
    let mut hi: usize = len;
    while hi > lo && s.get_char(hi - 1).is_whitespace()
        invariant
            lo <= hi <= len,
            len == s@.len(),
            forall|k: int| 0 <= k < lo ==> is_ws(s@[k]),
            lo < len ==> !is_ws(s@[lo as int]),
            forall|k: int| hi <= k < len ==> is_ws(s@[k]),
        decreases hi,
    {
        hi = hi - 1;
    }
    let r = s.substring_char(lo, hi);
    proof {
        lemma_drop_leading_ws_range(s@, lo as int);
        let t = s@.subrange(lo as int, len as int);
        if hi == lo {
            lemma_drop_trailing_ws_range(t, 0);
        } else {
            lemma_drop_trailing_ws_range(t, hi - lo);
        }
        assert(t.subrange(0, hi - lo) =~= s@.subrange(lo as int, hi as int));
    }
    r
}

/// The index of the first occurrence of `c` in `s`, or `s.len()` if absent.
pub open spec fn find_char(s: Seq<char>, c: char) -> int
    decreases s.len(),
{
    if s.len() == 0 {
        0
    } else if s[0] == c {
        0
    } else {
        1 + find_char(s.subrange(1, s.len() as int), c)
    }
}

/// `find_char` is the unique index with nothing equal to `c` before it.
pub proof fn lemma_find_char(s: Seq<char>, c: char)
    ensures
        0 <= find_char(s, c) <= s.len(),
        forall|k: int| 0 <= k < find_char(s, c) ==> s[k] != c,
        find_char(s, c) < s.len() ==> s[find_char(s, c)] == c,
    decreases s.len(),
{
    if s.len() > 0 && s[0] != c {
        let t = s.subrange(1, s.len() as int);
        lemma_find_char(t, c);
        assert forall|k: int| 0 <= k < find_char(s, c) implies s[k] != c by {
            if k > 0 {
                assert(s[k] == t[k - 1]);
            }
        }
    }
}

/// An index satisfying `find_char`'s characterization is `find_char`.
pub proof fn lemma_find_char_unique(s: Seq<char>, c: char, i: int)
    requires
        0 <= i <= s.len(),
        forall|k: int| 0 <= k < i ==> s[k] != c,
        i < s.len() ==> s[i] == c,
    ensures
        find_char(s, c) == i,
    decreases i,
{
    if s.len() == 0 {
    } else if i == 0 {
    } else {
        let t = s.subrange(1, s.len() as int);
        lemma_find_char_unique(t, c, i - 1);
    }
}

/// Whether two characters are equal up to ASCII case.
pub open spec fn ascii_eq_ic(a: char, b: char) -> bool {
    a == b || (is_ascii_upper(a) && a as int + 32 == b as int) || (is_ascii_upper(b) && b as int
        + 32 == a as int)
}

/// Whether `c` is an ASCII capital letter.
pub open spec fn is_ascii_upper(c: char) -> bool {
    'A' as int <= c as int <= 'Z' as int
}

/// Compares two characters up to ASCII case.
pub fn char_eq_ignore_ascii_case(a: char, b: char) -> (r: bool)
    ensures
        r == ascii_eq_ic(a, b),
{
    let x = a as u32;
    let y = b as u32;
    if x == y {
        return true;
    }
    let xl = if 65 <= x && x <= 90 {
        x + 32
    } else {
        x
    };
    let yl = if 65 <= y && y <= 90 {
        y + 32
    } else {
        y
    };
    xl == yl
}

/// Whether `p` is a prefix of `s`, compared up to ASCII case.
pub open spec fn has_prefix_ignore_case(s: Seq<char>, p: Seq<char>) -> bool {
    s.len() >= p.len() && forall|i: int| 0 <= i < p.len() ==> ascii_eq_ic(s[i], #[trigger] p[i])
}

/// Checks a prefix up to ASCII case.
pub fn starts_with_ignore_ascii_case(s: &str, p: &str) -> (r: bool)
    ensures
        r == has_prefix_ignore_case(s@, p@),
{
    let slen = s.unicode_len();
    let plen = p.unicode_len();
    if slen < plen {
        return false;
    }
    let mut i: usize = 0;
    while i < plen
        invariant
            0 <= i <= plen,
            plen == p@.len(),
            slen == s@.len(),
            slen >= plen,
            forall|k: int| 0 <= k < i ==> ascii_eq_ic(s@[k], #[trigger] p@[k]),
        decreases plen - i,
    {
        if !char_eq_ignore_ascii_case(s.get_char(i), p.get_char(i)) {
            return false;
        }
        i = i + 1;
    }
    true
}

/// Whether two texts are equal up to ASCII case.
pub open spec fn eq_ignore_case(s: Seq<char>, p: Seq<char>) -> bool {
    s.len() == p.len() && has_prefix_ignore_case(s, p)
}

/// Compares two texts up to ASCII case.
pub fn str_eq_ignore_ascii_case(s: &str, p: &str) -> (r: bool)
    ensures
        r == eq_ignore_case(s@, p@),
{
    if s.unicode_len() != p.unicode_len() {
        return false;
    }
    starts_with_ignore_ascii_case(s, p)
}

/// Scans `s` for the first occurrence of `c`, verified against `find_char`.
pub fn find_char_str(s: &str, c: char) -> (i: usize)
    ensures
        i == find_char(s@, c),
        i <= s@.len(),
{
    let len = s.unicode_len();
    let mut i: usize = 0;
    while i < len && s.get_char(i) != c
        invariant
            i <= len,
            len == s@.len(),
            forall|k: int| 0 <= k < i ==> s@[k] != c,
        decreases len - i,
    {
        i = i + 1;
    }
    proof {
        lemma_find_char_unique(s@, c, i as int);
    }
    i
}

} // verus!
