//! Character-level helpers for scanning request text.

use vstd::prelude::*;
use vstd::string::*;

verus! {

/// Whitespace recognised between the tokens of a request line.
pub open spec fn is_ws(c: char) -> bool {
    c == ' ' || c == '\t'
}

/// Characters that may fill a blank separator line.
pub open spec fn is_blank_char(c: char) -> bool {
    c == ' ' || c == '\t' || c == '\r'
}

/// A line is blank when every character of it could be trimmed away.
pub open spec fn spec_blank(s: Seq<char>) -> bool {
    forall|j: int| 0 <= j < s.len() ==> is_blank_char(s[j])
}

/// Index of the first occurrence of `c` in `s`, or -1 when `c` is absent.
pub open spec fn find_c(s: Seq<char>, c: char) -> int
    decreases s.len(),
{
    if s.len() == 0 {
        -1
    } else if s[0] == c {
        0
    } else {
        let r = find_c(s.drop_first(), c);
        if r < 0 {
            -1
        } else {
            r + 1
        }
    }
}

/// `find_c` points at the first occurrence of `c`, and only at one.
pub proof fn lemma_find_c(s: Seq<char>, c: char)
    ensures
        find_c(s, c) == -1 || (0 <= find_c(s, c) < s.len() && s[find_c(s, c)] == c),
        find_c(s, c) == -1 ==> forall|j: int| 0 <= j < s.len() ==> s[j] != c,
        forall|j: int| 0 <= j < find_c(s, c) ==> s[j] != c,
    decreases s.len(),
{
    if s.len() == 0 {
    } else if s[0] == c {
    } else {
        lemma_find_c(s.drop_first(), c);
        if find_c(s, c) == -1 {
            assert forall|j: int| 0 <= j < s.len() implies s[j] != c by {
                if j > 0 {
                    assert(s.drop_first()[j - 1] == s[j]);
                }
            }
        } else {
            assert forall|j: int| 0 <= j < find_c(s, c) implies s[j] != c by {
                if j > 0 {
                    assert(s.drop_first()[j - 1] == s[j]);
                }
            }
        }
    }
}

/// First occurrence of `c` in `s`, as an executable scan.
pub fn find_char(s: &str, c: char) -> (r: Option<usize>)
    ensures
        match r {
            Some(i) => find_c(s@, c) == i as int,
            None => find_c(s@, c) == -1,
        },
{
    let n = s.unicode_len();
    let mut i: usize = 0;
    while i < n
        invariant
            n == s@.len(),
            i <= n,
            forall|j: int| 0 <= j < i ==> s@[j] != c,
        decreases n - i,
    {
        if s.get_char(i) == c {
            proof {
                lemma_find_c(s@, c);
            }
            return Some(i);
        }
        i += 1;
    }
    proof {
        lemma_find_c(s@, c);
    }
    None
}

/// Character-wise equality of two string slices.
pub fn str_eq(a: &str, b: &str) -> (r: bool)
    ensures
        r == (a@ == b@),
{
    let na = a.unicode_len();
    let nb = b.unicode_len();
    if na != nb {
        return false;
    }
    let mut i: usize = 0;
    while i < na
        invariant
            na == a@.len(),
            na == b@.len(),
            i <= na,
            forall|j: int| 0 <= j < i ==> a@[j] == b@[j],
        decreases na - i,
    {
        if a.get_char(i) != b.get_char(i) {
            return false;
        }
        i += 1;
    }
    proof {
        assert(a@ =~= b@);
    }
    true
}

/// Whether a line consists of trimmable characters only.
pub fn is_blank(s: &str) -> (r: bool)
    ensures
        r == spec_blank(s@),
{
    let n = s.unicode_len();
    let mut i: usize = 0;
    while i < n
        invariant
            n == s@.len(),
            i <= n,
            forall|j: int| 0 <= j < i ==> is_blank_char(s@[j]),
        decreases n - i,
    {
        let c = s.get_char(i);
        if !(c == ' ' || c == '\t' || c == '\r') {
            return false;
        }
        i += 1;
    }
    true
}

/// Length of the run of leading whitespace.
pub open spec fn spec_skip_ws(s: Seq<char>) -> int
    decreases s.len(),
{
    if s.len() == 0 || !is_ws(s[0]) {
        0
    } else {
        1 + spec_skip_ws(s.drop_first())
    }
}

/// Length of the run of leading non-whitespace (one token).
pub open spec fn spec_take_tok(s: Seq<char>) -> int
    decreases s.len(),
{
    if s.len() == 0 || is_ws(s[0]) {
        0
    } else {
        1 + spec_take_tok(s.drop_first())
    }
}

/// A maximal leading whitespace run of length `i` pins `spec_skip_ws` to `i`.
pub proof fn lemma_skip_ws_runs(s: Seq<char>, i: int)
    requires
        0 <= i <= s.len(),
        forall|j: int| 0 <= j < i ==> is_ws(s[j]),
        i == s.len() || !is_ws(s[i]),
    ensures
        spec_skip_ws(s) == i,
    decreases i,
{
    if i == 0 {
    } else {
        assert(forall|j: int| 0 <= j < s.drop_first().len() ==> s.drop_first()[j] == s[j + 1]);
        lemma_skip_ws_runs(s.drop_first(), i - 1);
    }
}

/// A maximal leading token run of length `i` pins `spec_take_tok` to `i`.
pub proof fn lemma_take_tok_runs(s: Seq<char>, i: int)
    requires
        0 <= i <= s.len(),
        forall|j: int| 0 <= j < i ==> !is_ws(s[j]),
        i == s.len() || is_ws(s[i]),
    ensures
        spec_take_tok(s) == i,
    decreases i,
{
    if i == 0 {
    } else {
        assert(forall|j: int| 0 <= j < s.drop_first().len() ==> s.drop_first()[j] == s[j + 1]);
        lemma_take_tok_runs(s.drop_first(), i - 1);
    }
}

/// `spec_skip_ws` and `spec_take_tok` stay within the string.
pub proof fn lemma_runs_bounded(s: Seq<char>)
    ensures
        0 <= spec_skip_ws(s) <= s.len(),
        0 <= spec_take_tok(s) <= s.len(),
    decreases s.len(),
{
    if s.len() > 0 {
        lemma_runs_bounded(s.drop_first());
    }
}

/// Number of leading whitespace characters, executably.
pub fn skip_ws_len(s: &str) -> (r: usize)
    ensures
        r as int == spec_skip_ws(s@),
        r <= s@.len(),
{
    let n = s.unicode_len();
    let mut i: usize = 0;
    while i < n
        invariant
            n == s@.len(),
            i <= n,
            forall|j: int| 0 <= j < i ==> is_ws(s@[j]),
        decreases n - i,
    {
        let c = s.get_char(i);
        if !(c == ' ' || c == '\t') {
            proof {
                lemma_skip_ws_runs(s@, i as int);
            }
            return i;
        }
        i += 1;
    }
    proof {
        lemma_skip_ws_runs(s@, n as int);
    }
    n
}

/// Length of the leading token, executably.
pub fn take_tok_len(s: &str) -> (r: usize)
    ensures
        r as int == spec_take_tok(s@),
        r <= s@.len(),
{
    let n = s.unicode_len();
    let mut i: usize = 0;
    while i < n
        invariant
            n == s@.len(),
            i <= n,
            forall|j: int| 0 <= j < i ==> !is_ws(s@[j]),
        decreases n - i,
    {
        let c = s.get_char(i);
        if c == ' ' || c == '\t' {
            proof {
                lemma_take_tok_runs(s@, i as int);
            }
            return i;
        }
        i += 1;
    }
    proof {
        lemma_take_tok_runs(s@, n as int);
    }
    n
}

} // verus!
