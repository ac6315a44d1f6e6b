//! Character classes and whitespace runs, the lexical ground of the wire
//! grammar: spec functions measuring runs of whitespace or token
//! characters, and verified scanners over `&str` that compute them.

use vstd::prelude::*;

verus! {

/// The whitespace characters of the wire grammar: space, tab, and the
/// line terminators CR and LF.
pub open spec fn is_wsc(c: char) -> bool {
    c == ' ' || c == '\t' || c == '\r' || c == '\n'
}

/// Length of the longest whitespace run at the start of `s`.
pub open spec fn ws_prefix_len(s: Seq<char>) -> int
    decreases s.len(),
{
    if s.len() == 0 || !is_wsc(s[0]) {
        0
    } else {
        1 + ws_prefix_len(s.skip(1))
    }
}

/// Length of the longest non-whitespace run (a token) at the start of `s`.
pub open spec fn token_prefix_len(s: Seq<char>) -> int
    decreases s.len(),
{
    if s.len() == 0 || is_wsc(s[0]) {
        0
    } else {
        1 + token_prefix_len(s.skip(1))
    }
}

/// Length of the longest whitespace run at the end of `s`.
pub open spec fn ws_suffix_len(s: Seq<char>) -> int
    decreases s.len(),
{
    if s.len() == 0 || !is_wsc(s[s.len() - 1]) {
        0
    } else {
        1 + ws_suffix_len(s.drop_last())
    }
}

/// `s` without its leading and trailing whitespace.
pub open spec fn trimmed(s: Seq<char>) -> Seq<char> {
    let t = s.skip(ws_prefix_len(s));
    t.take(t.len() - ws_suffix_len(t))
}

/// The leading whitespace run is exactly the characters before the first
/// non-whitespace character.
pub proof fn lemma_ws_prefix_len(s: Seq<char>)
    ensures
        0 <= ws_prefix_len(s) <= s.len(),
        forall|j: int| 0 <= j < ws_prefix_len(s) ==> is_wsc(s[j]),
        ws_prefix_len(s) < s.len() ==> !is_wsc(s[ws_prefix_len(s)]),
    decreases s.len(),
{
    if s.len() == 0 || !is_wsc(s[0]) {
    } else {
        lemma_ws_prefix_len(s.skip(1));
        assert forall|j: int| 0 <= j < ws_prefix_len(s) implies is_wsc(s[j]) by {
            if j > 0 {
                assert(s.skip(1)[j - 1] == s[j]);
            }
        }
        if ws_prefix_len(s) < s.len() {
            assert(s.skip(1)[ws_prefix_len(s) - 1] == s[ws_prefix_len(s)]);
        }
    }
}

/// Any cut with only whitespace before it and a non-whitespace character
/// (or the end) at it is the leading whitespace run.
pub proof fn lemma_ws_prefix_len_unique(s: Seq<char>, n: int)
    requires
        0 <= n <= s.len(),
        forall|j: int| 0 <= j < n ==> is_wsc(s[j]),
        n < s.len() ==> !is_wsc(s[n]),
    ensures
        n == ws_prefix_len(s),
{
    lemma_ws_prefix_len(s);
    let w = ws_prefix_len(s);
    if n < w {
        assert(is_wsc(s[n]));
    } else if w < n {
        assert(is_wsc(s[w]));
    }
}

/// The leading token is exactly the characters before the first
/// whitespace character.
pub proof fn lemma_token_prefix_len(s: Seq<char>)
    ensures
        0 <= token_prefix_len(s) <= s.len(),
        forall|j: int| 0 <= j < token_prefix_len(s) ==> !is_wsc(s[j]),
        token_prefix_len(s) < s.len() ==> is_wsc(s[token_prefix_len(s)]),
    decreases s.len(),
{
    if s.len() == 0 || is_wsc(s[0]) {
    } else {
        lemma_token_prefix_len(s.skip(1));
        assert forall|j: int| 0 <= j < token_prefix_len(s) implies !is_wsc(s[j]) by {
            if j > 0 {
                assert(s.skip(1)[j - 1] == s[j]);
            }
        }
        if token_prefix_len(s) < s.len() {
            assert(s.skip(1)[token_prefix_len(s) - 1] == s[token_prefix_len(s)]);
        }
    }
}

/// Any cut with only non-whitespace before it and a whitespace character
/// (or the end) at it is the leading token.
pub proof fn lemma_token_prefix_len_unique(s: Seq<char>, n: int)
    requires
        0 <= n <= s.len(),
        forall|j: int| 0 <= j < n ==> !is_wsc(s[j]),
        n < s.len() ==> is_wsc(s[n]),
    ensures
        n == token_prefix_len(s),
{
    lemma_token_prefix_len(s);
    let w = token_prefix_len(s);
    if n < w {
        assert(!is_wsc(s[n]));
    } else if w < n {
        assert(!is_wsc(s[w]));
    }
}

/// The trailing whitespace run is exactly the characters after the last
/// non-whitespace character.
pub proof fn lemma_ws_suffix_len(s: Seq<char>)
    ensures
        0 <= ws_suffix_len(s) <= s.len(),
        forall|j: int| s.len() - ws_suffix_len(s) <= j < s.len() ==> is_wsc(s[j]),
        ws_suffix_len(s) < s.len() ==> !is_wsc(s[s.len() - ws_suffix_len(s) - 1]),
    decreases s.len(),
{
    if s.len() == 0 || !is_wsc(s[s.len() - 1]) {
    } else {
        lemma_ws_suffix_len(s.drop_last());
        assert forall|j: int| s.len() - ws_suffix_len(s) <= j < s.len() implies is_wsc(s[j]) by {
            if j < s.len() - 1 {
                assert(s.drop_last()[j] == s[j]);
            }
        }
        if ws_suffix_len(s) < s.len() {
            assert(s.drop_last()[s.len() - ws_suffix_len(s) - 1] == s[s.len() - ws_suffix_len(s) - 1]);
        }
    }
}

/// Any cut with only whitespace after it and a non-whitespace character
/// (or the start) before it is the trailing whitespace run.
pub proof fn lemma_ws_suffix_len_unique(s: Seq<char>, n: int)
    requires
        0 <= n <= s.len(),
        forall|j: int| s.len() - n <= j < s.len() ==> is_wsc(s[j]),
        n < s.len() ==> !is_wsc(s[s.len() - n - 1]),
    ensures
        n == ws_suffix_len(s),
{
    lemma_ws_suffix_len(s);
    let w = ws_suffix_len(s);
    if n < w {
        assert(is_wsc(s[s.len() - n - 1]));
    } else if w < n {
        assert(is_wsc(s[s.len() - w - 1]));
    }
}

/// Whether `c` is whitespace under the wire grammar.
pub fn is_ws_char(c: char) -> (b: bool)
    ensures
        b == is_wsc(c),
{
    c == ' ' || c == '\t' || c == '\r' || c == '\n'
}

/// Length of the whitespace run of `s` that starts at index `from`.
pub fn ws_run_len(s: &str, from: usize) -> (r: usize)
    requires
        from <= s@.len(),
    ensures
        r as int == ws_prefix_len(s@.skip(from as int)),
        from + r <= s@.len(),
{
    let len: usize = s.unicode_len();
    let mut i: usize = from;
    while i < len && is_ws_char(s.get_char(i))
        invariant
            from <= i <= len,
            len == s@.len(),
            forall|j: int| from <= j < i ==> is_wsc(s@[j]),
        decreases len - i,
    {
        i = i + 1;
    }
    proof {
        let t = s@.skip(from as int);
        assert forall|j: int| 0 <= j < i - from implies is_wsc(t[j]) by {
            assert(t[j] == s@[from + j]);
        }
        if i - from < t.len() {
            assert(t[i - from] == s@[i as int]);
        }
        lemma_ws_prefix_len_unique(t, i - from);
    }
    i - from
}

/// Length of the token of `s` that starts at index `from`.
pub fn token_run_len(s: &str, from: usize) -> (r: usize)
    requires
        from <= s@.len(),
    ensures
        r as int == token_prefix_len(s@.skip(from as int)),
        from + r <= s@.len(),
{
    let len: usize = s.unicode_len();
    let mut i: usize = from;
    while i < len && !is_ws_char(s.get_char(i))
        invariant
            from <= i <= len,
            len == s@.len(),
            forall|j: int| from <= j < i ==> !is_wsc(s@[j]),
        decreases len - i,
    {
        i = i + 1;
    }
    proof {
        let t = s@.skip(from as int);
        assert forall|j: int| 0 <= j < i - from implies !is_wsc(t[j]) by {
            assert(t[j] == s@[from + j]);
        }
        if i - from < t.len() {
            assert(t[i - from] == s@[i as int]);
        }
        lemma_token_prefix_len_unique(t, i - from);
    }
    i - from
}

/// Copy of `s` without its leading and trailing whitespace.
pub fn trim_str(s: &str) -> (r: String)
    ensures
        r@ == trimmed(s@),
{
    let len: usize = s.unicode_len();
    let a: usize = ws_run_len(s, 0);
    proof {
        assert(s@.skip(0) =~= s@);
    }
    let mut e: usize = len;
    while e > a && is_ws_char(s.get_char(e - 1))
        invariant
            a <= e <= len,
            a as int == ws_prefix_len(s@),
            len == s@.len(),
            forall|j: int| e <= j < len ==> is_wsc(s@[j]),
        decreases e,
    {
        e = e - 1;
    }
    proof {
        let t = s@.skip(a as int);
        assert forall|j: int| t.len() - (len - e) <= j < t.len() implies is_wsc(t[j]) by {
            assert(t[j] == s@[a + j]);
        }
        if len - e < t.len() {
            assert(t[e - a - 1] == s@[e - 1]);
        }
        lemma_ws_suffix_len_unique(t, len - e);
        assert(trimmed(s@) =~= s@.subrange(a as int, e as int));
    }
    String::from_str(s.substring_char(a, e))
}

} // verus!
