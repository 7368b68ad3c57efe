//! Small string helpers shared by the generator modules.

use vstd::prelude::*;

verus! {

/// Relies on std's `String::push`: appends exactly the one character `c`.
#[verifier::external_body]
pub fn push_char(s: &mut String, c: char)
    ensures
        final(s)@ == old(s)@.push(c),
{
    s.push(c);
}

/// Character-wise string equality.
pub fn str_eq(a: &str, b: &str) -> (r: bool)
    ensures
        r == (a@ == b@),
{
    let n = a.unicode_len();
    let m = b.unicode_len();
    if n != m {
        proof {
            assert(a@ != b@) by {
                assert(a@.len() != b@.len());
            }
        }
        return false;
    }
    let mut i: usize = 0;
    while i < n
        invariant
            n == a@.len(),
            n == b@.len(),
            i <= n,
            forall|k: int| 0 <= k < i ==> a@[k] == b@[k],
        decreases n - i,
    {
        if a.get_char(i) != b.get_char(i) {
            return false;
        }
        i = i + 1;
    }
    proof {
        assert(a@ =~= b@);
    }
    true
}

/// `s` with every leading `.` removed.
pub open spec fn strip_dots(s: Seq<char>) -> Seq<char>
    decreases s.len(),
{
    if s.len() > 0 && s[0] == '.' {
        strip_dots(s.drop_first())
    } else {
        s
    }
}

proof fn lemma_strip_dots_skip(s: Seq<char>, d: int)
    requires
        0 <= d <= s.len(),
        forall|k: int| 0 <= k < d ==> s[k] == '.',
        d == s.len() || s[d] != '.',
    ensures
        strip_dots(s) == s.subrange(d, s.len() as int),
    decreases d,
{
    if d == 0 {
        assert(s.subrange(0, s.len() as int) =~= s);
    } else {
        lemma_strip_dots_skip(s.drop_first(), d - 1);
        assert(s.drop_first().subrange(d - 1, s.drop_first().len() as int) =~= s.subrange(
            d,
            s.len() as int,
        ));
    }
}

/// Index of the first character at or after `i` that is not `"`, or
/// `s.len()` when every one from `i` on is.
pub open spec fn first_non_quote(s: Seq<char>, i: int) -> int
    decreases s.len() - i,
{
    if i < 0 || i >= s.len() {
        s.len() as int
    } else if s[i] != '"' {
        i
    } else {
        first_non_quote(s, i + 1)
    }
}

/// Index after the last character before `j` that is not `"`, or `0` when
/// every one before `j` is.
pub open spec fn last_non_quote(s: Seq<char>, j: int) -> int
    decreases j,
{
    if j <= 0 || j > s.len() {
        0
    } else if s[j - 1] != '"' {
        j
    } else {
        last_non_quote(s, j - 1)
    }
}

/// `s` with every leading and trailing `"` removed.
pub open spec fn strip_quotes(s: Seq<char>) -> Seq<char> {
    let a = first_non_quote(s, 0);
    let b = last_non_quote(s, s.len() as int);
    if a < b {
        s.subrange(a, b)
    } else {
        Seq::empty()
    }
}

proof fn lemma_first_non_quote_at(s: Seq<char>, i: int, a: int)
    requires
        0 <= i <= a <= s.len(),
        forall|k: int| i <= k < a ==> s[k] == '"',
        a == s.len() || s[a] != '"',
    ensures
        first_non_quote(s, i) == a,
    decreases a - i,
{
    if i < a {
        lemma_first_non_quote_at(s, i + 1, a);
    }
}

proof fn lemma_last_non_quote_at(s: Seq<char>, j: int, b: int)
    requires
        0 <= b <= j <= s.len(),
        forall|k: int| b <= k < j ==> s[k] == '"',
        b == 0 || s[b - 1] != '"',
    ensures
        last_non_quote(s, j) == b,
    decreases j - b,
{
    if b < j {
        lemma_last_non_quote_at(s, j - 1, b);
    }
}

/// `s` with leading and trailing `"` characters trimmed.
pub fn trim_quotes<'a>(s: &'a str) -> (r: &'a str)
    ensures
        r@ == strip_quotes(s@),
{
    let n = s.unicode_len();
    let mut i: usize = 0;
    while i < n && s.get_char(i) == '"'
        invariant
            n == s@.len(),
            i <= n,
            forall|k: int| 0 <= k < i ==> s@[k] == '"',
        decreases n - i,
    {
        i = i + 1;
    }
    proof {
        lemma_first_non_quote_at(s@, 0, i as int);
    }
    let mut j: usize = n;
    while j > i && s.get_char(j - 1) == '"'
        invariant
            n == s@.len(),
            i <= j <= n,
            forall|k: int| j <= k < n ==> s@[k] == '"',
        decreases j,
    {
        j = j - 1;
    }
    if i < j {
        proof {
            lemma_last_non_quote_at(s@, n as int, j as int);
        }
        s.substring_char(i, j)
    } else {
        proof {
            lemma_last_non_quote_le(s@, n as int);
        }
        s.substring_char(0, 0)
    }
}

proof fn lemma_last_non_quote_le(s: Seq<char>, j: int)
    requires
        0 <= j <= s.len(),
    ensures
        last_non_quote(s, j) <= j,
    decreases j,
{
    if j > 0 && s[j - 1] == '"' {
        lemma_last_non_quote_le(s, j - 1);
    }
}

/// `s` with its leading dots trimmed, as a borrowed slice.
pub fn trim_leading_dots<'a>(s: &'a str) -> (r: &'a str)
    ensures
        r@ == strip_dots(s@),
{
    let n = s.unicode_len();
    let mut d: usize = 0;
    while d < n && s.get_char(d) == '.'
        invariant
            n == s@.len(),
            d <= n,
            forall|k: int| 0 <= k < d ==> s@[k] == '.',
        decreases n - d,
    {
        d = d + 1;
    }
    proof {
        lemma_strip_dots_skip(s@, d as int);
    }
    s.substring_char(d, n)
}

} // verus!
