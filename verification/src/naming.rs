//! Identifier casing and enum type-path resolution.
//!
//! `to_word_case` is the single canonical casing routine of the crate: it
//! splits an identifier at uppercase-letter boundaries (a run of consecutive
//! uppercase letters counts as one word, except that the last letter of the
//! run starts the next word when lowercase letters follow), lowers every
//! letter and joins the words with underscores.  Characters outside the
//! ASCII letters and digits act as separators and are dropped.
//!
//! `resolve_enum_type_path` turns a dotted protobuf type reference into the
//! module path under which the generated code reaches the enum type.

use vstd::prelude::*;

use crate::strutil::push_char;

verus! {

// ---------------------------------------------------------------------------
// Character classes (ASCII identifier model).
// ---------------------------------------------------------------------------

/// `c` is an ASCII lowercase letter.
pub open spec fn is_low(c: char) -> bool {
    97 <= c as u32 <= 122
}

/// `c` is an ASCII uppercase letter.
pub open spec fn is_up(c: char) -> bool {
    65 <= c as u32 <= 90
}

/// `c` is an ASCII digit.
pub open spec fn is_digit(c: char) -> bool {
    48 <= c as u32 <= 57
}

/// `c` belongs to a word: an ASCII letter or digit.
pub open spec fn is_word_char(c: char) -> bool {
    is_low(c) || is_up(c) || is_digit(c)
}

/// The lowercase form of `c`: uppercase ASCII letters are lowered, every
/// other character is kept.
pub open spec fn low_of(c: char) -> char {
    if is_up(c) {
        ((c as u32) + 32) as char
    } else {
        c
    }
}

fn word_char(c: char) -> (r: bool)
    ensures
        r == is_word_char(c),
{
    let u = c as u32;
    (97 <= u && u <= 122) || (65 <= u && u <= 90) || (48 <= u && u <= 57)
}

fn upper(c: char) -> (r: bool)
    ensures
        r == is_up(c),
{
    let u = c as u32;
    65 <= u && u <= 90
}

fn lower(c: char) -> (r: bool)
    ensures
        r == is_low(c),
{
    let u = c as u32;
    97 <= u && u <= 122
}

fn lower_char(c: char) -> (r: char)
    ensures
        r == low_of(c),
{
    let u = c as u32;
    if 65 <= u && u <= 90 {
        ((u + 32) as u8) as char
    } else {
        c
    }
}

// ---------------------------------------------------------------------------
// Word casing.
// ---------------------------------------------------------------------------

/// The case of the most recent cased letter of the current word segment,
/// `Fresh` while none has been seen since the last separator.
#[derive(Clone, Copy, PartialEq, Eq, Structural)]
pub enum CaseRun {
    Fresh,
    LowerRun,
    UpperRun,
}

/// State update: letters set the run case, digits keep it, separators reset.
pub open spec fn next_run(st: CaseRun, c: char) -> CaseRun {
    if is_low(c) {
        CaseRun::LowerRun
    } else if is_up(c) {
        CaseRun::UpperRun
    } else if is_digit(c) {
        st
    } else {
        CaseRun::Fresh
    }
}

/// Position `i` starts a separator-delimited segment.
pub open spec fn seg_start(s: Seq<char>, i: int) -> bool {
    i <= 0 || !is_word_char(s[i - 1])
}

/// A word boundary falls immediately before position `i` (a word character):
/// at the start of a segment, before an uppercase letter that follows a
/// lowercase run, and before the last uppercase letter of an uppercase run
/// when a lowercase letter follows it.
pub open spec fn boundary_before(st: CaseRun, s: Seq<char>, i: int) -> bool {
    ||| seg_start(s, i)
    ||| (is_up(s[i]) && st is LowerRun)
    ||| (is_up(s[i]) && st is UpperRun && i + 1 < s.len() && is_low(s[i + 1]))
}

/// The word-cased text produced from position `i` on, given the case run
/// `st` before `i` and whether any output was emitted before `i`.
pub open spec fn word_case_from(s: Seq<char>, i: int, st: CaseRun, has_out: bool) -> Seq<char>
    decreases s.len() - i,
{
    if i < 0 || i >= s.len() {
        Seq::empty()
    } else {
        let c = s[i];
        let rest = word_case_from(s, i + 1, next_run(st, c), has_out || is_word_char(c));
        if !is_word_char(c) {
            rest
        } else if boundary_before(st, s, i) && has_out {
            seq!['_', low_of(c)] + rest
        } else {
            seq![low_of(c)] + rest
        }
    }
}

/// The word-cased (snake-cased) form of `s`.
pub open spec fn word_case(s: Seq<char>) -> Seq<char> {
    word_case_from(s, 0, CaseRun::Fresh, false)
}

/// Convert an identifier to word case: `HelloReply` becomes `hello_reply`,
/// `APIKey` becomes `api_key`, separators are dropped.
pub fn to_word_case(s: &str) -> (r: String)
    ensures
        r@ == word_case(s@),
{
    let n = s.unicode_len();
    let mut out = String::new();
    let mut st = CaseRun::Fresh;
    let mut prev_word = false;
    let mut i: usize = 0;
    while i < n
        invariant
            n == s@.len(),
            i <= n,
            prev_word == (i > 0 && is_word_char(s@[i as int - 1])),
            word_case(s@) == out@ + word_case_from(s@, i as int, st, out@.len() > 0),
        decreases n - i,
    {
        let ghost out0 = out@;
        let ghost st0 = st;
        let c = s.get_char(i);
        if word_char(c) {
            let b = !prev_word || (upper(c) && matches!(st, CaseRun::LowerRun)) || (upper(c)
                && matches!(st, CaseRun::UpperRun) && i + 1 < n && lower(s.get_char(i + 1)));
            assert(b == boundary_before(st, s@, i as int));
            if b && !out.as_str().is_empty() {
                push_char(&mut out, '_');
            }
            push_char(&mut out, lower_char(c));
            prev_word = true;
        } else {
            prev_word = false;
        }
        if lower(c) {
            st = CaseRun::LowerRun;
        } else if upper(c) {
            st = CaseRun::UpperRun;
        } else if !word_char(c) {
            st = CaseRun::Fresh;
        }
        proof {
            let ii = i as int;
            assert(st == next_run(st0, s@[ii]));
            if is_word_char(s@[ii]) {
                assert(out0 + word_case_from(s@, ii, st0, out0.len() > 0) =~= out@
                    + word_case_from(s@, ii + 1, st, out@.len() > 0));
            } else {
                assert(out@ == out0);
            }
        }
        i = i + 1;
    }
    out
}

// ---------------------------------------------------------------------------
// Message-name detection.
// ---------------------------------------------------------------------------

/// A path segment names a message (or enum) type when its first character is
/// an uppercase letter; lowercase segments are package components.
pub open spec fn message_like(s: Seq<char>) -> bool {
    s.len() > 0 && is_up(s[0])
}

/// Whether `name` looks like a message type name (uppercase first letter).
pub fn is_message_name(name: &str) -> (r: bool)
    ensures
        r == message_like(name@),
{
    if name.unicode_len() == 0 {
        false
    } else {
        upper(name.get_char(0))
    }
}

// ---------------------------------------------------------------------------
// Splitting a dotted reference.
// ---------------------------------------------------------------------------

/// Index of the first `.` at or after `i`, or `s.len()` when none follows.
pub open spec fn find_dot(s: Seq<char>, i: int) -> int
    decreases s.len() - i,
{
    if i < 0 || i >= s.len() {
        s.len() as int
    } else if s[i] == '.' {
        i
    } else {
        find_dot(s, i + 1)
    }
}

/// The `.`-separated segments of `s` from position `i` on.
pub open spec fn split_dots_from(s: Seq<char>, i: int) -> Seq<Seq<char>>
    decreases s.len() - i,
        via split_dots_from_decreases
{
    if i < 0 || i > s.len() {
        Seq::empty()
    } else {
        let j = find_dot(s, i);
        if j >= s.len() {
            seq![s.subrange(i, s.len() as int)]
        } else {
            seq![s.subrange(i, j)] + split_dots_from(s, j + 1)
        }
    }
}

#[via_fn]
proof fn split_dots_from_decreases(s: Seq<char>, i: int) {
    if 0 <= i <= s.len() {
        lemma_find_dot_bounds(s, i);
    }
}

/// The `.`-separated segments of `s`; splitting the empty string gives one
/// empty segment.
pub open spec fn split_dots(s: Seq<char>) -> Seq<Seq<char>> {
    split_dots_from(s, 0)
}

proof fn lemma_find_dot_bounds(s: Seq<char>, i: int)
    requires
        0 <= i <= s.len(),
    ensures
        i <= find_dot(s, i) <= s.len(),
        find_dot(s, i) < s.len() ==> s[find_dot(s, i)] == '.',
        forall|k: int| i <= k < find_dot(s, i) ==> s[k] != '.',
    decreases s.len() - i,
{
    if i < s.len() && s[i] != '.' {
        lemma_find_dot_bounds(s, i + 1);
    }
}

pub proof fn lemma_find_dot_at(s: Seq<char>, i: int, j: int)
    requires
        0 <= i <= j <= s.len(),
        forall|k: int| i <= k < j ==> s[k] != '.',
        j == s.len() || s[j] == '.',
    ensures
        find_dot(s, i) == j,
    decreases j - i,
{
    if i < j {
        lemma_find_dot_at(s, i + 1, j);
    }
}

// ---------------------------------------------------------------------------
// Enum type-path resolution.
// ---------------------------------------------------------------------------

/// The module-path text contributed by the segments strictly between the
/// package segment and the enum-name segment, from segment `k` on: each
/// message-like segment appears word-cased and followed by `::`, the other
/// segments are package components and are dropped.
pub open spec fn mods_join_from(parts: Seq<Seq<char>>, k: int) -> Seq<char>
    decreases parts.len() - k,
{
    if k < 1 || k >= parts.len() - 1 {
        Seq::empty()
    } else if message_like(parts[k]) {
        word_case(parts[k]) + "::"@ + mods_join_from(parts, k + 1)
    } else {
        mods_join_from(parts, k + 1)
    }
}

/// Some segment strictly between the first and the last is message-like.
pub open spec fn has_message_segment(parts: Seq<Seq<char>>) -> bool {
    exists|k: int| 1 <= k < parts.len() - 1 && message_like(parts[k])
}

/// The resolved path for a dotted enum type reference:
/// a bare name resolves to itself; `package.Enum` resolves to `Enum`;
/// with three or more segments, the message-like middle segments form a
/// word-cased `::`-separated module prefix before the bare enum name, and
/// when none is message-like the bare enum name stands alone.
pub open spec fn resolve_path(s: Seq<char>) -> Seq<char> {
    let parts = split_dots(s);
    if parts.len() <= 1 {
        s
    } else if parts.len() == 2 {
        parts[1]
    } else if !has_message_segment(parts) {
        parts[parts.len() - 1]
    } else {
        mods_join_from(parts, 1) + parts[parts.len() - 1]
    }
}

/// Resolve a dotted protobuf enum type reference to the module path used by
/// the generated code.
pub fn resolve_enum_type_path(enum_type: &str) -> (r: String)
    ensures
        r@ == resolve_path(enum_type@),
{
    let n = enum_type.unicode_len();
    let mut segs: Vec<String> = Vec::new();
    let mut i: usize = 0;
    loop
        invariant_except_break
            split_dots(enum_type@) =~= segs@.map_values(|t: String| t@) + split_dots_from(
                enum_type@,
                i as int,
            ),
        invariant
            n == enum_type@.len(),
            i <= n,
        ensures
            split_dots(enum_type@) =~= segs@.map_values(|t: String| t@),
        decreases n - i,
    {
        let ghost segs0 = segs@;
        let mut j = i;
        while j < n && enum_type.get_char(j) != '.'
            invariant
                n == enum_type@.len(),
                i <= j <= n,
                forall|k: int| i <= k < j ==> enum_type@[k] != '.',
            decreases n - j,
        {
            j = j + 1;
        }
        proof {
            lemma_find_dot_at(enum_type@, i as int, j as int);
        }
        segs.push(enum_type.substring_char(i, j).to_owned());
        proof {
            assert(segs@.map_values(|t: String| t@) =~= segs0.map_values(|t: String| t@).push(
                enum_type@.subrange(i as int, j as int),
            ));
        }
        if j == n {
            proof {
                assert(split_dots_from(enum_type@, i as int) =~= seq![
                    enum_type@.subrange(i as int, n as int),
                ]);
                assert(split_dots(enum_type@) =~= segs@.map_values(|t: String| t@));
            }
            break;
        }
        proof {
            assert(split_dots_from(enum_type@, i as int) =~= seq![
                enum_type@.subrange(i as int, j as int),
            ] + split_dots_from(enum_type@, j as int + 1));
        }
        i = j + 1;
    }
    let ghost parts = split_dots(enum_type@);
    proof {
        assert(parts =~= segs@.map_values(|t: String| t@));
    }
    if segs.len() <= 1 {
        return enum_type.to_owned();
    }
    if segs.len() == 2 {
        let r = segs[1].clone();
        return r;
    }
    let last = segs[segs.len() - 1].clone();
    let mut out = String::new();
    let mut any = false;
    let mut k: usize = 1;
    while k < segs.len() - 1
        invariant
            segs.len() >= 3,
            1 <= k <= segs.len() - 1,
            parts == segs@.map_values(|t: String| t@),
            parts.len() == segs.len(),
            last@ == parts[parts.len() - 1],
            any == exists|m: int| 1 <= m < k && message_like(parts[m]),
            mods_join_from(parts, 1) == out@ + mods_join_from(parts, k as int),
        decreases segs.len() - k,
    {
        let ghost out0 = out@;
        let seg = &segs[k];
        if is_message_name(seg.as_str()) {
            let m = to_word_case(seg.as_str());
            out.append(m.as_str());
            out.append("::");
            proof {
                assert(out0 + mods_join_from(parts, k as int) =~= out@ + mods_join_from(
                    parts,
                    k as int + 1,
                ));
            }
            any = true;
        }
        k = k + 1;
    }
    if !any {
        proof {
            assert(!has_message_segment(parts));
        }
        return last;
    }
    proof {
        assert(has_message_segment(parts));
        assert(mods_join_from(parts, k as int) =~= Seq::<char>::empty());
    }
    out.append(last.as_str());
    proof {
        assert(out@ =~= mods_join_from(parts, 1) + parts[parts.len() - 1]);
    }
    out
}

} // verus!
