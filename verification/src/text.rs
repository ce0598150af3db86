//! Trimming of text: the diff text handed to the publisher is the collector's
//! output with leading and trailing white space removed. The white-space set
//! is the Unicode one that `str::trim` uses, written out here so that the
//! trimming itself is verified code.

use vstd::prelude::*;
use vstd::string::{StrSliceExecFns, StringExecFns};

verus! {

/// A character with the Unicode `White_Space` property: the set that
/// trimming removes from the edges of the text.
pub open spec fn is_space(c: char) -> bool {
    let u = c as u32;
    ||| u == 0x09
    ||| u == 0x0A
    ||| u == 0x0B
    ||| u == 0x0C
    ||| u == 0x0D
    ||| u == 0x20
    ||| u == 0x85
    ||| u == 0xA0
    ||| u == 0x1680
    ||| (0x2000 <= u && u <= 0x200A)
    ||| u == 0x2028
    ||| u == 0x2029
    ||| u == 0x202F
    ||| u == 0x205F
    ||| u == 0x3000
}

/// Decides membership in the white-space set.
pub fn is_space_char(c: char) -> (r: bool)
    ensures
        r == is_space(c),
{
    let u = c as u32;
    u == 0x09 || u == 0x0A || u == 0x0B || u == 0x0C || u == 0x0D || u == 0x20 || u == 0x85
        || u == 0xA0 || u == 0x1680 || (0x2000 <= u && u <= 0x200A) || u == 0x2028 || u == 0x2029
        || u == 0x202F || u == 0x205F || u == 0x3000
}

/// The sequence with its leading white space removed.
pub open spec fn trim_start_chars(s: Seq<char>) -> Seq<char>
    decreases s.len(),
{
    if s.len() == 0 {
        s
    } else if is_space(s[0]) {
        trim_start_chars(s.drop_first())
    } else {
        s
    }
}

/// The sequence with its trailing white space removed.
pub open spec fn trim_end_chars(s: Seq<char>) -> Seq<char>
    decreases s.len(),
{
    if s.len() == 0 {
        s
    } else if is_space(s.last()) {
        trim_end_chars(s.drop_last())
    } else {
        s
    }
}

/// The sequence with white space removed from both edges.
pub open spec fn trim_chars(s: Seq<char>) -> Seq<char> {
    trim_end_chars(trim_start_chars(s))
}

/// Removing leading white space keeps the suffix that starts at the first
/// non-space character: if everything before `i` is white space and `i` is
/// the end or a non-space character, what is kept is exactly the tail from
/// `i`.
proof fn lemma_trim_start_at(s: Seq<char>, i: int)
    requires
        0 <= i <= s.len(),
        forall|k: int| 0 <= k < i ==> is_space(s[k]),
        i < s.len() ==> !is_space(s[i]),
    ensures
        trim_start_chars(s) == s.subrange(i, s.len() as int),
    decreases i,
{
    if i == 0 {
        assert(s.subrange(0, s.len() as int) =~= s);
    } else {
        let t = s.drop_first();
        assert(is_space(s[0]));
        assert forall|k: int| 0 <= k < i - 1 implies is_space(t[k]) by {
            assert(t[k] == s[k + 1]);
        }
        if i - 1 < t.len() {
            assert(t[i - 1] == s[i]);
        }
        lemma_trim_start_at(t, i - 1);
        assert(t.subrange(i - 1, t.len() as int) =~= s.subrange(i, s.len() as int));
    }
}

/// Removing trailing white space keeps the prefix that ends after the last
/// non-space character: if everything from `j` on is white space and `j` is
/// the start or follows a non-space character, what is kept is exactly the
/// prefix up to `j`.
proof fn lemma_trim_end_at(s: Seq<char>, j: int)
    requires
        0 <= j <= s.len(),
        forall|k: int| j <= k < s.len() ==> is_space(s[k]),
        j > 0 ==> !is_space(s[j - 1]),
    ensures
        trim_end_chars(s) == s.subrange(0, j),
    decreases s.len() - j,
{
    if j == s.len() {
        assert(s.subrange(0, j) =~= s);
        if s.len() > 0 {
            assert(!is_space(s.last()));
        }
    } else {
        let t = s.drop_last();
        assert(is_space(s.last()));
        assert forall|k: int| j <= k < t.len() implies is_space(t[k]) by {
            assert(t[k] == s[k]);
        }
        if j > 0 {
            assert(t[j - 1] == s[j - 1]);
        }
        lemma_trim_end_at(t, j);
        assert(t.subrange(0, j) =~= s.subrange(0, j));
    }
}

/// Trims leading and trailing white space, exactly as the mathematical
/// `trim_chars` describes.
pub fn trim(s: &str) -> (r: String)
    ensures
        r@ == trim_chars(s@),
{
    let n = s.unicode_len();
    let mut start: usize = 0;
    while start < n && is_space_char(s.get_char(start))
        invariant
            0 <= start <= n,
            n == s@.len(),
            forall|k: int| 0 <= k < start ==> is_space(s@[k]),
        decreases n - start,
    {
        start = start + 1;
    }
    let mut end: usize = n;
    while end > start && is_space_char(s.get_char(end - 1))
        invariant
            start <= end <= n,
            n == s@.len(),
            forall|k: int| end <= k < n ==> is_space(s@[k]),
        decreases end,
    {
        end = end - 1;
    }
    proof {
        lemma_trim_start_at(s@, start as int);
        let t = s@.subrange(start as int, s@.len() as int);
        assert forall|k: int| (end - start) <= k < t.len() implies is_space(t[k]) by {
            assert(t[k] == s@[k + start]);
        }
        if end > start {
            assert(t[end - start - 1] == s@[end - 1]);
        }
        lemma_trim_end_at(t, end - start);
        assert(t.subrange(0, end - start) =~= s@.subrange(start as int, end as int));
    }
    let kept = s.substring_char(start, end);
    String::from_str(kept)
}

/// Trimming leaves no white space at either edge: of a non-empty trimmed
/// sequence, neither the first nor the last character is white space.
pub proof fn lemma_trim_no_edge_space(s: Seq<char>)
    ensures
        trim_chars(s).len() > 0 ==> !is_space(trim_chars(s).first()),
        trim_chars(s).len() > 0 ==> !is_space(trim_chars(s).last()),
{
    lemma_trim_start_first(s);
    let t = trim_start_chars(s);
    lemma_trim_end_last(t);
    lemma_trim_end_prefix(t);
}

/// After removing leading white space, a non-empty result starts with a
/// non-space character.
proof fn lemma_trim_start_first(s: Seq<char>)
    ensures
        trim_start_chars(s).len() > 0 ==> !is_space(trim_start_chars(s).first()),
    decreases s.len(),
{
    if s.len() > 0 && is_space(s[0]) {
        lemma_trim_start_first(s.drop_first());
    }
}

/// After removing trailing white space, a non-empty result ends with a
/// non-space character.
proof fn lemma_trim_end_last(s: Seq<char>)
    ensures
        trim_end_chars(s).len() > 0 ==> !is_space(trim_end_chars(s).last()),
    decreases s.len(),
{
    if s.len() > 0 && is_space(s.last()) {
        lemma_trim_end_last(s.drop_last());
    }
}

/// Removing trailing white space keeps the first character: a non-empty
/// result begins where the input began.
proof fn lemma_trim_end_prefix(s: Seq<char>)
    ensures
        trim_end_chars(s).len() > 0 ==> s.len() > 0 && trim_end_chars(s).first() == s.first(),
    decreases s.len(),
{
    if s.len() > 0 && is_space(s.last()) {
        lemma_trim_end_prefix(s.drop_last());
    }
}

} // verus!
