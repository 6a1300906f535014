//! Character-level facts about strings shared by the rest of the library.

use vstd::prelude::*;

verus! {

/// A path separator: either slash or backslash.
pub open spec fn is_sep(c: char) -> bool {
    c == '/' || c == '\\'
}

/// A separator when only slashes count (`backslash_too == false`),
/// or either kind of slash.
pub open spec fn splits_at(c: char, backslash_too: bool) -> bool {
    c == '/' || (backslash_too && c == '\\')
}

/// Index where the last segment of `s` begins: one past the last separator,
/// or zero when there is none.
pub open spec fn segment_start(s: Seq<char>, backslash_too: bool) -> int
    decreases s.len(),
{
    if s.len() == 0 {
        0
    } else if splits_at(s.last(), backslash_too) {
        s.len() as int
    } else {
        segment_start(s.drop_last(), backslash_too)
    }
}

/// The text after the last separator of `s`.
pub open spec fn last_segment(s: Seq<char>, backslash_too: bool) -> Seq<char> {
    s.subrange(segment_start(s, backslash_too), s.len() as int)
}

/// `needle` occurs as a contiguous run of characters inside `hay`.
pub open spec fn has_substring(hay: Seq<char>, needle: Seq<char>) -> bool {
    exists|i: int|
        0 <= i && i + needle.len() <= hay.len() && #[trigger] hay.subrange(i, i + needle.len())
            == needle
}

/// `a`, a slash, then `b`.
pub open spec fn join_path(a: Seq<char>, b: Seq<char>) -> Seq<char> {
    a + seq!['/'] + b
}

pub proof fn lemma_segment_start_bounds(s: Seq<char>, backslash_too: bool)
    ensures
        0 <= segment_start(s, backslash_too) <= s.len(),
        forall|j: int|
            segment_start(s, backslash_too) <= j < s.len() ==> !splits_at(
                #[trigger] s[j],
                backslash_too,
            ),
        segment_start(s, backslash_too) > 0 ==> splits_at(
            s[segment_start(s, backslash_too) - 1],
            backslash_too,
        ),
    decreases s.len(),
{
    if s.len() > 0 && !splits_at(s.last(), backslash_too) {
        lemma_segment_start_bounds(s.drop_last(), backslash_too);
        assert forall|j: int|
            segment_start(s, backslash_too) <= j < s.len() implies !splits_at(
                #[trigger] s[j],
                backslash_too,
            ) by {
            if j < s.len() - 1 {
                assert(s.drop_last()[j] == s[j]);
            }
        }
    }
}

/// Index where the last segment of `s` begins.
pub fn segment_start_of(s: &str, backslash_too: bool) -> (r: usize)
    ensures
        r as int == segment_start(s@, backslash_too),
{
    let n = s.unicode_len();
    let mut i: usize = n;
    assert(s@.subrange(0, n as int) =~= s@);
    while i > 0
        invariant
            i <= n == s@.len(),
            segment_start(s@, backslash_too) == segment_start(s@.subrange(0, i as int), backslash_too),
        decreases i,
    {
        let c = s.get_char(i - 1);
        let ghost pre = s@.subrange(0, i as int);
        if c == '/' || (backslash_too && c == '\\') {
            assert(pre.last() == c);
            return i;
        }
        assert(pre.drop_last() =~= s@.subrange(0, i - 1));
        i = i - 1;
    }
    i
}

/// Joining a name that holds no separator after any path gives a path
/// whose last segment is that name.
pub proof fn lemma_join_last_segment(a: Seq<char>, b: Seq<char>)
    requires
        forall|i: int| 0 <= i < b.len() ==> !is_sep(#[trigger] b[i]),
    ensures
        segment_start(join_path(a, b), true) == a.len() + 1,
        last_segment(join_path(a, b), true) == b,
    decreases b.len(),
{
    let j = join_path(a, b);
    if b.len() == 0 {
        assert(j.last() == '/');
    } else {
        let b0 = b.drop_last();
        assert forall|i: int| 0 <= i < b0.len() implies !is_sep(#[trigger] b0[i]) by {
            assert(b0[i] == b[i]);
        }
        lemma_join_last_segment(a, b0);
        assert(j.drop_last() =~= join_path(a, b0));
        assert(j.last() == b[b.len() - 1]);
    }
    assert(j.subrange(a.len() + 1 as int, j.len() as int) =~= b);
}

/// Relies on `String::push`: the character is appended at the end.
pub assume_specification[ String::push ](s: &mut String, ch: char)
    ensures
        final(s)@ == old(s)@.push(ch),
;

/// Relies on `String::pop`: the last character is removed and returned,
/// and an empty string gives `None`.
pub assume_specification[ String::pop ](s: &mut String) -> (r: Option<char>)
    ensures
        old(s)@.len() == 0 ==> r is None && final(s)@ == old(s)@,
        old(s)@.len() > 0 ==> r == Some(old(s)@.last()) && final(s)@ == old(s)@.drop_last(),
;

/// Whether `needle` occurs as a contiguous run of characters in `hay`.
pub fn contains_text(hay: &str, needle: &str) -> (r: bool)
    ensures
        r == has_substring(hay@, needle@),
{
    let n = hay.unicode_len();
    let m = needle.unicode_len();
    if m > n {
        return false;
    }
    let mut i: usize = 0;
    while i <= n - m
        invariant
            m <= n,
            n == hay@.len(),
            m == needle@.len(),
            i <= n - m + 1,
            forall|k: int| 0 <= k < i ==> #[trigger] hay@.subrange(k, k + needle@.len()) != needle@,
        decreases n - i,
    {
        let mut j: usize = 0;
        let mut differs = false;
        while j < m && !differs
            invariant
                j <= m,
                i + m <= n,
                n == hay@.len(),
                m == needle@.len(),
                forall|t: int| 0 <= t < j ==> hay@[i + t] == needle@[t],
                differs ==> j < m && hay@[i + j] != needle@[j as int],
            decreases m - j + (if differs { 0int } else { 1int }),
        {
            if hay.get_char(i + j) != needle.get_char(j) {
                differs = true;
            } else {
                j = j + 1;
            }
        }
        if !differs {
            assert(hay@.subrange(i as int, i + needle@.len()) =~= needle@);
            return true;
        }
        assert(hay@.subrange(i as int, i + needle@.len())[j as int] != needle@[j as int]);
        i = i + 1;
    }
    false
}

/// `a`, a slash, then `b`, as a new string.
pub fn join_path_of(a: &str, b: &str) -> (r: String)
    ensures
        r@ == join_path(a@, b@),
{
    let mut r = a.to_owned();
    r.push('/');
    r.append(b);
    r
}

/// The text after the last separator of `s`.
pub fn last_segment_of(s: &str, backslash_too: bool) -> (r: String)
    ensures
        r@ == last_segment(s@, backslash_too),
{
    let start = segment_start_of(s, backslash_too);
    proof {
        lemma_segment_start_bounds(s@, backslash_too);
    }
    let n = s.unicode_len();
    s.substring_char(start, n).to_owned()
}

} // verus!
