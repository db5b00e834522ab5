//! Verified text helpers: substring search, string equality, whitespace
//! trimming and filename sanitising over character sequences.

use vstd::prelude::*;
use crate::platform::{char_alnum, char_space, is_alnum_char, is_space_char};

verus! {

/// The needle occurs in the haystack at position `i`.
pub open spec fn contains_at(hay: Seq<char>, needle: Seq<char>, i: int) -> bool {
    0 <= i && i + needle.len() <= hay.len() && hay.subrange(i, i + needle.len()) == needle
}

/// The needle occurs somewhere in the haystack.
pub open spec fn has_sub(hay: Seq<char>, needle: Seq<char>) -> bool {
    exists|i: int| contains_at(hay, needle, i)
}

/// Position of the first occurrence of the needle in the haystack, or -1.
pub open spec fn find_sub(hay: Seq<char>, needle: Seq<char>) -> int
    decreases hay.len(),
{
    if hay.len() < needle.len() {
        -1
    } else if hay.subrange(0, needle.len() as int) == needle {
        0
    } else if hay.len() == 0 {
        -1
    } else if find_sub(hay.drop_first(), needle) == -1 {
        -1
    } else {
        1 + find_sub(hay.drop_first(), needle)
    }
}

proof fn lemma_contains_at_shift(hay: Seq<char>, needle: Seq<char>, k: int)
    requires
        1 <= k,
        k + needle.len() <= hay.len(),
    ensures
        contains_at(hay, needle, k) == contains_at(hay.drop_first(), needle, k - 1),
{
    assert(hay.drop_first().subrange(k - 1, k - 1 + needle.len()) =~= hay.subrange(
        k,
        k + needle.len(),
    ));
}

/// `find_sub` returns -1 exactly when the needle does not occur, and
/// otherwise the position of its first occurrence.
pub proof fn lemma_find_sub(hay: Seq<char>, needle: Seq<char>)
    ensures
        find_sub(hay, needle) == -1 <==> !has_sub(hay, needle),
        find_sub(hay, needle) != -1 ==> contains_at(hay, needle, find_sub(hay, needle)),
        find_sub(hay, needle) != -1 ==> forall|k: int|
            0 <= k < find_sub(hay, needle) ==> !contains_at(hay, needle, k),
    decreases hay.len(),
{
    if hay.len() < needle.len() {
        assert(!has_sub(hay, needle)) by {
            assert forall|i: int| !contains_at(hay, needle, i) by {}
        }
    } else if hay.subrange(0, needle.len() as int) == needle {
        assert(contains_at(hay, needle, 0));
    } else if hay.len() == 0 {
        assert forall|i: int| !contains_at(hay, needle, i) by {
            if i == 0 {
                assert(hay.subrange(0, needle.len() as int) != needle);
            }
        }
    } else {
        lemma_find_sub(hay.drop_first(), needle);
        let r = find_sub(hay.drop_first(), needle);
        if r == -1 {
            assert(!has_sub(hay.drop_first(), needle));
            assert forall|i: int| !contains_at(hay, needle, i) by {
                if i == 0 {
                    assert(hay.subrange(0, needle.len() as int) != needle);
                } else if 1 <= i && i + needle.len() <= hay.len() {
                    lemma_contains_at_shift(hay, needle, i);
                    assert(!contains_at(hay.drop_first(), needle, i - 1));
                }
            }
        } else {
            assert(contains_at(hay.drop_first(), needle, r));
            lemma_contains_at_shift(hay, needle, r + 1);
            assert(contains_at(hay, needle, r + 1));
            assert forall|k: int| 0 <= k < r + 1 implies !contains_at(hay, needle, k) by {
                if k == 0 {
                    assert(hay.subrange(0, needle.len() as int) != needle);
                } else if k + needle.len() <= hay.len() {
                    lemma_contains_at_shift(hay, needle, k);
                    assert(!contains_at(hay.drop_first(), needle, k - 1));
                }
            }
        }
    }
}

/// The needle matches the haystack at position `i`.
fn match_at(hay: &str, needle: &str, i: usize, n_len: usize) -> (r: bool)
    requires
        n_len == needle@.len(),
        i + n_len <= hay@.len(),
        i + n_len <= usize::MAX,
    ensures
        r == (hay@.subrange(i as int, i + n_len) == needle@),
{
    let mut j: usize = 0;
    while j < n_len
        invariant
            j <= n_len,
            n_len == needle@.len(),
            i + n_len <= hay@.len(),
            i + n_len <= usize::MAX,
            forall|k: int| 0 <= k < j ==> hay@[i + k] == needle@[k],
        decreases n_len - j,
    {
        if hay.get_char(i + j) != needle.get_char(j) {
            assert(hay@.subrange(i as int, i + n_len)[j as int] != needle@[j as int]);
            return false;
        }
        j += 1;
    }
    assert(hay@.subrange(i as int, i + n_len) =~= needle@);
    true
}

/// Whether the needle occurs anywhere in the haystack.
pub fn str_contains(hay: &str, needle: &str) -> (r: bool)
    ensures
        r == has_sub(hay@, needle@),
{
    let h_len = hay.unicode_len();
    let n_len = needle.unicode_len();
    if n_len > h_len {
        assert forall|i: int| !contains_at(hay@, needle@, i) by {}
        return false;
    }
    if n_len == 0 {
        assert(hay@.subrange(0, 0) =~= needle@);
        assert(contains_at(hay@, needle@, 0));
        return true;
    }
    let mut i: usize = 0;
    while i <= h_len - n_len
        invariant
            h_len == hay@.len(),
            n_len == needle@.len(),
            0 < n_len <= h_len,
            i <= h_len - n_len + 1,
            forall|k: int| 0 <= k < i ==> !contains_at(hay@, needle@, k),
        decreases h_len - n_len - i + 1,
    {
        if match_at(hay, needle, i, n_len) {
            assert(contains_at(hay@, needle@, i as int));
            return true;
        }
        i += 1;
    }
    assert forall|k: int| !contains_at(hay@, needle@, k) by {
        if 0 <= k && k + needle@.len() <= hay@.len() {
            assert(!contains_at(hay@, needle@, k));
        }
    }
    false
}

/// Position of the first occurrence of the needle, if any.
pub fn str_find(hay: &str, needle: &str) -> (r: Option<usize>)
    ensures
        r is Some ==> r->0 == find_sub(hay@, needle@) && contains_at(
            hay@,
            needle@,
            r->0 as int,
        ),
        r is None ==> !has_sub(hay@, needle@),
{
    proof {
        lemma_find_sub(hay@, needle@);
    }
    let h_len = hay.unicode_len();
    let n_len = needle.unicode_len();
    if n_len > h_len {
        assert forall|i: int| !contains_at(hay@, needle@, i) by {}
        return None;
    }
    if n_len == 0 {
        proof {
            assert(hay@.subrange(0, 0) =~= needle@);
            assert(contains_at(hay@, needle@, 0));
            let f = find_sub(hay@, needle@);
            assert(f != -1);
            if f > 0 {
                assert(!contains_at(hay@, needle@, 0));
            }
        }
        return Some(0);
    }
    let mut i: usize = 0;
    while i <= h_len - n_len
        invariant
            h_len == hay@.len(),
            n_len == needle@.len(),
            0 < n_len <= h_len,
            i <= h_len - n_len + 1,
            forall|k: int| 0 <= k < i ==> !contains_at(hay@, needle@, k),
        decreases h_len - n_len - i + 1,
    {
        if match_at(hay, needle, i, n_len) {
            proof {
                lemma_find_sub(hay@, needle@);
                assert(contains_at(hay@, needle@, i as int));
                let f = find_sub(hay@, needle@);
                assert(f != -1);
                if f < i {
                    assert(!contains_at(hay@, needle@, f));
                }
                if f > i {
                    assert(!contains_at(hay@, needle@, i as int));
                }
            }
            return Some(i);
        }
        i += 1;
    }
    assert forall|k: int| !contains_at(hay@, needle@, k) by {
        if 0 <= k && k + needle@.len() <= hay@.len() {
            assert(!contains_at(hay@, needle@, k));
        }
    }
    None
}

/// The two strings hold the same characters.
pub fn str_eq(a: &str, b: &str) -> (r: bool)
    ensures
        r == (a@ == b@),
{
    let a_len = a.unicode_len();
    let b_len = b.unicode_len();
    if a_len != b_len {
        return false;
    }
    let mut i: usize = 0;
    while i < a_len
        invariant
            a_len == a@.len(),
            a_len == b@.len(),
            i <= a_len,
            forall|k: int| 0 <= k < i ==> a@[k] == b@[k],
        decreases a_len - i,
    {
        if a.get_char(i) != b.get_char(i) {
            return false;
        }
        i += 1;
    }
    assert(a@ =~= b@);
    true
}

/// Every character of the sequence is whitespace.
pub open spec fn all_space(s: Seq<char>) -> bool {
    forall|i: int| 0 <= i < s.len() ==> char_space(s[i])
}

/// Whether the string is empty or holds only whitespace.
pub fn is_blank(s: &str) -> (r: bool)
    ensures
        r == all_space(s@),
{
    let n = s.unicode_len();
    let mut i: usize = 0;
    while i < n
        invariant
            n == s@.len(),
            i <= n,
            forall|k: int| 0 <= k < i ==> char_space(s@[k]),
        decreases n - i,
    {
        if !is_space_char(s.get_char(i)) {
            return false;
        }
        i += 1;
    }
    true
}

/// Number of leading whitespace characters.
pub open spec fn lead_spaces(s: Seq<char>) -> int
    decreases s.len(),
{
    if s.len() == 0 || !char_space(s[0]) {
        0
    } else {
        1 + lead_spaces(s.drop_first())
    }
}

/// Number of trailing whitespace characters.
pub open spec fn trail_spaces(s: Seq<char>) -> int
    decreases s.len(),
{
    if s.len() == 0 || !char_space(s.last()) {
        0
    } else {
        1 + trail_spaces(s.drop_last())
    }
}

/// The sequence with leading and trailing whitespace removed.
pub open spec fn trim_of(s: Seq<char>) -> Seq<char> {
    let t = s.subrange(lead_spaces(s), s.len() as int);
    t.subrange(0, t.len() - trail_spaces(t))
}

proof fn lemma_lead_spaces(s: Seq<char>)
    ensures
        0 <= lead_spaces(s) <= s.len(),
        forall|k: int| 0 <= k < lead_spaces(s) ==> char_space(s[k]),
        lead_spaces(s) < s.len() ==> !char_space(s[lead_spaces(s)]),
    decreases s.len(),
{
    if s.len() != 0 && char_space(s[0]) {
        lemma_lead_spaces(s.drop_first());
        assert forall|k: int| 0 <= k < lead_spaces(s) implies char_space(s[k]) by {
            if k > 0 {
                assert(char_space(s.drop_first()[k - 1]));
            }
        }
        if lead_spaces(s) < s.len() {
            assert(!char_space(s.drop_first()[lead_spaces(s) - 1]));
        }
    }
}

proof fn lemma_trail_spaces(s: Seq<char>)
    ensures
        0 <= trail_spaces(s) <= s.len(),
        forall|k: int| s.len() - trail_spaces(s) <= k < s.len() ==> char_space(s[k]),
        trail_spaces(s) < s.len() ==> !char_space(s[s.len() - trail_spaces(s) - 1]),
    decreases s.len(),
{
    if s.len() != 0 && char_space(s.last()) {
        lemma_trail_spaces(s.drop_last());
        assert forall|k: int| s.len() - trail_spaces(s) <= k < s.len() implies char_space(
            s[k],
        ) by {
            if k < s.len() - 1 {
                assert(char_space(s.drop_last()[k]));
            }
        }
        if trail_spaces(s) < s.len() {
            assert(!char_space(s.drop_last()[s.len() - trail_spaces(s) - 1]));
        }
    }
}

proof fn lemma_lead_spaces_unique(s: Seq<char>, a: int)
    requires
        0 <= a <= s.len(),
        forall|k: int| 0 <= k < a ==> char_space(s[k]),
        a < s.len() ==> !char_space(s[a]),
    ensures
        lead_spaces(s) == a,
    decreases s.len(),
{
    if s.len() == 0 || !char_space(s[0]) {
    } else {
        lemma_lead_spaces_unique(s.drop_first(), a - 1);
    }
}

proof fn lemma_trail_spaces_unique(s: Seq<char>, t: int)
    requires
        0 <= t <= s.len(),
        forall|k: int| s.len() - t <= k < s.len() ==> char_space(s[k]),
        t < s.len() ==> !char_space(s[s.len() - t - 1]),
    ensures
        trail_spaces(s) == t,
    decreases s.len(),
{
    if s.len() == 0 || !char_space(s.last()) {
    } else {
        lemma_trail_spaces_unique(s.drop_last(), t - 1);
    }
}

/// Removes whitespace from both ends of the string.
pub fn trim_whitespace(input: &str) -> (r: String)
    ensures
        r@ == trim_of(input@),
{
    let n = input.unicode_len();
    let mut a: usize = 0;
    while a < n && is_space_char(input.get_char(a))
        invariant
            n == input@.len(),
            a <= n,
            forall|k: int| 0 <= k < a ==> char_space(input@[k]),
        decreases n - a,
    {
        a += 1;
    }
    let mut b: usize = n;
    while b > a && is_space_char(input.get_char(b - 1))
        invariant
            n == input@.len(),
            a <= b <= n,
            forall|k: int| b <= k < n ==> char_space(input@[k]),
        decreases b,
    {
        b -= 1;
    }
    let out = input.substring_char(a, b).to_owned();
    proof {
        if a == n {
            lemma_lead_spaces_unique(input@, a as int);
        } else {
            lemma_lead_spaces_unique(input@, a as int);
        }
        let t = input@.subrange(a as int, n as int);
        assert forall|k: int| t.len() - (n - b) <= k < t.len() implies char_space(t[k]) by {
            assert(t[k] == input@[k + a]);
        }
        if b > a {
            assert(!char_space(input@[b - 1]));
            assert(t[b - 1 - a] == input@[b - 1]);
        }
        lemma_trail_spaces_unique(t, n - b);
        assert(out@ =~= t.subrange(0, t.len() - (n - b)));
    }
    out
}

/// Replaces every character that is neither alphanumeric nor an underscore
/// with an underscore, keeping the length.
pub fn sanitize_filename(raw: &str) -> (r: String)
    ensures
        r@.len() == raw@.len(),
        forall|i: int|
            0 <= i < raw@.len() ==> r@[i] == (if char_alnum(raw@[i]) || raw@[i] == '_' {
                raw@[i]
            } else {
                '_'
            }),
{
    let n = raw.unicode_len();
    let mut out = String::new();
    let mut i: usize = 0;
    while i < n
        invariant
            n == raw@.len(),
            i <= n,
            out@.len() == i,
            forall|k: int|
                0 <= k < i ==> out@[k] == (if char_alnum(raw@[k]) || raw@[k] == '_' {
                    raw@[k]
                } else {
                    '_'
                }),
        decreases n - i,
    {
        let c = raw.get_char(i);
        if is_alnum_char(c) || c == '_' {
            out.push(c);
        } else {
            out.push('_');
        }
        i += 1;
    }
    out
}

/// Appends a trailing slash when the string does not end with one.
pub fn ensure_trailing_slash(s: &str) -> (r: String)
    ensures
        s@.len() > 0 && s@.last() == '/' ==> r@ == s@,
        s@.len() == 0 || s@.last() != '/' ==> r@ == s@.push('/'),
{
    let n = s.unicode_len();
    let mut out = s.to_owned();
    if n == 0 || s.get_char(n - 1) != '/' {
        out.push('/');
    }
    out
}

} // verus!
