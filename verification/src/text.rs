//! Verified text primitives: character-level string equality, first-occurrence
//! search, and first-occurrence substitution, the building block of template
//! rendering.

use vstd::prelude::*;
use vstd::string::*;

verus! {

/// Relies on std's `String::push`: appends exactly one character at the end.
#[verifier::external_body]
pub fn push_char(s: &mut String, c: char)
    ensures
        final(s)@ == old(s)@.push(c),
{
    s.push(c);
}

/// Character-for-character string equality.
pub fn str_eq(a: &str, b: &str) -> (r: bool)
    ensures
        r == (a@ == b@),
{
    let n: usize = a.unicode_len();
    let m: usize = b.unicode_len();
    if n != m {
        return false;
    }
    let mut i: usize = 0;
    while i < n
        invariant
            n == a@.len(),
            n == b@.len(),
            i <= n,
            forall|k: int| 0 <= k < i ==> a@[k] == b@[k],
        decreases n - i,
    {
        if a.get_char(i) != b.get_char(i) {
            return false;
        }
        i += 1;
    }
    proof {
        assert(a@ =~= b@);
    }
    true
}

/// `needle` occurs in `hay` starting at index `i`.
pub open spec fn occurs_at(hay: Seq<char>, needle: Seq<char>, i: int) -> bool {
    &&& 0 <= i
    &&& i + needle.len() <= hay.len()
    &&& hay.subrange(i, i + needle.len() as int) == needle
}

/// Index of the first occurrence of `needle` in `hay` at or after `from`.
pub open spec fn find_from(hay: Seq<char>, needle: Seq<char>, from: int) -> Option<int>
    decreases hay.len() - from + 1,
{
    if from < 0 || from + needle.len() > hay.len() {
        None
    } else if occurs_at(hay, needle, from) {
        Some(from)
    } else {
        find_from(hay, needle, from + 1)
    }
}

/// `find_from` returns the least occurrence index at or after `from`,
/// and `None` exactly when there is none.
pub proof fn lemma_find_from_props(hay: Seq<char>, needle: Seq<char>, from: int)
    requires
        0 <= from,
    ensures
        match find_from(hay, needle, from) {
            Some(i) => from <= i && occurs_at(hay, needle, i) && (forall|j: int|
                from <= j < i ==> !occurs_at(hay, needle, j)),
            None => forall|j: int| from <= j ==> !occurs_at(hay, needle, j),
        },
    decreases hay.len() - from + 1,
{
    if from + needle.len() > hay.len() {
        assert forall|j: int| from <= j implies !occurs_at(hay, needle, j) by {
            assert(j + needle.len() >= from + needle.len());
        }
    } else if occurs_at(hay, needle, from) {
    } else {
        lemma_find_from_props(hay, needle, from + 1);
    }
}

/// `needle` matches `hay` at character position `i`.
fn match_at(hay: &str, i: usize, needle: &str) -> (r: bool)
    requires
        i + needle@.len() <= hay@.len(),
        hay@.len() <= usize::MAX,
    ensures
        r == occurs_at(hay@, needle@, i as int),
{
    let m: usize = needle.unicode_len();
    let mut j: usize = 0;
    while j < m
        invariant
            m == needle@.len(),
            i + m <= hay@.len() <= usize::MAX,
            j <= m,
            forall|k: int| 0 <= k < j ==> hay@[i + k] == needle@[k],
        decreases m - j,
    {
        if hay.get_char(i + j) != needle.get_char(j) {
            proof {
                if occurs_at(hay@, needle@, i as int) {
                    assert(hay@.subrange(i as int, i + m as int)[j as int] == needle@[j as int]);
                }
            }
            return false;
        }
        j += 1;
    }
    proof {
        assert(hay@.subrange(i as int, i + m as int) =~= needle@);
    }
    true
}

/// First occurrence of `needle` in `hay`, as a character index.
pub fn find_first(hay: &str, needle: &str) -> (r: Option<usize>)
    ensures
        match r {
            Some(i) => find_from(hay@, needle@, 0) == Some(i as int),
            None => find_from(hay@, needle@, 0) is None,
        },
{
    let n: usize = hay.unicode_len();
    let m: usize = needle.unicode_len();
    if m > n {
        return None;
    }
    if m == 0 {
        proof {
            assert(hay@.subrange(0, 0) =~= needle@);
        }
        return Some(0);
    }
    let mut i: usize = 0;
    while i <= n - m
        invariant
            n == hay@.len(),
            m == needle@.len(),
            1 <= m <= n <= usize::MAX,
            i <= n - m + 1,
            forall|j: int| 0 <= j < i ==> !occurs_at(hay@, needle@, j),
        decreases n - m - i + 1,
    {
        if match_at(hay, i, needle) {
            proof {
                lemma_find_from_props(hay@, needle@, 0);
            }
            return Some(i);
        }
        i += 1;
    }
    proof {
        assert forall|j: int| 0 <= j implies !occurs_at(hay@, needle@, j) by {
            if j >= i {
                assert(j + needle@.len() > hay@.len());
            }
        }
        lemma_find_from_props(hay@, needle@, 0);
    }
    None
}

/// `hay` with the first occurrence of `needle` (if any) replaced by `repl`.
pub open spec fn replace_first_spec(hay: Seq<char>, needle: Seq<char>, repl: Seq<char>) -> Seq<
    char,
> {
    match find_from(hay, needle, 0) {
        Some(i) => hay.subrange(0, i) + repl + hay.subrange(
            i + needle.len() as int,
            hay.len() as int,
        ),
        None => hay,
    }
}

/// Replace the first occurrence of `needle` in `hay` with `repl`;
/// a `hay` without `needle` is returned unchanged.
pub fn replace_first(hay: &str, needle: &str, repl: &str) -> (r: String)
    ensures
        r@ == replace_first_spec(hay@, needle@, repl@),
{
    let n: usize = hay.unicode_len();
    let m: usize = needle.unicode_len();
    match find_first(hay, needle) {
        Some(i) => {
            proof {
                lemma_find_from_props(hay@, needle@, 0);
            }
            let mut out: String = hay.substring_char(0, i).to_owned();
            out.append(repl);
            out.append(hay.substring_char(i + m, n));
            out
        },
        None => hay.to_owned(),
    }
}

/// First-occurrence substitution touches nothing past the substituted
/// occurrence: a later occurrence of `needle` survives, shifted by the
/// difference in length, as literal text of the result.
pub proof fn lemma_replace_keeps_later_occurrence(
    hay: Seq<char>,
    needle: Seq<char>,
    repl: Seq<char>,
    j: int,
)
    requires
        find_from(hay, needle, 0) matches Some(i) && i + needle.len() <= j,
        occurs_at(hay, needle, j),
    ensures
        occurs_at(
            replace_first_spec(hay, needle, repl),
            needle,
            j - needle.len() + repl.len(),
        ),
{
    let i = find_from(hay, needle, 0)->Some_0;
    lemma_find_from_props(hay, needle, 0);
    let res = replace_first_spec(hay, needle, repl);
    let m = needle.len() as int;
    let p = j - m + repl.len() as int;
    assert(res.len() == hay.len() - m + repl.len());
    assert forall|k: int| 0 <= k < m implies res[p + k] == needle[k] by {
        assert(res[p + k] == hay.subrange(i + m, hay.len() as int)[p + k - i - repl.len()]);
        assert(hay.subrange(i + m, hay.len() as int)[p + k - i - repl.len()] == hay[j + k]);
        assert(hay.subrange(j, j + m)[k] == hay[j + k]);
    }
    assert(res.subrange(p, p + m) =~= needle);
}

} // verus!
