//! Verified helpers for searching and editing text, used by the actions to
//! inspect and rewrite file contents and paths.

use vstd::prelude::*;

verus! {

/// `needle` occurs in `hay` starting at index `i`.
pub open spec fn match_at(hay: Seq<char>, needle: Seq<char>, i: int) -> bool {
    0 <= i && i + needle.len() <= hay.len() && hay.subrange(i, i + needle.len()) == needle
}

/// `needle` occurs somewhere in `hay`.
pub open spec fn contains_seq(hay: Seq<char>, needle: Seq<char>) -> bool {
    exists|i: int| match_at(hay, needle, i)
}

/// `hay` begins with `prefix`.
pub open spec fn starts_with_seq(hay: Seq<char>, prefix: Seq<char>) -> bool {
    prefix.len() <= hay.len() && hay.subrange(0, prefix.len() as int) == prefix
}

/// Character count of a string slice.
pub fn str_len(s: &str) -> (n: usize)
    ensures
        n == s@.len(),
{
    s.unicode_len()
}

/// Whether `needle` occurs in `hay` at index `i`.
pub fn match_at_exec(hay: &str, needle: &str, i: usize) -> (r: bool)
    requires
        i + needle@.len() <= hay@.len(),
    ensures
        r == match_at(hay@, needle@, i as int),
{
    let hlen = hay.unicode_len();
    let n = needle.unicode_len();
    let mut j: usize = 0;
    while j < n
        invariant
            hlen == hay@.len(),
            n == needle@.len(),
            i + n <= hay@.len(),
            0 <= j <= n,
            forall|k: int| 0 <= k < j ==> hay@[i + k] == needle@[k],
        decreases n - j,
    {
        if hay.get_char(i + j) != needle.get_char(j) {
            proof {
                assert(hay@.subrange(i as int, i + needle@.len())[j as int] == hay@[i + j]);
            }
            return false;
        }
        j += 1;
    }
    proof {
        assert(hay@.subrange(i as int, i + needle@.len()) =~= needle@);
    }
    true
}

/// Index of the first occurrence of `needle` in `hay`, if any.
pub fn find_first(hay: &str, needle: &str) -> (r: Option<usize>)
    ensures
        match r {
            Some(i) => match_at(hay@, needle@, i as int) && forall|k: int|
                0 <= k < i ==> !match_at(hay@, needle@, k),
            None => !contains_seq(hay@, needle@),
        },
{
    let hn = hay.unicode_len();
    let nn = needle.unicode_len();
    if nn > hn {
        return None;
    }
    let mut i: usize = 0;
    loop
        invariant
            hn == hay@.len(),
            nn == needle@.len(),
            nn <= hn,
            0 <= i <= hn - nn,
            forall|k: int| 0 <= k < i ==> !match_at(hay@, needle@, k),
        decreases hn - nn - i,
    {
        if match_at_exec(hay, needle, i) {
            return Some(i);
        }
        if i == hn - nn {
            return None;
        }
        i += 1;
    }
}

/// Index of the last occurrence of `needle` in `hay`, if any.
pub fn find_last(hay: &str, needle: &str) -> (r: Option<usize>)
    ensures
        match r {
            Some(i) => match_at(hay@, needle@, i as int) && forall|k: int|
                i < k ==> !match_at(hay@, needle@, k),
            None => !contains_seq(hay@, needle@),
        },
{
    let hn = hay.unicode_len();
    let nn = needle.unicode_len();
    if nn > hn {
        return None;
    }
    let mut i: usize = hn - nn;
    loop
        invariant
            hn == hay@.len(),
            nn == needle@.len(),
            nn <= hn,
            0 <= i <= hn - nn,
            forall|k: int| i < k ==> !match_at(hay@, needle@, k),
        decreases i,
    {
        if match_at_exec(hay, needle, i) {
            return Some(i);
        }
        if i == 0 {
            return None;
        }
        i -= 1;
    }
}

/// Whether `needle` occurs anywhere in `hay`.
pub fn contains_str(hay: &str, needle: &str) -> (r: bool)
    ensures
        r == contains_seq(hay@, needle@),
{
    match find_first(hay, needle) {
        Some(_) => true,
        None => false,
    }
}

/// Whether `hay` begins with `prefix`.
pub fn starts_with_str(hay: &str, prefix: &str) -> (r: bool)
    ensures
        r == starts_with_seq(hay@, prefix@),
{
    let hn = hay.unicode_len();
    let pn = prefix.unicode_len();
    if pn > hn {
        return false;
    }
    match_at_exec(hay, prefix, 0)
}

/// The concatenation of two string slices.
pub fn concat_str(a: &str, b: &str) -> (r: String)
    ensures
        r@ == a@ + b@,
{
    let mut s = a.to_owned();
    s.append(b);
    s
}

/// The concatenation of three string slices.
pub fn concat3(a: &str, b: &str, c: &str) -> (r: String)
    ensures
        r@ == a@ + b@ + c@,
{
    let mut s = a.to_owned();
    s.append(b);
    s.append(c);
    s
}

/// `s` with the span of `n` characters starting at `i` removed.
pub fn remove_span(s: &str, i: usize, n: usize) -> (r: String)
    requires
        i + n <= s@.len(),
    ensures
        r@ == s@.subrange(0, i as int) + s@.subrange(i + n, s@.len() as int),
{
    let len = s.unicode_len();
    let mut head = s.substring_char(0, i).to_owned();
    head.append(s.substring_char(i + n, len));
    head
}

/// `i` is the first occurrence of `needle` in `hay`.
pub open spec fn is_first_match(hay: Seq<char>, needle: Seq<char>, i: int) -> bool {
    match_at(hay, needle, i) && forall|k: int| 0 <= k < i ==> !match_at(hay, needle, k)
}

/// `i` is the last occurrence of `needle` in `hay`.
pub open spec fn is_last_match(hay: Seq<char>, needle: Seq<char>, i: int) -> bool {
    match_at(hay, needle, i) && forall|k: int| i < k ==> !match_at(hay, needle, k)
}

/// `s` with the span of `n` elements starting at `i` removed.
pub open spec fn without_span(s: Seq<char>, i: int, n: int) -> Seq<char> {
    s.subrange(0, i) + s.subrange(i + n, s.len() as int)
}

/// An owned copy of a string.
pub fn copy_string(s: &String) -> (r: String)
    ensures
        r@ == s@,
{
    s.as_str().to_owned()
}

/// `s` with its first occurrence of `pat` replaced by `rep`; `s` itself
/// when `pat` does not occur.
pub open spec fn replaced_first(s: Seq<char>, pat: Seq<char>, rep: Seq<char>) -> Seq<char> {
    if contains_seq(s, pat) {
        let i = choose|i: int| is_first_match(s, pat, i);
        s.subrange(0, i) + rep + s.subrange(i + pat.len(), s.len() as int)
    } else {
        s
    }
}

/// Replace the first occurrence of `pat` in `s` by `rep`, if any.
pub fn replace_first(s: &str, pat: &str, rep: &str) -> (r: String)
    ensures
        r@ == replaced_first(s@, pat@, rep@),
{
    let n = str_len(s);
    match find_first(s, pat) {
        Some(i) => {
            let pn = str_len(pat);
            let head = s.substring_char(0, i);
            let tail = s.substring_char(i + pn, n);
            let out = concat3(head, rep, tail);
            proof {
                assert(is_first_match(s@, pat@, i as int));
                let j = choose|j: int| is_first_match(s@, pat@, j);
                if j < i {
                    assert(match_at(s@, pat@, j));
                } else if j > i {
                    assert(match_at(s@, pat@, i as int));
                }
                assert(j == i);
            }
            out
        },
        None => s.to_owned(),
    }
}

} // verus!


