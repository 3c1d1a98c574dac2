//! Substring search and the name-based field classification: a field whose
//! name contains the padding marker is skipped, and a field whose type tag
//! contains the pointer marker is treated as pointer-valued.

use vstd::prelude::*;
use vstd::string::*;

verus! {

/// `needle` occurs in `hay` starting at character position `i`.
pub open spec fn matches_at(hay: Seq<char>, needle: Seq<char>, i: int) -> bool {
    0 <= i && i + needle.len() <= hay.len() && hay.subrange(i, i + needle.len()) == needle
}

/// `needle` occurs somewhere in `hay`.
pub open spec fn contains_sub(hay: Seq<char>, needle: Seq<char>) -> bool {
    exists|i: int| matches_at(hay, needle, i)
}

/// The marker substring that flags a field name as structural padding.
pub open spec fn pad_marker() -> Seq<char> {
    "_pad"@
}

/// The marker substring that flags a type tag as pointer-valued.
pub open spec fn pointer_marker() -> Seq<char> {
    "Pointer"@
}

/// A field with this name is padding and produces no output.
pub open spec fn is_padding_name(name: Seq<char>) -> bool {
    contains_sub(name, pad_marker())
}

/// A field with this type tag is pointer-valued and is followed, not printed.
pub open spec fn is_pointer_tag(tag: Seq<char>) -> bool {
    contains_sub(tag, pointer_marker())
}

/// `needle` occurs in `hay` exactly at position `i`.
fn match_at(hay: &str, needle: &str, i: usize, n: usize, m: usize) -> (r: bool)
    requires
        n == hay@.len(),
        m == needle@.len(),
        i + m <= n,
    ensures
        r == matches_at(hay@, needle@, i as int),
{
    let mut j: usize = 0;
    while j < m
        invariant
            n == hay@.len(),
            m == needle@.len(),
            i + m <= n,
            j <= m,
            forall|k: int| 0 <= k < j ==> hay@[i + k] == needle@[k],
        decreases m - j,
    {
        if hay.get_char(i + j) != needle.get_char(j) {
            assert(!matches_at(hay@, needle@, i as int)) by {
                if matches_at(hay@, needle@, i as int) {
                    assert(hay@.subrange(i as int, i + m as int)[j as int] == needle@[j as int]);
                }
            }
            return false;
        }
        j += 1;
    }
    assert(hay@.subrange(i as int, i + m as int) =~= needle@);
    true
}

/// Whether `needle` occurs anywhere in `hay`, by a left-to-right scan.
pub fn contains_substr(hay: &str, needle: &str) -> (r: bool)
    ensures
        r == contains_sub(hay@, needle@),
{
    let n = hay.unicode_len();
    let m = needle.unicode_len();
    if m > n {
        assert(forall|i: int| !matches_at(hay@, needle@, i));
        return false;
    }
    if m == 0 {
        assert(matches_at(hay@, needle@, 0)) by {
            assert(hay@.subrange(0, 0) =~= needle@);
        }
        return true;
    }
    let mut i: usize = 0;
    loop
        invariant
            n == hay@.len(),
            m == needle@.len(),
            1 <= m <= n,
            i <= n - m + 1,
            forall|k: int| 0 <= k < i ==> !matches_at(hay@, needle@, k),
        decreases n - m + 1 - i,
    {
        if i > n - m {
            assert(forall|k: int| i <= k ==> !matches_at(hay@, needle@, k));
            return false;
        }
        if match_at(hay, needle, i, n, m) {
            return true;
        }
        i += 1;
    }
}

/// Whether a field with this name is padding.
pub fn name_is_padding(name: &str) -> (r: bool)
    ensures
        r == is_padding_name(name@),
{
    contains_substr(name, "_pad")
}

/// Whether a field with this type tag is pointer-valued.
pub fn tag_is_pointer(tag: &str) -> (r: bool)
    ensures
        r == is_pointer_tag(tag@),
{
    contains_substr(tag, "Pointer")
}

} // verus!
