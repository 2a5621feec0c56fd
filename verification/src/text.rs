//! String helpers shared by the registry and the draft tables: locating a
//! URI's fragment, stripping a trailing slash, and exact equality of `&str`.

use vstd::prelude::*;

verus! {

/// Length of the prefix of `s` that precedes its first `'#'`; `s.len()` when
/// `s` holds no `'#'` at all.
pub open spec fn first_hash_index(s: Seq<char>) -> int
    decreases s.len(),
{
    if s.len() == 0 {
        0
    } else if s[0] == '#' {
        0
    } else {
        1 + first_hash_index(s.drop_first())
    }
}

/// The URI with any `#fragment` suffix removed.
pub open spec fn fragment_stripped(s: Seq<char>) -> Seq<char> {
    s.take(first_hash_index(s))
}

/// The string with a single trailing `'/'` removed, when it ends in one.
pub open spec fn trailing_slash_stripped(s: Seq<char>) -> Seq<char> {
    if s.len() > 0 && s.last() == '/' {
        s.drop_last()
    } else {
        s
    }
}

/// A scan that saw no `'#'` before `i` and stopped at `'#'` or at the end
/// has found exactly `first_hash_index`.
pub proof fn lemma_first_hash_index_of_scan(s: Seq<char>, i: int)
    requires
        0 <= i <= s.len(),
        forall|j: int| 0 <= j < i ==> s[j] != '#',
        i < s.len() ==> s[i] == '#',
    ensures
        first_hash_index(s) == i,
    decreases s.len(),
{
    if s.len() == 0 {
    } else if s[0] == '#' {
    } else {
        assert(forall|j: int| 0 <= j < i - 1 ==> s.drop_first()[j] != '#');
        lemma_first_hash_index_of_scan(s.drop_first(), i - 1);
    }
}

/// A string without `'#'` is left whole by `fragment_stripped`.
pub proof fn lemma_fragment_stripped_no_hash(s: Seq<char>)
    requires
        forall|j: int| 0 <= j < s.len() ==> s[j] != '#',
    ensures
        fragment_stripped(s) == s,
{
    lemma_first_hash_index_of_scan(s, s.len() as int);
    assert(s.take(s.len() as int) =~= s);
}

/// Relies on `str`'s `PartialEq`: two string slices are equal exactly when
/// their character sequences are.
#[verifier::external_body]
pub fn str_eq(a: &str, b: &str) -> (r: bool)
    ensures
        r == (a@ == b@),
{
    a == b
}

} // verus!
