//! Path validation: the sole defense against directory traversal.
//!
//! A path string is allowed only if it nowhere contains the two-character
//! parent-directory marker `..`. Structural decomposition into
//! `/`-separated components cannot yield a parent-directory component
//! without such a marker appearing in the raw string, so this single
//! check also rules out every parent-directory component
//! (`lemma_traversal_always_rejected`).

use vstd::prelude::*;

verus! {

/// Two consecutive `.` characters occur somewhere in `s`.
pub open spec fn has_parent_marker(s: Seq<char>) -> bool {
    exists|i: int| 0 <= i && i + 1 < s.len() && #[trigger] s[i] == '.' && s[i + 1] == '.'
}

/// A path string is allowed exactly when it carries no parent-directory
/// marker.
pub open spec fn path_allowed(s: Seq<char>) -> bool {
    !has_parent_marker(s)
}

/// The slice `[i, j)` of `s` is one `/`-separated path component:
/// it is delimited by the string's ends or by separators, and holds
/// no separator itself.
pub open spec fn is_component_range(s: Seq<char>, i: int, j: int) -> bool {
    &&& 0 <= i < j <= s.len()
    &&& (i == 0 || s[i - 1] == '/')
    &&& (j == s.len() || s[j] == '/')
    &&& forall|k: int| i <= k < j ==> s[k] != '/'
}

/// Structural decomposition of `s` yields a parent-directory component:
/// some `/`-separated component is exactly `..`.
pub open spec fn has_parent_component(s: Seq<char>) -> bool {
    exists|i: int, j: int|
        #[trigger] is_component_range(s, i, j) && j == i + 2 && s[i] == '.' && s[i + 1] == '.'
}

/// Checks that a path is safe: blocks every path-traversal attempt.
///
/// Returns true exactly when the raw string holds no parent-directory
/// marker; by `lemma_traversal_always_rejected` this also refuses every
/// path whose component decomposition yields a parent-directory
/// component.
pub fn is_valid_path(input: &str) -> (r: bool)
    ensures
        r == path_allowed(input@),
{
    let n = input.unicode_len();
    if n == 0 {
        return true;
    }
    let mut i: usize = 0;
    while i + 1 < n
        invariant
            n == input@.len(),
            i < n,
            forall|k: int| 0 <= k < i ==> !(#[trigger] input@[k] == '.' && input@[k + 1] == '.'),
        decreases n - i,
    {
        if input.get_char(i) == '.' && input.get_char(i + 1) == '.' {
            assert(has_parent_marker(input@)) by {
                assert(input@[i as int] == '.' && input@[i as int + 1] == '.');
            }
            return false;
        }
        i = i + 1;
    }
    assert(!has_parent_marker(input@)) by {
        assert(forall|k: int|
            0 <= k && k + 1 < input@.len() ==> !(#[trigger] input@[k] == '.' && input@[k + 1]
                == '.'));
    }
    true
}

/// Law: every path string containing a parent-directory marker or a
/// parent-directory component is rejected by validation.
pub proof fn lemma_traversal_always_rejected(s: Seq<char>)
    requires
        has_parent_marker(s) || has_parent_component(s),
    ensures
        !path_allowed(s),
{
    if has_parent_component(s) {
        let (i, j) = choose|i: int, j: int|
            #[trigger] is_component_range(s, i, j) && j == i + 2 && s[i] == '.' && s[i + 1] == '.';
        assert(0 <= i && i + 1 < s.len() && s[i] == '.' && s[i + 1] == '.');
    }
}

} // verus!
