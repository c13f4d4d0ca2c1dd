//! Pure path-string arithmetic: extracting the final segment of a path
//! and joining a directory with a file name. These decide where a backup
//! lands, so their contracts pin the result down character for character.

use vstd::prelude::*;
use crate::validator::{has_parent_marker, path_allowed};

verus! {

/// `s` with every trailing `/` removed.
pub open spec fn drop_trailing_slashes(s: Seq<char>) -> Seq<char>
    decreases s.len(),
{
    if s.len() > 0 && s.last() == '/' {
        drop_trailing_slashes(s.drop_last())
    } else {
        s
    }
}

/// The characters of `s` that follow its last `/` (all of `s` when it
/// has none; empty when it ends in one).
pub open spec fn after_last_slash(s: Seq<char>) -> Seq<char>
    decreases s.len(),
{
    if s.len() == 0 {
        Seq::empty()
    } else if s.last() == '/' {
        Seq::empty()
    } else {
        after_last_slash(s.drop_last()).push(s.last())
    }
}

/// The final path segment of `s`: what follows the last separator once
/// trailing separators are dropped. `None` when nothing is left — the
/// empty path, or a path made of separators only.
pub open spec fn final_segment_spec(s: Seq<char>) -> Option<Seq<char>> {
    let t = drop_trailing_slashes(s);
    if after_last_slash(t).len() == 0 {
        None
    } else {
        Some(after_last_slash(t))
    }
}

/// When everything from position `j` to the end of `s` is free of
/// separators and `j` sits at the start or right after a separator, the
/// suffix after the last slash is exactly `s[j..]`.
proof fn lemma_after_last_slash_suffix(s: Seq<char>, j: int)
    requires
        0 <= j < s.len(),
        j == 0 || s[j - 1] == '/',
        forall|k: int| j <= k < s.len() ==> s[k] != '/',
    ensures
        after_last_slash(s) == s.subrange(j, s.len() as int),
    decreases s.len(),
{
    assert(s.last() != '/');
    if j == s.len() - 1 {
        if j == 0 {
            assert(s.drop_last().len() == 0);
        } else {
            assert(s.drop_last().last() == '/');
        }
        assert(after_last_slash(s.drop_last()).len() == 0);
        assert(after_last_slash(s) =~= s.subrange(j, s.len() as int));
    } else {
        let t = s.drop_last();
        assert(forall|k: int| j <= k < t.len() ==> t[k] != '/');
        assert(j == 0 || t[j - 1] == '/');
        lemma_after_last_slash_suffix(t, j);
        assert(after_last_slash(s) =~= s.subrange(j, s.len() as int));
    }
}

/// The final path segment of `path`, as `final_segment_spec` defines it.
pub fn final_segment(path: &str) -> (r: Option<String>)
    ensures
        r matches Some(seg) ==> final_segment_spec(path@) == Some(seg@),
        r is Some <==> final_segment_spec(path@) is Some,
{
    let n = path.unicode_len();
    proof {
        assert(path@.subrange(0, n as int) =~= path@);
    }
    let mut e: usize = n;
    while e > 0 && path.get_char(e - 1) == '/'
        invariant
            e <= n,
            n == path@.len(),
            drop_trailing_slashes(path@) == drop_trailing_slashes(
                path@.subrange(0, e as int),
            ),
        decreases e,
    {
        proof {
            assert(path@.subrange(0, e as int).last() == '/');
            assert(path@.subrange(0, e as int).drop_last() =~= path@.subrange(0, e as int - 1));
        }
        e = e - 1;
    }
    if e == 0 {
        proof {
            assert(path@.subrange(0, 0).len() == 0);
            assert(drop_trailing_slashes(path@).len() == 0);
            assert(after_last_slash(drop_trailing_slashes(path@)).len() == 0);
        }
        return None;
    }
    let ghost t = path@.subrange(0, e as int);
    proof {
        assert(t.last() != '/');
        assert(drop_trailing_slashes(path@) == t);
    }
    let mut b: usize = e;
    while b > 0 && path.get_char(b - 1) != '/'
        invariant
            b <= e,
            0 < e <= n,
            n == path@.len(),
            path@[e - 1] != '/',
            forall|k: int| b <= k < e ==> path@[k] != '/',
        decreases b,
    {
        b = b - 1;
    }
    assert(b < e);
    let seg = path.substring_char(b, e);
    proof {
        assert(forall|k: int| b <= k < t.len() ==> t[k] == path@[k] && t[k] != '/');
        assert(b == 0 || t[b - 1] == '/');
        lemma_after_last_slash_suffix(t, b as int);
        assert(seg@ =~= t.subrange(b as int, t.len() as int));
        assert(seg@.len() > 0);
    }
    Some(String::from_str(seg))
}

/// A parent-directory marker found in a contiguous piece of `s` is a
/// marker in `s`.
proof fn lemma_marker_in_subrange(s: Seq<char>, a: int, b: int)
    requires
        0 <= a <= b <= s.len(),
        has_parent_marker(s.subrange(a, b)),
    ensures
        has_parent_marker(s),
{
    let sub = s.subrange(a, b);
    let i = choose|i: int| 0 <= i && i + 1 < sub.len() && #[trigger] sub[i] == '.' && sub[i + 1]
        == '.';
    assert(s[a + i] == '.' && s[a + i + 1] == '.');
}

/// `drop_trailing_slashes(s)` is a prefix of `s`.
proof fn lemma_drop_trailing_slashes_is_prefix(s: Seq<char>)
    ensures
        drop_trailing_slashes(s).len() <= s.len(),
        drop_trailing_slashes(s) == s.subrange(0, drop_trailing_slashes(s).len() as int),
    decreases s.len(),
{
    if s.len() > 0 && s.last() == '/' {
        lemma_drop_trailing_slashes_is_prefix(s.drop_last());
        assert(s.drop_last() =~= s.subrange(0, s.len() - 1));
        assert(drop_trailing_slashes(s) =~= s.subrange(
            0,
            drop_trailing_slashes(s).len() as int,
        ));
    } else {
        assert(drop_trailing_slashes(s) =~= s.subrange(0, s.len() as int));
    }
}

/// `after_last_slash(s)` is a suffix of `s`.
proof fn lemma_after_last_slash_is_suffix(s: Seq<char>)
    ensures
        after_last_slash(s).len() <= s.len(),
        after_last_slash(s) == s.subrange(s.len() - after_last_slash(s).len(), s.len() as int),
    decreases s.len(),
{
    if s.len() == 0 || s.last() == '/' {
        assert(after_last_slash(s) =~= s.subrange(s.len() as int, s.len() as int));
    } else {
        lemma_after_last_slash_is_suffix(s.drop_last());
        assert(s.drop_last() =~= s.subrange(0, s.len() - 1));
        assert(after_last_slash(s) =~= s.subrange(
            s.len() - after_last_slash(s).len(),
            s.len() as int,
        ));
    }
}

/// Law: extracting the final segment of a path never introduces a
/// parent-directory marker — the segment of a validated path is itself
/// free of markers.
pub proof fn lemma_final_segment_keeps_safety(s: Seq<char>)
    requires
        path_allowed(s),
    ensures
        final_segment_spec(s) matches Some(seg) ==> path_allowed(seg),
{
    if let Some(seg) = final_segment_spec(s) {
        let t = drop_trailing_slashes(s);
        if has_parent_marker(seg) {
            lemma_after_last_slash_is_suffix(t);
            lemma_marker_in_subrange(t, t.len() - seg.len(), t.len() as int);
            lemma_drop_trailing_slashes_is_prefix(s);
            lemma_marker_in_subrange(s, 0, t.len() as int);
        }
    }
}

/// `dir` and `name` joined by a single separator: `name` alone when
/// `dir` is empty, and no separator added when `dir` already ends in
/// one.
pub open spec fn join_spec(dir: Seq<char>, name: Seq<char>) -> Seq<char> {
    if dir.len() == 0 {
        name
    } else if dir.last() == '/' {
        dir + name
    } else {
        dir + "/"@ + name
    }
}

/// Law: joining never introduces a parent-directory marker — when both
/// the directory and the name are free of markers, so is the joined
/// path. The inserted separator, or the directory's own trailing one,
/// keeps the two dots of a would-be marker from ever meeting across the
/// boundary.
pub proof fn lemma_join_keeps_safety(dir: Seq<char>, name: Seq<char>)
    requires
        path_allowed(dir),
        path_allowed(name),
    ensures
        path_allowed(join_spec(dir, name)),
{
    reveal_strlit("/");
    let j = join_spec(dir, name);
    if dir.len() == 0 {
    } else if dir.last() == '/' {
        if has_parent_marker(j) {
            let i = choose|i: int| 0 <= i && i + 1 < j.len() && #[trigger] j[i] == '.' && j[i + 1]
                == '.';
            if i + 1 < dir.len() {
                assert(dir[i] == '.' && dir[i + 1] == '.');
            } else if i >= dir.len() {
                assert(name[i - dir.len()] == '.' && name[i + 1 - dir.len()] == '.');
            } else {
                assert(j[i] == dir.last());
            }
        }
    } else {
        assert("/"@.len() == 1 && "/"@[0] == '/');
        if has_parent_marker(j) {
            let i = choose|i: int| 0 <= i && i + 1 < j.len() && #[trigger] j[i] == '.' && j[i + 1]
                == '.';
            if i + 1 < dir.len() {
                assert(dir[i] == '.' && dir[i + 1] == '.');
            } else if i > dir.len() {
                assert(name[i - dir.len() - 1] == '.' && name[i - dir.len()] == '.');
            } else {
                assert(j[dir.len() as int] == '/');
            }
        }
    }
}

/// Joins a directory and a file name, as `join_spec` defines it.
pub fn join_path(dir: &str, name: &str) -> (r: String)
    ensures
        r@ == join_spec(dir@, name@),
{
    let n = dir.unicode_len();
    if n == 0 {
        return String::from_str(name);
    }
    let mut r = String::from_str(dir);
    if dir.get_char(n - 1) != '/' {
        r.append("/");
    }
    r.append(name);
    r
}

} // verus!
