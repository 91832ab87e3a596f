//! Output-root relative path resolution. Chunk paths are stored as
//! `/`-separated paths without a leading separator; a path can be served
//! only when it lies strictly inside the output root (or the root is
//! empty, the filesystem root). A path that cannot be expressed relative
//! to the output root is a fatal condition for the caller.

use vstd::prelude::*;
use vstd::string::StrSliceExecFns;

use crate::text::str_to_string;

verus! {

/// The path of `path` relative to `root`: the whole path when the root is
/// empty, the remainder behind `root` and one separator when `path` lies
/// strictly inside `root`, and nothing otherwise (in particular for
/// `path == root` with a non-empty root).
pub open spec fn rel_path_of(root: Seq<char>, path: Seq<char>) -> Option<Seq<char>> {
    if root.len() == 0 {
        Some(path)
    } else if path.len() > root.len() && path.take(root.len() as int) == root && path[root.len() as int]
        == '/' {
        Some(path.skip(root.len() + 1 as int))
    } else {
        None
    }
}

/// The file name of a path: everything behind the last separator.
pub open spec fn file_name_of(path: Seq<char>) -> Seq<char>
    decreases path.len(),
{
    if path.len() == 0 {
        Seq::empty()
    } else if path.last() == '/' {
        Seq::empty()
    } else {
        file_name_of(path.drop_last()).push(path.last())
    }
}

proof fn lemma_file_name_skip(p: Seq<char>, start: int)
    requires
        0 <= start <= p.len(),
        forall|k: int| start <= k < p.len() ==> p[k] != '/',
        start > 0 ==> p[start - 1] == '/',
    ensures
        file_name_of(p) == p.skip(start),
    decreases p.len() - start,
{
    if start == p.len() {
        if start > 0 {
            assert(p.last() == '/');
        }
        assert(file_name_of(p) =~= p.skip(start));
    } else {
        assert(p.last() != '/');
        lemma_file_name_skip(p.drop_last(), start);
        assert(p.drop_last().skip(start).push(p.last()) =~= p.skip(start));
    }
}

/// Resolves `path` relative to `root`, as [`rel_path_of`] states.
pub fn get_path_to(root: &str, path: &str) -> (r: Option<String>)
    ensures
        match r {
            Some(s) => rel_path_of(root@, path@) == Some(s@),
            None => rel_path_of(root@, path@) is None,
        },
{
    let rl = root.unicode_len();
    let pl = path.unicode_len();
    if rl == 0 {
        return Some(str_to_string(path));
    }
    if pl <= rl {
        assert(rel_path_of(root@, path@) is None);
        return None;
    }
    let mut i: usize = 0;
    while i < rl
        invariant
            rl == root@.len(),
            pl == path@.len(),
            pl > rl,
            i <= rl,
            forall|j: int| 0 <= j < i ==> path@[j] == root@[j],
        decreases rl - i,
    {
        if path.get_char(i) != root.get_char(i) {
            assert(path@.take(rl as int)[i as int] != root@[i as int]);
            return None;
        }
        i = i + 1;
    }
    assert(path@.take(rl as int) =~= root@);
    if path.get_char(rl) != '/' {
        return None;
    }
    let rest = path.substring_char(rl + 1, pl);
    assert(rest@ =~= path@.skip(rl + 1 as int));
    Some(str_to_string(rest))
}

/// Returns the file name of `path`, as [`file_name_of`] states.
pub fn file_name(path: &str) -> (r: String)
    ensures
        r@ == file_name_of(path@),
{
    let n = path.unicode_len();
    let mut j: usize = n;
    while j > 0 && path.get_char(j - 1) != '/'
        invariant
            n == path@.len(),
            j <= n,
            forall|k: int| j <= k < n ==> path@[k] != '/',
        decreases j,
    {
        j = j - 1;
    }
    proof {
        lemma_file_name_skip(path@, j as int);
    }
    let rest = path.substring_char(j, n);
    assert(rest@ =~= path@.skip(j as int));
    str_to_string(rest)
}

} // verus!
