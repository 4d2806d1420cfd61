//! File-system paths held as text, with Unix path semantics.

use vstd::prelude::*;
use vstd::string::{StringExecFns, StrSliceExecFns};

verus! {

/// A path is absolute when it starts at the root.
pub open spec fn spec_is_absolute(path: Seq<char>) -> bool {
    path.len() > 0 && path[0] == '/'
}

/// `dir` joined with `path`, as `Path::join` does it: an absolute `path`
/// replaces `dir`; otherwise a separator is put between them unless `dir`
/// is empty or already ends with one.
pub open spec fn joined(dir: Seq<char>, path: Seq<char>) -> Seq<char> {
    if spec_is_absolute(path) {
        path
    } else if dir.len() == 0 {
        path
    } else if dir.last() == '/' {
        dir + path
    } else {
        dir + "/"@ + path
    }
}

/// Whether `path` is absolute.
pub fn is_absolute(path: &str) -> (r: bool)
    ensures
        r == spec_is_absolute(path@),
{
    let n = path.unicode_len();
    n > 0 && path.get_char(0) == '/'
}

/// `dir` joined with `path`.
pub fn join_path(dir: &str, path: &str) -> (r: String)
    ensures
        r@ == joined(dir@, path@),
{
    if is_absolute(path) {
        return path.to_owned();
    }
    let n = dir.unicode_len();
    if n == 0 {
        path.to_owned()
    } else if dir.get_char(n - 1) == '/' {
        let mut r = dir.to_owned();
        r.append(path);
        r
    } else {
        let mut r = dir.to_owned();
        r.append("/");
        r.append(path);
        r
    }
}

} // verus!
