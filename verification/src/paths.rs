//! Building filesystem path strings.

use vstd::prelude::*;

verus! {

/// Append one path component to a directory path, separated by `/`.
pub fn join_path(dir: &str, name: &str) -> (r: String)
    ensures
        r@ == dir@ + "/"@ + name@,
{
    String::from_str(dir).concat("/").concat(name)
}

} // verus!
