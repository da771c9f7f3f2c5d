//! Paths as text: directories and file names joined by `/`.

use vstd::prelude::*;
use vstd::string::{StrSliceExecFns, StringExecFns};

verus! {

/// The separator between the parts of a path.
pub const SEPARATOR: char = '/';

/// The path begins at the root of the file system.
pub open spec fn is_absolute(path: Seq<char>) -> bool {
    path.len() > 0 && path[0] == SEPARATOR
}

/// `name` as seen from the directory `base`. A `name` that begins at the
/// root is its own path. Any other is joined to `base` by one separator; an
/// empty `base` stands for the current directory and gives `name` itself,
/// and a `base` that ends in the separator gets no second one.
pub open spec fn join_path(base: Seq<char>, name: Seq<char>) -> Seq<char> {
    if is_absolute(name) || base.len() == 0 {
        name
    } else if base.last() == SEPARATOR {
        base + name
    } else {
        base + seq![SEPARATOR] + name
    }
}

/// The path of `name` as seen from the directory `base`.
pub fn join(base: &str, name: &str) -> (r: String)
    ensures
        r@ == join_path(base@, name@),
{
    let n: usize = base.unicode_len();
    if n == 0 || (name.unicode_len() > 0 && name.get_char(0) == SEPARATOR) {
        return name.to_owned();
    }
    let mut out: String = base.to_owned();
    if base.get_char(n - 1) != SEPARATOR {
        proof {
            reveal_strlit("/");
            assert("/"@ =~= seq![SEPARATOR]);
        }
        out.append("/");
    }
    out.append(name);
    out
}

} // verus!
