//! Paths below a repository's root, as text with `/` between the names.

use vstd::prelude::*;
use vstd::string::*;

verus! {

/// `base` with `name` below it: one `/` stands between the two unless `base`
/// is empty or already ends in one.
pub open spec fn joined(base: Seq<char>, name: Seq<char>) -> Seq<char> {
    if base.len() == 0 || base.last() == '/' {
        base + name
    } else {
        base + seq!['/'] + name
    }
}

/// The path of `name` below `base`.
pub fn join(base: &str, name: &str) -> (path: String)
    ensures
        path@ == joined(base@, name@),
{
    let n: usize = base.unicode_len();
    let path = String::from_str(base);
    if n == 0 || base.get_char(n - 1) == '/' {
        path.concat(name)
    } else {
        proof {
            reveal_strlit("/");
            assert("/"@ =~= seq!['/']);
        }
        path.concat("/").concat(name)
    }
}

} // verus!
