//! Path arithmetic: joining a directory with a single path component.
//!
//! Paths are modelled as their character sequences; a join inserts exactly
//! one separator between the directory and the component.

use vstd::prelude::*;

verus! {

/// The character sequence of `dir` followed by a `/` separator and `name`.
pub open spec fn joined(dir: Seq<char>, name: Seq<char>) -> Seq<char> {
    dir + seq!['/'] + name
}

/// Join a directory path with a single trailing component.
pub fn join_path(dir: &str, name: &str) -> (r: String)
    ensures
        r@ == joined(dir@, name@),
{
    let mut out = dir.to_owned();
    out.append("/");
    out.append(name);
    proof {
        reveal_strlit("/");
        assert(out@ =~= joined(dir@, name@));
    }
    out
}

} // verus!
