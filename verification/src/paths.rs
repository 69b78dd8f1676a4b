//! File paths as text, with `/` between their segments.

use vstd::prelude::*;
use vstd::string::*;

use crate::text::join3;

verus! {

/// `dir`, `/` and `segment`.
pub open spec fn joined(dir: Seq<char>, segment: Seq<char>) -> Seq<char> {
    dir + seq!['/'] + segment
}

/// The path of `segment` inside `dir`.
pub fn join_path(dir: &str, segment: &str) -> (r: String)
    ensures
        r@ == joined(dir@, segment@),
{
    proof {
        reveal_strlit("/");
        assert("/"@ =~= seq!['/']);
    }
    join3(dir, "/", segment)
}

} // verus!
