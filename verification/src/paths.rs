//! Paths as text, in the form that Unix gives them: components with a
//! slash between them.

use crate::text::chars_of;
use vstd::prelude::*;
use vstd::string::StringExecFns;

verus! {

/// The path `rel` as seen from the directory `base`: `rel` itself where it
/// starts at the root, else `base` and `rel` with one slash between them
/// unless `base` is empty or brings the slash itself.
pub open spec fn joined(base: Seq<char>, rel: Seq<char>) -> Seq<char> {
    if rel.len() > 0 && rel[0] == '/' {
        rel
    } else if base.len() == 0 || base.last() == '/' {
        base + rel
    } else {
        base + seq!['/'] + rel
    }
}

/// The path `rel` as seen from the directory `base`.
pub fn path_join(base: &str, rel: &str) -> (r: String)
    ensures
        r@ == joined(base@, rel@),
{
    let b = chars_of(base);
    let l = chars_of(rel);
    if l.len() > 0 && l[0] == '/' {
        return String::from_str(rel);
    }
    let mut r = String::from_str(base);
    if b.len() > 0 && b[b.len() - 1] != '/' {
        r.push('/');
        assert(base@.push('/') == base@ + seq!['/']);
    }
    r.append(rel);
    r
}

} // verus!
