use vstd::prelude::*;

pub mod crypto;

use crate::text::{chars_of, string_from_chars};

verus! {

/// How a stored key is shown: three dots, then its last four characters (all of it when it is
/// shorter).
pub open spec fn masked(key: Seq<char>) -> Seq<char> {
    "..."@ + key.skip(if key.len() > 4 { key.len() - 4 } else { 0 })
}

/// Shows a key without giving it away.
pub fn mask_api_key(key: &str) -> (r: String)
    ensures
        r@ == masked(key@),
{
    proof {
        reveal_strlit("...");
    }
    let cs = chars_of(key);
    let from: usize = if cs.len() > 4 { cs.len() - 4 } else { 0 };
    let mut out: Vec<char> = Vec::new();
    out.push('.');
    out.push('.');
    out.push('.');
    let mut i: usize = from;
    while i < cs.len()
        invariant
            cs@ == key@,
            from <= i <= cs.len(),
            out@ == seq!['.', '.', '.'] + cs@.subrange(from as int, i as int),
        decreases cs.len() - i,
    {
        out.push(cs[i]);
        assert(cs@.subrange(from as int, i + 1) =~= cs@.subrange(from as int, i as int).push(cs@[i as int]));
        i = i + 1;
    }
    assert(cs@.subrange(from as int, cs.len() as int) =~= key@.skip(from as int));
    assert("..."@ =~= seq!['.', '.', '.']);
    string_from_chars(&out)
}

} // verus!
