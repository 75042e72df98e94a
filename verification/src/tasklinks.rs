//! The task–tag intersection: narrowing a running set of task
//! identifiers to those also carrying the next tag. The per-tag fetches
//! are persistence work; the narrowing itself is here, verified.

use vstd::prelude::*;
use vstd::string::*;

verus! {

use crate::text::str_eq;

/// Whether some string in the sequence reads `x`.
pub open spec fn contains_str(v: Seq<String>, x: Seq<char>) -> bool {
    exists|k: int| 0 <= k < v.len() && v[k]@ == x
}

/// Whether some string in the vector reads `x`.
pub fn vec_contains_str(v: &Vec<String>, x: &str) -> (r: bool)
    ensures
        r == contains_str(v@, x@),
{
    let n = v.len();
    let mut k: usize = 0;
    while k < n
        invariant
            k <= n,
            n == v@.len(),
            forall|m: int| 0 <= m < k ==> v@[m]@ != x@,
        decreases n - k,
    {
        if str_eq(v[k].as_str(), x) {
            return true;
        }
        k = k + 1;
    }
    false
}

/// The task identifiers of `current` that also stand in `other`, in
/// `current`'s order: one narrowing step of a multi-tag query.
pub fn intersect_ids(current: &Vec<String>, other: &Vec<String>) -> (r: Vec<String>)
    ensures
        r@ == current@.filter((|s: String| contains_str(other@, s@))),
{
    let ghost pred = |s: String| contains_str(other@, s@);
    let n = current.len();
    let mut r: Vec<String> = Vec::new();
    proof {
        reveal(Seq::filter);
        assert(current@.subrange(0, 0) =~= Seq::<String>::empty());
        assert(r@ =~= current@.subrange(0, 0).filter(pred));
    }
    let mut k: usize = 0;
    while k < n
        invariant
            k <= n,
            n == current@.len(),
            r@ == current@.subrange(0, k as int).filter(pred),
            pred == (|s: String| contains_str(other@, s@)),
        decreases n - k,
    {
        let hit = vec_contains_str(other, current[k].as_str());
        proof {
            reveal(Seq::filter);
            assert(current@.subrange(0, k + 1).drop_last() =~= current@.subrange(0, k as int));
            assert(current@.subrange(0, k + 1).last() == current@[k as int]);
        }
        if hit {
            r.push(current[k].clone());
        }
        k = k + 1;
    }
    proof {
        assert(current@.subrange(0, n as int) =~= current@);
    }
    r
}

} // verus!
