//! Small verified helpers over flag vectors, shared by the MIDI filter, the
//! preset map and the sequencer's slot arrays.

use vstd::prelude::*;

verus! {

/// A vector of `len` copies of `value`.
pub fn repeat_bool(value: bool, len: usize) -> (r: Vec<bool>)
    ensures
        r@.len() == len,
        forall|i: int| 0 <= i < len ==> r@[i] == value,
{
    let mut r: Vec<bool> = Vec::new();
    let mut k: usize = 0;
    while k < len
        invariant
            k <= len,
            r@.len() == k,
            forall|i: int| 0 <= i < k ==> r@[i] == value,
        decreases len - k,
    {
        r.push(value);
        k += 1;
    }
    r
}

/// An element-for-element copy of a flag vector.
pub fn copy_bools(v: &Vec<bool>) -> (r: Vec<bool>)
    ensures
        r@ == v@,
{
    let mut r: Vec<bool> = Vec::new();
    let mut k: usize = 0;
    while k < v.len()
        invariant
            k <= v@.len(),
            r@ =~= v@.subrange(0, k as int),
        decreases v@.len() - k,
    {
        r.push(v[k]);
        k += 1;
    }
    proof {
        assert(r@ =~= v@);
    }
    r
}

} // verus!
