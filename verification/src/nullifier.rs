//! The nullifier ledger's core judgement: whether a linkable key image is
//! already among a poll's recorded images.  Presence means "already voted";
//! recorded images are never removed.

use crate::bytes::bytes32_eq;
use crate::envelope::CompressedRistrettoWrapper;
use vstd::prelude::*;

verus! {

/// The key image bytes `b` are among the recorded images `s`.
pub open spec fn image_in(s: Seq<CompressedRistrettoWrapper>, b: Seq<u8>) -> bool {
    exists|k: int| 0 <= k < s.len() && (#[trigger] s[k])@ == b
}

/// Whether `ki`'s bytes are among the recorded images `v`.
pub fn contains_image(v: &Vec<CompressedRistrettoWrapper>, ki: &CompressedRistrettoWrapper) -> (r:
    bool)
    ensures
        r == image_in(v@, ki@),
{
    let n = v.len();
    let mut i: usize = 0;
    while i < n
        invariant
            0 <= i <= n,
            n == v@.len(),
            forall|k: int| 0 <= k < i ==> (#[trigger] v@[k])@ != ki@,
        decreases n - i,
    {
        if bytes32_eq(&v[i].0, &ki.0) {
            return true;
        }
        i = i + 1;
    }
    false
}

} // verus!
