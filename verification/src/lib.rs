//! A rewards layer over an external on-chain auction engine: deterministic
//! address derivation, authority-gated registry bookkeeping, and the
//! composition of listing/offer lifecycle operations with exactly one
//! delegated call into the engine per operation.

use vstd::prelude::*;

pub mod calls;
pub mod errors;
pub mod listings;
pub mod membership;
pub mod offers;
pub mod pda;
pub mod registry;
pub mod sdk;
pub mod state;

verus! {

/// Compares two byte vectors for equality of their contents.
pub fn bytes_eq(a: &Vec<u8>, b: &Vec<u8>) -> (r: bool)
    ensures
        r == (a@ == b@),
{
    if a.len() != b.len() {
        proof {
            assert(a@.len() != b@.len());
        }
        return false;
    }
    let n = a.len();
    let mut i: usize = 0;
    while i < n
        invariant
            n == a@.len() && n == b@.len(),
            0 <= i <= n,
            forall|k: int| 0 <= k < i ==> a@[k] == b@[k],
        decreases n - i,
    {
        if a[i] != b[i] {
            return false;
        }
        i += 1;
    }
    proof {
        assert(a@ =~= b@);
    }
    true
}

} // verus!
