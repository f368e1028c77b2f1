use vstd::prelude::*;

use crate::cryptography_structures::Blake3Hash;

verus! {

/// A value that can be condensed into a 32-byte Blake3 digest. Equality
/// checks can then compare digests instead of raw secret bytes, and the
/// digest already supports constant-time comparison downstream.
pub trait ToBlake3Hash {
    /// The digest that `hash` returns, as a mathematical value.
    spec fn hash_spec(&self) -> Seq<u8>;

    /// Condenses `self` into a 32-byte digest.
    fn hash(&self) -> (r: Blake3Hash)
        ensures
            r@ == self.hash_spec(),
    ;
}

} // verus!
