use vstd::prelude::*;

use crate::byteops::concat_of;
use crate::byteops::lemma_concat_of_take_step;
use crate::byteops::push_all;
use crate::byteops::zero_vec;
use crate::hashing::blake3_hash_bytes;
use crate::hashing::blake3_hash_of;
use crate::random::random_page;
use crate::zeroizable_arrays::ZeroizeBytes;

verus! {

/// A standalone vault of `VAULT_PAGES` pages of `VAULT_PAGE_SIZE` random
/// bytes each, with the sealing key derived on demand as the Blake3 digest
/// over all pages in vault order. Unlike [`crate::SealingKey`] it carries
/// no locking policy: it serves callers that manage residency themselves.
pub struct SealingKeyVault<const N: usize, const VAULT_PAGES: usize, const VAULT_PAGE_SIZE: usize> {
    pages: Vec<Vec<u8>>,
}

impl<const N: usize, const VAULT_PAGES: usize, const VAULT_PAGE_SIZE: usize> SealingKeyVault<
    N,
    VAULT_PAGES,
    VAULT_PAGE_SIZE,
> {
    /// The contents of the vault's pages, in vault order.
    pub closed spec fn pages_view(&self) -> Seq<Seq<u8>> {
        self.pages@.map_values(|p: Vec<u8>| p@)
    }

    /// The vault holds exactly `VAULT_PAGES` pages of `VAULT_PAGE_SIZE`
    /// bytes each.
    pub open spec fn wf(&self) -> bool {
        self.pages_view().len() == VAULT_PAGES && (forall|i: int|
            0 <= i < VAULT_PAGES ==> self.pages_view()[i].len() == VAULT_PAGE_SIZE)
    }

    /// The sealing key as a mathematical value: the Blake3 digest of the
    /// concatenation of all pages in vault order.
    pub open spec fn sealing_key_spec(&self) -> Seq<u8> {
        blake3_hash_of(concat_of(self.pages_view()))
    }

    /// Builds the vault, filling each page with CSPRNG output.
    pub fn new() -> (r: Self)
        ensures
            r.wf(),
    {
        let mut pages: Vec<Vec<u8>> = Vec::new();
        let mut i: usize = 0;
        while i < VAULT_PAGES
            invariant
                0 <= i <= VAULT_PAGES,
                pages@.len() == i,
                forall|j: int| 0 <= j < i ==> pages@[j]@.len() == VAULT_PAGE_SIZE,
            decreases VAULT_PAGES - i,
        {
            let page = random_page::<VAULT_PAGE_SIZE>();
            pages.push(page);
            i += 1;
        }
        let outcome = SealingKeyVault { pages };
        proof {
            assert forall|k: int| 0 <= k < VAULT_PAGES implies outcome.pages_view()[k].len()
                == VAULT_PAGE_SIZE by {
                assert(outcome.pages_view()[k] == outcome.pages@[k]@);
            }
        }
        outcome
    }

    /// Derives the sealing key: the Blake3 digest over the concatenation of
    /// all pages in vault order, computed fresh on every call into a
    /// zeroizing buffer. The concatenation scratch is overwritten with
    /// zeros before the call returns.
    pub fn sealing_key(&self) -> (r: ZeroizeBytes)
        requires
            self.wf(),
            (VAULT_PAGES as int) * (VAULT_PAGE_SIZE as int) <= usize::MAX,
        ensures
            r@ == self.sealing_key_spec(),
            r@.len() == 32,
    {
        let mut concat: Vec<u8> = Vec::new();
        let mut i: usize = 0;
        while i < self.pages.len()
            invariant
                self.wf(),
                (VAULT_PAGES as int) * (VAULT_PAGE_SIZE as int) <= usize::MAX,
                0 <= i <= VAULT_PAGES,
                self.pages@.len() == VAULT_PAGES,
                concat@ == concat_of(self.pages_view().take(i as int)),
                concat@.len() == (i as int) * (VAULT_PAGE_SIZE as int),
            decreases self.pages@.len() - i,
        {
            proof {
                assert(self.pages_view()[i as int] == self.pages@[i as int]@);
                assert((i as int + 1) * (VAULT_PAGE_SIZE as int) <= (VAULT_PAGES as int) * (
                VAULT_PAGE_SIZE as int)) by (nonlinear_arith)
                    requires
                        0 <= i as int + 1 <= VAULT_PAGES as int,
                        0 <= VAULT_PAGE_SIZE as int,
                ;
                assert((i as int + 1) * (VAULT_PAGE_SIZE as int) == (i as int) * (
                VAULT_PAGE_SIZE as int) + VAULT_PAGE_SIZE as int) by (nonlinear_arith);
                lemma_concat_of_take_step(self.pages_view(), i as int);
            }
            push_all(&mut concat, self.pages[i].as_slice());
            i += 1;
        }
        proof {
            assert(self.pages_view().take(VAULT_PAGES as int) =~= self.pages_view());
        }
        let digest = blake3_hash_bytes(concat.as_slice());
        zero_vec(&mut concat);
        let key = ZeroizeBytes::new_with_data(digest.as_slice());
        key
    }
}

} // verus!
