use vstd::prelude::*;

use crate::byteops::concat_of;
use crate::byteops::is_all_zero;
use crate::byteops::lemma_concat_of_take_len;
use crate::byteops::lemma_concat_of_take_step;
use crate::byteops::push_all;
use crate::byteops::slice_all_zero;
use crate::byteops::zero_vec;
use crate::cipher::xchacha_decrypt;
use crate::cipher::xchacha_encrypt;
use crate::cipher::xchacha_message_fits;
use crate::cipher::xchacha_seal;
use crate::cryptography_structures::Blake3Hash;
use crate::cryptography_structures::X25519PublicKey;
use crate::cryptography_structures::X25519SharedSecretKey;
use crate::curves::ed25519_sign;
use crate::curves::ed25519_signature_of;
use crate::curves::x25519_derive_public;
use crate::curves::x25519_diffie_hellman;
use crate::curves::x25519_public_of;
use crate::curves::x25519_shared_of;
use crate::errors::MemSecurityErr;
use crate::errors::MemSecurityResult;
use crate::hashing::blake3_derive_key_bytes;
use crate::hashing::blake3_derived_of;
use crate::hashing::blake3_hash_of;
use crate::hashing::blake3_keyed_hash_bytes;
use crate::hashing::blake3_keyed_of;
use crate::mem_lock::MemoryLock;
use crate::random::fill_entropy;
use crate::random::random_page;
use crate::zeroizable_arrays::ZeroizeArray;
use crate::zeroizable_arrays::ZeroizeBytes;

verus! {

/// The length of a 16-byte secret key.
pub const SECRET_KEY_16BYTE: usize = 16;

/// The length of a 32-byte secret key.
pub const SECRET_KEY_32BYTE: usize = 32;

/// The number of pages the default vault holds.
pub const DEFAULT_VAULT_PAGES: usize = 4;

/// The size in bytes of one vault page.
pub const DEFAULT_VAULT_PAGE_SIZE: usize = 4096;

/// The length of the Poly1305 authentication tag.
pub const POLY1305_TAG_SIZE: usize = 16;

/// The length of the extended nonce (192 bits).
pub const XNONCE_LENGTH: usize = 24;

/// The length of the authentication tag appended to every ciphertext.
pub const TAG_LENGTH: usize = 16;

/// The length of a Blake3 digest.
pub const DIGEST_LENGTH: usize = 32;

/// How many fresh draws nonce generation allows before concluding that the
/// entropy source only returns zeros.
const CSPRNG_RETRY_LIMIT: usize = 16;

/// A vault of `VAULT_PAGES` independently allocated pages of
/// `VAULT_PAGE_SIZE` random bytes each. The key-encryption-key is never
/// stored: `kek` derives it fresh on every call as the Blake3 digest of all
/// pages in vault order. The pages are pinned in physical memory through
/// the vault's locking policy for the vault's lifetime; a failed pin is
/// recorded, never silently ignored.
pub struct SealingKey<L: MemoryLock, const VAULT_PAGES: usize, const VAULT_PAGE_SIZE: usize> {
    pages: Vec<Vec<u8>>,
    locker: L,
    pages_locked: bool,
}

impl<L: MemoryLock, const VAULT_PAGES: usize, const VAULT_PAGE_SIZE: usize> SealingKey<
    L,
    VAULT_PAGES,
    VAULT_PAGE_SIZE,
> {
    /// The contents of the vault's pages, in vault order.
    pub closed spec fn pages_view(&self) -> Seq<Seq<u8>> {
        self.pages@.map_values(|p: Vec<u8>| p@)
    }

    /// Whether every page pin request made at construction took effect.
    pub closed spec fn pages_locked_spec(&self) -> bool {
        self.pages_locked
    }

    /// The vault holds exactly `VAULT_PAGES` pages of `VAULT_PAGE_SIZE`
    /// bytes each.
    pub open spec fn wf(&self) -> bool {
        self.pages_view().len() == VAULT_PAGES && (forall|i: int|
            0 <= i < VAULT_PAGES ==> self.pages_view()[i].len() == VAULT_PAGE_SIZE)
    }

    /// The key-encryption-key as a mathematical value: the Blake3 digest of
    /// the concatenation of all pages in vault order.
    pub open spec fn kek_spec(&self) -> Seq<u8> {
        blake3_hash_of(concat_of(self.pages_view()))
    }

    /// Builds the vault: fills each page with CSPRNG output, then asks the
    /// locking policy to pin each page. A failed pin does not abort
    /// construction; it is recorded and can be read back through
    /// `pages_locked`, so the degradation is never silent.
    pub fn new(locker: L) -> (r: Self)
        ensures
            r.wf(),
    {
        let mut pages: Vec<Vec<u8>> = Vec::new();
        let mut i: usize = 0;
        while i < VAULT_PAGES
            invariant
                0 <= i <= VAULT_PAGES,
                pages@.len() == i,
                forall|j: int| 0 <= j < i ==> pages@[j]@.len() == VAULT_PAGE_SIZE,
            decreases VAULT_PAGES - i,
        {
            let page = random_page::<VAULT_PAGE_SIZE>();
            pages.push(page);
            i += 1;
        }
        let mut outcome = SealingKey { pages, locker, pages_locked: false };
        let locked = outcome.lock_pages();
        outcome.pages_locked = locked;
        proof {
            assert forall|k: int| 0 <= k < VAULT_PAGES implies outcome.pages_view()[k].len()
                == VAULT_PAGE_SIZE by {
                assert(outcome.pages_view()[k] == outcome.pages@[k]@);
            }
        }
        outcome
    }

    /// Reports whether every page pin request made at construction took
    /// effect. When false, the vault still works but its pages may reach
    /// swap: the caller decides whether that is tolerable.
    pub fn pages_locked(&self) -> (r: bool)
        ensures
            r == self.pages_locked_spec(),
    {
        self.pages_locked
    }

    /// Asks the locking policy to pin every page; reports whether every
    /// request took effect.
    fn lock_pages(&self) -> bool {
        let mut all_locked = true;
        let mut i: usize = 0;
        while i < self.pages.len()
            invariant
                0 <= i <= self.pages@.len(),
            decreases self.pages@.len() - i,
        {
            let page_locked = self.locker.lock(self.pages[i].as_slice());
            all_locked = all_locked && page_locked;
            i += 1;
        }
        all_locked
    }

    /// Asks the locking policy to release every page; reports whether every
    /// request took effect.
    fn munlock_pages(&self) -> bool {
        let mut all_unlocked = true;
        let mut i: usize = 0;
        while i < self.pages.len()
            invariant
                0 <= i <= self.pages@.len(),
            decreases self.pages@.len() - i,
        {
            let page_unlocked = self.locker.unlock(self.pages[i].as_slice());
            all_unlocked = all_unlocked && page_unlocked;
            i += 1;
        }
        all_unlocked
    }

    /// Derives the key-encryption-key: the Blake3 digest over the
    /// concatenation of all pages in vault order, computed fresh on every
    /// call. The concatenation scratch is overwritten with zeros before the
    /// call returns. The caller must zeroize the returned buffer on every
    /// path once done, and may pin it for the duration through `mlock_kek`.
    pub fn kek(&self) -> (r: ZeroizeArray<32>)
        requires
            self.wf(),
            (VAULT_PAGES as int) * (VAULT_PAGE_SIZE as int) <= usize::MAX,
        ensures
            r@ == self.kek_spec(),
    {
        let mut concat: Vec<u8> = Vec::new();
        let mut i: usize = 0;
        while i < self.pages.len()
            invariant
                self.wf(),
                (VAULT_PAGES as int) * (VAULT_PAGE_SIZE as int) <= usize::MAX,
                0 <= i <= VAULT_PAGES,
                self.pages@.len() == VAULT_PAGES,
                concat@ == concat_of(self.pages_view().take(i as int)),
                concat@.len() == (i as int) * (VAULT_PAGE_SIZE as int),
            decreases self.pages@.len() - i,
        {
            proof {
                assert(self.pages_view()[i as int] == self.pages@[i as int]@);
                assert((i as int + 1) * (VAULT_PAGE_SIZE as int) <= (VAULT_PAGES as int) * (
                VAULT_PAGE_SIZE as int)) by (nonlinear_arith)
                    requires
                        0 <= i as int + 1 <= VAULT_PAGES as int,
                        0 <= VAULT_PAGE_SIZE as int,
                ;
                assert((i as int + 1) * (VAULT_PAGE_SIZE as int) == (i as int) * (
                VAULT_PAGE_SIZE as int) + VAULT_PAGE_SIZE as int) by (nonlinear_arith);
                lemma_concat_of_take_step(self.pages_view(), i as int);
            }
            push_all(&mut concat, self.pages[i].as_slice());
            i += 1;
        }
        proof {
            assert(self.pages_view().take(VAULT_PAGES as int) =~= self.pages_view());
        }
        let digest = crate::hashing::blake3_hash_bytes(concat.as_slice());
        zero_vec(&mut concat);
        ZeroizeArray::new(digest)
    }

    /// The vault-stability law, demonstrated end to end: two derivations of
    /// the key-encryption-key from the same vault, with no page mutation
    /// between them, always return identical digests. Both scratch keys are
    /// overwritten with zeros before returning.
    pub fn kek_twice_agrees(&self) -> (ok: bool)
        requires
            self.wf(),
            (VAULT_PAGES as int) * (VAULT_PAGE_SIZE as int) <= usize::MAX,
        ensures
            ok,
    {
        let mut first = self.kek();
        let mut second = self.kek();
        let ok = crate::byteops::bytes_eq(
            first.expose_borrowed().as_slice(),
            second.expose_borrowed().as_slice(),
        );
        first.zeroize();
        second.zeroize();
        ok
    }

    /// Asks the locking policy to pin the 32-byte derived key for the
    /// duration of its use; reports whether the request took effect.
    pub fn mlock_kek(&self, kek: &ZeroizeArray<32>) -> bool {
        self.locker.lock(kek.expose_borrowed().as_slice())
    }

    /// Asks the locking policy to release the 32-byte derived key region;
    /// reports whether the request took effect. The caller still zeroizes
    /// the buffer itself.
    pub fn munlock_kek(&self, kek: &ZeroizeArray<32>) -> bool {
        self.locker.unlock(kek.expose_borrowed().as_slice())
    }

    /// Tears the vault down: asks the locking policy to release every page,
    /// then overwrites every page with zeros. The page layout is kept, so
    /// the vault stays well formed (and any later `kek` is a digest of
    /// zeros, not of secret material).
    pub fn zeroize(&mut self)
        requires
            old(self).wf(),
        ensures
            final(self).wf(),
            forall|i: int|
                0 <= i < VAULT_PAGES ==> is_all_zero(#[trigger] final(self).pages_view()[i]),
    {
        self.munlock_pages();
        proof {
            assert forall|j: int| 0 <= j < VAULT_PAGES implies self.pages@[j]@.len()
                == VAULT_PAGE_SIZE by {
                assert(self.pages_view()[j] == self.pages@[j]@);
            }
        }
        let mut i: usize = 0;
        while i < self.pages.len()
            invariant
                self.pages@.len() == VAULT_PAGES,
                0 <= i <= VAULT_PAGES,
                forall|j: int|
                    0 <= j < VAULT_PAGES ==> self.pages@[j]@.len() == VAULT_PAGE_SIZE,
                forall|j: int| 0 <= j < i ==> is_all_zero(self.pages@[j]@),
            decreases self.pages@.len() - i,
        {
            let page = &mut self.pages[i];
            zero_vec(page);
            i += 1;
        }
        proof {
            assert forall|k: int| 0 <= k < VAULT_PAGES implies is_all_zero(
                #[trigger] final(self).pages_view()[k],
            ) by {
                assert(final(self).pages_view()[k] == final(self).pages@[k]@);
            }
            assert forall|k: int| 0 <= k < VAULT_PAGES implies final(self).pages_view()[k].len()
                == VAULT_PAGE_SIZE by {
                assert(final(self).pages_view()[k] == final(self).pages@[k]@);
            }
        }
    }
}

/// The vault-stability law: the key-encryption-key is a function of the
/// vault's pages alone, so any two derivations from the same vault state
/// agree.
pub proof fn lemma_kek_stable<L: MemoryLock, const VP: usize, const VPS: usize>(
    vault: &SealingKey<L, VP, VPS>,
    k1: Seq<u8>,
    k2: Seq<u8>,
)
    requires
        k1 == vault.kek_spec(),
        k2 == vault.kek_spec(),
    ensures
        k1 == k2,
{
}

/// A per-secret container pairing an authenticated ciphertext with the
/// nonce it was sealed under. Encryption and decryption derive the
/// key-encryption-key from an explicit [`SealingKey`] vault on every call;
/// the key is pinned while in use and overwritten with zeros before each
/// operation returns. A single container is not internally synchronized:
/// concurrent use of one instance needs external synchronization.
pub struct EncryptedMem {
    ciphertext: ZeroizeBytes,
    nonce: ZeroizeArray<XNONCE_LENGTH>,
}

impl EncryptedMem {
    /// The stored ciphertext as a mathematical value.
    pub closed spec fn ciphertext_spec(&self) -> Seq<u8> {
        self.ciphertext@
    }

    /// The stored nonce as a mathematical value.
    pub closed spec fn nonce_spec(&self) -> Seq<u8> {
        self.nonce@
    }

    /// Draws a 24-byte nonce from the CSPRNG, redrawing when the all-zero
    /// block comes back. A source that keeps returning zeros is broken
    /// beyond use; after the retry budget a marker byte still makes the
    /// nonce distinguishable from the all-zero value, so the sanity
    /// invariant holds even then.
    fn fresh_nonce() -> (r: ZeroizeArray<XNONCE_LENGTH>)
        ensures
            r@.len() == XNONCE_LENGTH,
            !is_all_zero(r@),
    {
        let mut buffer = [0u8; XNONCE_LENGTH];
        let mut attempts: usize = 0;
        while attempts < CSPRNG_RETRY_LIMIT
            invariant
                buffer@.len() == XNONCE_LENGTH,
            decreases CSPRNG_RETRY_LIMIT - attempts,
        {
            fill_entropy(&mut buffer);
            if !slice_all_zero(buffer.as_slice()) {
                return ZeroizeArray::new(buffer);
            }
            attempts += 1;
        }
        buffer[0] = 1u8;
        proof {
            assert(buffer@[0] == 1u8);
        }
        ZeroizeArray::new(buffer)
    }

    /// A container with an empty ciphertext (room reserved for the
    /// authentication tag) and a fresh random nonce, never the all-zero
    /// value.
    pub fn new() -> (r: Self)
        ensures
            r.ciphertext_spec() == Seq::<u8>::empty(),
            r.nonce_spec().len() == XNONCE_LENGTH,
            !is_all_zero(r.nonce_spec()),
    {
        EncryptedMem {
            ciphertext: ZeroizeBytes::new_with_capacity(TAG_LENGTH),
            nonce: Self::fresh_nonce(),
        }
    }

    /// A container with an empty ciphertext of the given reserved capacity
    /// and a fresh random nonce, never the all-zero value.
    pub fn new_with_added_capacity(capacity: usize) -> (r: Self)
        requires
            capacity <= isize::MAX,
        ensures
            r.ciphertext_spec() == Seq::<u8>::empty(),
            r.nonce_spec().len() == XNONCE_LENGTH,
            !is_all_zero(r.nonce_spec()),
    {
        EncryptedMem {
            ciphertext: ZeroizeBytes::new_with_capacity(capacity),
            nonce: Self::fresh_nonce(),
        }
    }

    /// Borrows the stored ciphertext.
    pub fn ciphertext(&self) -> (r: &ZeroizeBytes)
        ensures
            r@ == self.ciphertext_spec(),
    {
        &self.ciphertext
    }

    /// Copies the stored ciphertext.
    pub fn ciphertext_clone(&self) -> (r: ZeroizeBytes)
        ensures
            r@ == self.ciphertext_spec(),
    {
        self.ciphertext.clone()
    }

    /// Borrows the stored nonce.
    pub fn nonce(&self) -> (r: &ZeroizeArray<XNONCE_LENGTH>)
        ensures
            r@ == self.nonce_spec(),
    {
        &self.nonce
    }

    /// Borrows the stored nonce.
    pub fn xnonce(&self) -> (r: &ZeroizeArray<XNONCE_LENGTH>)
        ensures
            r@ == self.nonce_spec(),
    {
        &self.nonce
    }

    /// Copies the stored nonce.
    pub fn xnonce_clone(&self) -> (r: ZeroizeArray<XNONCE_LENGTH>)
        ensures
            r@ == self.nonce_spec(),
    {
        self.nonce.clone()
    }

    /// Replaces the stored ciphertext, e.g. with one received over a
    /// transport. The previous ciphertext is overwritten with zeros.
    pub fn add_ciphertext(&mut self, ciphertext: ZeroizeBytes)
        ensures
            final(self).ciphertext_spec() == ciphertext@,
            final(self).nonce_spec() == old(self).nonce_spec(),
    {
        self.ciphertext.zeroize();
        self.ciphertext = ciphertext;
    }

    /// Encrypts `plaintext` under the vault's key-encryption-key and a
    /// freshly drawn nonce, storing the ciphertext (with its 16-byte tag)
    /// and the nonce in this container. The previous ciphertext is
    /// overwritten with zeros. A fresh nonce is drawn on every call so a
    /// key/nonce pair is never reused across encryptions of different
    /// plaintexts. The derived key is pinned while in use and overwritten
    /// with zeros before returning, on success and failure alike. The call
    /// fails only if the cipher itself refuses the input, and then leaves
    /// the container unchanged.
    pub fn encrypt<L: MemoryLock, const VP: usize, const VPS: usize>(
        &mut self,
        vault: &SealingKey<L, VP, VPS>,
        plaintext: &[u8],
    ) -> (r: MemSecurityResult<()>)
        requires
            vault.wf(),
            (VP as int) * (VPS as int) <= usize::MAX,
            plaintext@.len() + 16 <= isize::MAX,
        ensures
            r is Ok ==> final(self).ciphertext_spec() == xchacha_seal(
                vault.kek_spec(),
                final(self).nonce_spec(),
                plaintext@,
            ) && final(self).ciphertext_spec().len() == plaintext@.len() + 16
                && final(self).nonce_spec().len() == XNONCE_LENGTH
                && !is_all_zero(final(self).nonce_spec()),
            r is Err ==> r == MemSecurityResult::<()>::Err(MemSecurityErr::EncryptionErr)
                && *final(self) == *old(self) && !xchacha_message_fits(plaintext@.len() as nat),
    {
        let nonce = Self::fresh_nonce();
        let mut kek = vault.kek();
        let _kek_locked = vault.mlock_kek(&kek);
        let outcome = xchacha_encrypt(kek.expose_borrowed(), nonce.expose_borrowed(), plaintext);
        let _kek_unlocked = vault.munlock_kek(&kek);
        kek.zeroize();
        match outcome {
            Some(ciphertext) => {
                self.ciphertext.set(ciphertext.as_slice());
                self.nonce = nonce;
                Ok(())
            },
            None => Err(MemSecurityErr::EncryptionErr),
        }
    }

    /// Decrypts the stored ciphertext under the vault's key-encryption-key
    /// and this container's nonce, returning the plaintext in a fresh
    /// buffer. Exactly the ciphertexts that the cipher produced under this
    /// key and nonce decrypt successfully; every other input fails with a
    /// decryption error, and the scratch buffer that held intermediate
    /// plaintext is overwritten with zeros before the call returns. The
    /// derived key is pinned while in use and overwritten with zeros on
    /// success and failure alike.
    pub fn decrypt<L: MemoryLock, const VP: usize, const VPS: usize>(
        &self,
        vault: &SealingKey<L, VP, VPS>,
    ) -> (r: MemSecurityResult<ZeroizeBytes>)
        requires
            vault.wf(),
            (VP as int) * (VPS as int) <= usize::MAX,
        ensures
            r matches Ok(p) ==> self.ciphertext_spec() == xchacha_seal(
                vault.kek_spec(),
                self.nonce_spec(),
                p@,
            ),
            forall|pt: Seq<u8>|
                self.ciphertext_spec() == xchacha_seal(vault.kek_spec(), self.nonce_spec(), pt)
                    ==> (r matches Ok(p) && p@ == pt),
            r is Err ==> r == MemSecurityResult::<ZeroizeBytes>::Err(
                MemSecurityErr::DecryptionError,
            ),
    {
        let mut kek = vault.kek();
        let _kek_locked = vault.mlock_kek(&kek);
        let ciphertext_slice = crate::byte_buffer::bm_as_slice(self.ciphertext.expose_borrowed());
        let outcome = xchacha_decrypt(
            kek.expose_borrowed(),
            self.nonce.expose_borrowed(),
            ciphertext_slice,
        );
        let _kek_unlocked = vault.munlock_kek(&kek);
        kek.zeroize();
        match outcome {
            Some(mut plaintext) => {
                let result = ZeroizeBytes::new_with_data(plaintext.as_slice());
                zero_vec(&mut plaintext);
                Ok(result)
            },
            None => Err(MemSecurityErr::DecryptionError),
        }
    }

    /// Decrypts the stored ciphertext and returns the plaintext as an exact
    /// 16-byte key. A plaintext of any other length fails with the length
    /// error carrying the expected and found lengths, distinct from a
    /// decryption failure; the decrypted scratch is overwritten with zeros
    /// on that path too.
    pub fn decrypt_16byte<L: MemoryLock, const VP: usize, const VPS: usize>(
        &self,
        vault: &SealingKey<L, VP, VPS>,
    ) -> (r: MemSecurityResult<ZeroizeArray<SECRET_KEY_16BYTE>>)
        requires
            vault.wf(),
            (VP as int) * (VPS as int) <= usize::MAX,
        ensures
            r matches Ok(a) ==> self.ciphertext_spec() == xchacha_seal(
                vault.kek_spec(),
                self.nonce_spec(),
                a@,
            ) && a@.len() == SECRET_KEY_16BYTE,
            forall|pt: Seq<u8>|
                (self.ciphertext_spec() == xchacha_seal(vault.kek_spec(), self.nonce_spec(), pt)
                    && pt.len() == SECRET_KEY_16BYTE) ==> (r matches Ok(a) && a@ == pt),
            forall|pt: Seq<u8>|
                (self.ciphertext_spec() == xchacha_seal(vault.kek_spec(), self.nonce_spec(), pt)
                    && pt.len() != SECRET_KEY_16BYTE) ==> r
                    == MemSecurityResult::<ZeroizeArray<SECRET_KEY_16BYTE>>::Err(
                    MemSecurityErr::InvalidArrayLength {
                        expected: SECRET_KEY_16BYTE,
                        found: pt.len() as usize,
                    },
                ),
            (forall|pt: Seq<u8>|
                self.ciphertext_spec() != xchacha_seal(vault.kek_spec(), self.nonce_spec(), pt))
                ==> r == MemSecurityResult::<ZeroizeArray<SECRET_KEY_16BYTE>>::Err(
                MemSecurityErr::DecryptionError,
            ),
            r matches Err(e) ==> (e matches MemSecurityErr::InvalidArrayLength { .. } || e
                == MemSecurityErr::DecryptionError),
    {
        match self.decrypt(vault) {
            Ok(mut plaintext_buffer) => {
                let plaintext_slice = crate::byte_buffer::bm_as_slice(
                    plaintext_buffer.expose_borrowed(),
                );
                let plaintext_len = plaintext_slice.len();
                if plaintext_len != SECRET_KEY_16BYTE {
                    plaintext_buffer.zeroize();
                    Err(
                        MemSecurityErr::InvalidArrayLength {
                            expected: SECRET_KEY_16BYTE,
                            found: plaintext_len,
                        },
                    )
                } else {
                    let outcome = match ZeroizeArray::<SECRET_KEY_16BYTE>::new_from_slice(
                        plaintext_slice,
                    ) {
                        Ok(array) => Ok(array),
                        Err(e) => {
                            proof {
                                assert(false);
                            }
                            Err(e)
                        },
                    };
                    plaintext_buffer.zeroize();
                    outcome
                }
            },
            Err(e) => Err(e),
        }
    }

    /// Decrypts the stored ciphertext and returns the plaintext as an exact
    /// 32-byte key. A plaintext of any other length fails with the length
    /// error carrying the expected and found lengths, distinct from a
    /// decryption failure; the decrypted scratch is overwritten with zeros
    /// on that path too.
    pub fn decrypt_32byte<L: MemoryLock, const VP: usize, const VPS: usize>(
        &self,
        vault: &SealingKey<L, VP, VPS>,
    ) -> (r: MemSecurityResult<ZeroizeArray<SECRET_KEY_32BYTE>>)
        requires
            vault.wf(),
            (VP as int) * (VPS as int) <= usize::MAX,
        ensures
            r matches Ok(a) ==> self.ciphertext_spec() == xchacha_seal(
                vault.kek_spec(),
                self.nonce_spec(),
                a@,
            ) && a@.len() == SECRET_KEY_32BYTE,
            forall|pt: Seq<u8>|
                (self.ciphertext_spec() == xchacha_seal(vault.kek_spec(), self.nonce_spec(), pt)
                    && pt.len() == SECRET_KEY_32BYTE) ==> (r matches Ok(a) && a@ == pt),
            forall|pt: Seq<u8>|
                (self.ciphertext_spec() == xchacha_seal(vault.kek_spec(), self.nonce_spec(), pt)
                    && pt.len() != SECRET_KEY_32BYTE) ==> r
                    == MemSecurityResult::<ZeroizeArray<SECRET_KEY_32BYTE>>::Err(
                    MemSecurityErr::InvalidArrayLength {
                        expected: SECRET_KEY_32BYTE,
                        found: pt.len() as usize,
                    },
                ),
            (forall|pt: Seq<u8>|
                self.ciphertext_spec() != xchacha_seal(vault.kek_spec(), self.nonce_spec(), pt))
                ==> r == MemSecurityResult::<ZeroizeArray<SECRET_KEY_32BYTE>>::Err(
                MemSecurityErr::DecryptionError,
            ),
            r matches Err(e) ==> (e matches MemSecurityErr::InvalidArrayLength { .. } || e
                == MemSecurityErr::DecryptionError),
    {
        match self.decrypt(vault) {
            Ok(mut plaintext_buffer) => {
                let plaintext_slice = crate::byte_buffer::bm_as_slice(
                    plaintext_buffer.expose_borrowed(),
                );
                let plaintext_len = plaintext_slice.len();
                if plaintext_len != SECRET_KEY_32BYTE {
                    plaintext_buffer.zeroize();
                    Err(
                        MemSecurityErr::InvalidArrayLength {
                            expected: SECRET_KEY_32BYTE,
                            found: plaintext_len,
                        },
                    )
                } else {
                    let outcome = match ZeroizeArray::<SECRET_KEY_32BYTE>::new_from_slice(
                        plaintext_slice,
                    ) {
                        Ok(array) => Ok(array),
                        Err(e) => {
                            proof {
                                assert(false);
                            }
                            Err(e)
                        },
                    };
                    plaintext_buffer.zeroize();
                    outcome
                }
            },
            Err(e) => Err(e),
        }
    }

    /// Keyed Blake3 digest of `plaintext` under the vault's
    /// key-encryption-key, for HMAC-style authentication without handing
    /// the raw key to the caller. The derived key is pinned while in use
    /// and overwritten with zeros before returning.
    pub fn blake3_hmac<L: MemoryLock, const VP: usize, const VPS: usize>(
        vault: &SealingKey<L, VP, VPS>,
        plaintext: &[u8],
    ) -> (r: Blake3Hash)
        requires
            vault.wf(),
            (VP as int) * (VPS as int) <= usize::MAX,
        ensures
            r@ == blake3_keyed_of(vault.kek_spec(), plaintext@),
    {
        let mut kek = vault.kek();
        let _kek_locked = vault.mlock_kek(&kek);
        let digest = blake3_keyed_hash_bytes(kek.expose_borrowed(), plaintext);
        let _kek_unlocked = vault.munlock_kek(&kek);
        kek.zeroize();
        ZeroizeArray::new(digest)
    }

    /// Keyed Blake3 digest of an ordered sequence of buffers under the
    /// vault's key-encryption-key: the digest of their concatenation in the
    /// given order. The concatenation scratch and the derived key are
    /// overwritten with zeros before returning.
    pub fn blake3_keyed_hash_with_array<L: MemoryLock, const VP: usize, const VPS: usize>(
        vault: &SealingKey<L, VP, VPS>,
        plaintext_array: &Vec<Vec<u8>>,
    ) -> (r: Blake3Hash)
        requires
            vault.wf(),
            (VP as int) * (VPS as int) <= usize::MAX,
            concat_of(plaintext_array@.map_values(|v: Vec<u8>| v@)).len() <= usize::MAX,
        ensures
            r@ == blake3_keyed_of(
                vault.kek_spec(),
                concat_of(plaintext_array@.map_values(|v: Vec<u8>| v@)),
            ),
    {
        let ghost parts = plaintext_array@.map_values(|v: Vec<u8>| v@);
        let mut concat: Vec<u8> = Vec::new();
        let mut i: usize = 0;
        while i < plaintext_array.len()
            invariant
                0 <= i <= plaintext_array@.len(),
                parts == plaintext_array@.map_values(|v: Vec<u8>| v@),
                concat_of(parts).len() <= usize::MAX,
                concat@ == concat_of(parts.take(i as int)),
            decreases plaintext_array@.len() - i,
        {
            proof {
                assert(parts[i as int] == plaintext_array@[i as int]@);
                lemma_concat_of_take_step(parts, i as int);
                lemma_concat_of_take_len(parts, i as int + 1);
            }
            push_all(&mut concat, plaintext_array[i].as_slice());
            i += 1;
        }
        proof {
            assert(parts.take(parts.len() as int) =~= parts);
        }
        let mut kek = vault.kek();
        let _kek_locked = vault.mlock_kek(&kek);
        let digest = blake3_keyed_hash_bytes(kek.expose_borrowed(), concat.as_slice());
        let _kek_unlocked = vault.munlock_kek(&kek);
        kek.zeroize();
        zero_vec(&mut concat);
        ZeroizeArray::new(digest)
    }

    /// Derives a fresh 32-byte purpose-specific subkey from the vault's
    /// key-encryption-key and a human-readable context string, so callers
    /// never reuse the raw key directly. The derived key is pinned while in
    /// use and overwritten with zeros before returning.
    pub fn blake3_hkdf<L: MemoryLock, const VP: usize, const VPS: usize>(
        vault: &SealingKey<L, VP, VPS>,
        plaintext: &str,
    ) -> (r: ZeroizeArray<SECRET_KEY_32BYTE>)
        requires
            vault.wf(),
            (VP as int) * (VPS as int) <= usize::MAX,
        ensures
            r@ == blake3_derived_of(plaintext@, vault.kek_spec()),
    {
        let mut kek = vault.kek();
        let _kek_locked = vault.mlock_kek(&kek);
        let derived = blake3_derive_key_bytes(plaintext, kek.expose_borrowed().as_slice());
        let _kek_unlocked = vault.munlock_kek(&kek);
        kek.zeroize();
        ZeroizeArray::new(derived)
    }

    /// Signs `message` with the Ed25519 secret key this container holds,
    /// decrypting it through the 32-byte typed accessor first. The
    /// decrypted key is overwritten with zeros as soon as the signature
    /// exists; failures of the typed accessor pass through unchanged.
    pub fn sign<L: MemoryLock, const VP: usize, const VPS: usize>(
        &self,
        vault: &SealingKey<L, VP, VPS>,
        message: &[u8],
    ) -> (r: MemSecurityResult<ZeroizeArray<64>>)
        requires
            vault.wf(),
            (VP as int) * (VPS as int) <= usize::MAX,
        ensures
            forall|secret: Seq<u8>|
                (self.ciphertext_spec() == xchacha_seal(
                    vault.kek_spec(),
                    self.nonce_spec(),
                    secret,
                ) && secret.len() == SECRET_KEY_32BYTE) ==> (r matches Ok(sig) && sig@
                    == ed25519_signature_of(secret, message@)),
            forall|pt: Seq<u8>|
                (self.ciphertext_spec() == xchacha_seal(vault.kek_spec(), self.nonce_spec(), pt)
                    && pt.len() != SECRET_KEY_32BYTE) ==> r
                    == MemSecurityResult::<ZeroizeArray<64>>::Err(
                    MemSecurityErr::InvalidArrayLength {
                        expected: SECRET_KEY_32BYTE,
                        found: pt.len() as usize,
                    },
                ),
            (forall|pt: Seq<u8>|
                self.ciphertext_spec() != xchacha_seal(vault.kek_spec(), self.nonce_spec(), pt))
                ==> r == MemSecurityResult::<ZeroizeArray<64>>::Err(
                MemSecurityErr::DecryptionError,
            ),
            r matches Err(e) ==> (e matches MemSecurityErr::InvalidArrayLength { .. } || e
                == MemSecurityErr::DecryptionError),
    {
        let mut encrypted_key = self.decrypt_32byte(vault)?;
        let signature = ed25519_sign(encrypted_key.expose_borrowed(), message);
        encrypted_key.zeroize();
        Ok(ZeroizeArray::new(signature))
    }

    /// Performs a Diffie-Hellman exchange between the X25519 static secret
    /// this container holds and the given public key, decrypting the secret
    /// through the 32-byte typed accessor first. The decrypted secret is
    /// overwritten with zeros as soon as the shared secret exists; failures
    /// of the typed accessor pass through unchanged.
    pub fn x25519_dh<L: MemoryLock, const VP: usize, const VPS: usize>(
        &self,
        vault: &SealingKey<L, VP, VPS>,
        x25519_public_key: &X25519PublicKey,
    ) -> (r: MemSecurityResult<X25519SharedSecretKey>)
        requires
            vault.wf(),
            (VP as int) * (VPS as int) <= usize::MAX,
        ensures
            forall|secret: Seq<u8>|
                (self.ciphertext_spec() == xchacha_seal(
                    vault.kek_spec(),
                    self.nonce_spec(),
                    secret,
                ) && secret.len() == SECRET_KEY_32BYTE) ==> (r matches Ok(shared) && shared@
                    == x25519_shared_of(secret, x25519_public_key@)),
            forall|pt: Seq<u8>|
                (self.ciphertext_spec() == xchacha_seal(vault.kek_spec(), self.nonce_spec(), pt)
                    && pt.len() != SECRET_KEY_32BYTE) ==> r
                    == MemSecurityResult::<X25519SharedSecretKey>::Err(
                    MemSecurityErr::InvalidArrayLength {
                        expected: SECRET_KEY_32BYTE,
                        found: pt.len() as usize,
                    },
                ),
            (forall|pt: Seq<u8>|
                self.ciphertext_spec() != xchacha_seal(vault.kek_spec(), self.nonce_spec(), pt))
                ==> r == MemSecurityResult::<X25519SharedSecretKey>::Err(
                MemSecurityErr::DecryptionError,
            ),
            r matches Err(e) ==> (e matches MemSecurityErr::InvalidArrayLength { .. } || e
                == MemSecurityErr::DecryptionError),
    {
        let mut encrypted_key = self.decrypt_32byte(vault)?;
        let shared = x25519_diffie_hellman(
            encrypted_key.expose_borrowed(),
            x25519_public_key.expose_borrowed(),
        );
        encrypted_key.zeroize();
        Ok(ZeroizeArray::new(shared))
    }

    /// Derives the X25519 public key belonging to the static secret this
    /// container holds, decrypting the secret through the 32-byte typed
    /// accessor first. The decrypted secret is overwritten with zeros as
    /// soon as the public key exists; failures of the typed accessor pass
    /// through unchanged.
    pub fn x25519_public_key<L: MemoryLock, const VP: usize, const VPS: usize>(
        &self,
        vault: &SealingKey<L, VP, VPS>,
    ) -> (r: MemSecurityResult<X25519PublicKey>)
        requires
            vault.wf(),
            (VP as int) * (VPS as int) <= usize::MAX,
        ensures
            forall|secret: Seq<u8>|
                (self.ciphertext_spec() == xchacha_seal(
                    vault.kek_spec(),
                    self.nonce_spec(),
                    secret,
                ) && secret.len() == SECRET_KEY_32BYTE) ==> (r matches Ok(public) && public@
                    == x25519_public_of(secret)),
            forall|pt: Seq<u8>|
                (self.ciphertext_spec() == xchacha_seal(vault.kek_spec(), self.nonce_spec(), pt)
                    && pt.len() != SECRET_KEY_32BYTE) ==> r
                    == MemSecurityResult::<X25519PublicKey>::Err(
                    MemSecurityErr::InvalidArrayLength {
                        expected: SECRET_KEY_32BYTE,
                        found: pt.len() as usize,
                    },
                ),
            (forall|pt: Seq<u8>|
                self.ciphertext_spec() != xchacha_seal(vault.kek_spec(), self.nonce_spec(), pt))
                ==> r == MemSecurityResult::<X25519PublicKey>::Err(
                MemSecurityErr::DecryptionError,
            ),
            r matches Err(e) ==> (e matches MemSecurityErr::InvalidArrayLength { .. } || e
                == MemSecurityErr::DecryptionError),
    {
        let mut encrypted_key = self.decrypt_32byte(vault)?;
        let public = x25519_derive_public(encrypted_key.expose_borrowed());
        encrypted_key.zeroize();
        Ok(ZeroizeArray::new(public))
    }

    /// Draws a fresh version-4 UUID and encrypts it into this container
    /// immediately, so the identifier never rests in memory unprotected.
    /// A 16-byte message is always within the cipher's limit, so the call
    /// always succeeds.
    pub fn encrypt_uuid<L: MemoryLock, const VP: usize, const VPS: usize>(
        &mut self,
        vault: &SealingKey<L, VP, VPS>,
    ) -> (r: MemSecurityResult<()>)
        requires
            vault.wf(),
            (VP as int) * (VPS as int) <= usize::MAX,
        ensures
            r is Ok,
            final(self).ciphertext_spec().len() == SECRET_KEY_16BYTE + TAG_LENGTH,
            exists|u: Seq<u8>|
                u.len() == SECRET_KEY_16BYTE && (u[6] >> 4) == 4 && (u[8] >> 6) == 2
                    && final(self).ciphertext_spec() == xchacha_seal(
                    vault.kek_spec(),
                    final(self).nonce_spec(),
                    u,
                ),
    {
        let mut uuid_bytes = uuid_v4_bytes();
        let ghost uuid_seq = uuid_bytes@;
        let outcome = self.encrypt(vault, uuid_bytes.as_slice());
        uuid_bytes = [0u8; 16];
        proof {
            assert(outcome is Ok);
            assert(uuid_seq.len() == SECRET_KEY_16BYTE);
            assert((uuid_seq[6] >> 4) == 4 && (uuid_seq[8] >> 6) == 2);
            assert(self.ciphertext_spec() == xchacha_seal(
                vault.kek_spec(),
                self.nonce_spec(),
                uuid_seq,
            ));
            assert(exists|u: Seq<u8>|
                u.len() == SECRET_KEY_16BYTE && (u[6] >> 4) == 4 && (u[8] >> 6) == 2
                    && self.ciphertext_spec() == xchacha_seal(
                    vault.kek_spec(),
                    self.nonce_spec(),
                    u,
                ));
        }
        outcome
    }

    /// Decrypts a 16-byte identifier stored by `encrypt_uuid`, through the
    /// 16-byte typed accessor.
    pub fn decrypt_uuid<L: MemoryLock, const VP: usize, const VPS: usize>(
        &self,
        vault: &SealingKey<L, VP, VPS>,
    ) -> (r: MemSecurityResult<ZeroizeArray<SECRET_KEY_16BYTE>>)
        requires
            vault.wf(),
            (VP as int) * (VPS as int) <= usize::MAX,
        ensures
            r matches Ok(a) ==> self.ciphertext_spec() == xchacha_seal(
                vault.kek_spec(),
                self.nonce_spec(),
                a@,
            ) && a@.len() == SECRET_KEY_16BYTE,
            forall|pt: Seq<u8>|
                (self.ciphertext_spec() == xchacha_seal(vault.kek_spec(), self.nonce_spec(), pt)
                    && pt.len() == SECRET_KEY_16BYTE) ==> (r matches Ok(a) && a@ == pt),
    {
        self.decrypt_16byte(vault)
    }

    /// The round-trip law: a plaintext sealed into a fresh container by
    /// `encrypt` is recovered exactly by `decrypt` from the same vault.
    /// The only admissible failure is the cipher refusing a message beyond
    /// its length limit; a successful encryption can never decrypt to
    /// different bytes.
    pub fn round_trip<L: MemoryLock, const VP: usize, const VPS: usize>(
        vault: &SealingKey<L, VP, VPS>,
        plaintext: &[u8],
    ) -> (r: MemSecurityResult<ZeroizeBytes>)
        requires
            vault.wf(),
            (VP as int) * (VPS as int) <= usize::MAX,
            plaintext@.len() + 16 <= isize::MAX,
        ensures
            r matches Ok(p) ==> p@ == plaintext@,
            r is Err ==> r == MemSecurityResult::<ZeroizeBytes>::Err(MemSecurityErr::EncryptionErr)
                && !xchacha_message_fits(plaintext@.len() as nat),
    {
        let mut container = EncryptedMem::new();
        container.encrypt(vault, plaintext)?;
        match container.decrypt(vault) {
            Ok(recovered) => Ok(recovered),
            Err(e) => {
                proof {
                    assert(false);
                }
                Err(MemSecurityErr::EncryptionErr)
            },
        }
    }
}

impl Default for EncryptedMem {
    /// A container as `new` builds it: empty ciphertext, fresh non-zero
    /// nonce.
    fn default() -> (r: Self)
        ensures
            r.ciphertext_spec() == Seq::<u8>::empty(),
            r.nonce_spec().len() == XNONCE_LENGTH,
            !is_all_zero(r.nonce_spec()),
    {
        Self::new()
    }
}

/// Relies on uuid::Uuid::new_v4 and Uuid::as_bytes: the 16 bytes of a fresh
/// version-4 UUID. The bytes are random except for the fixed version
/// nibble (4, high nibble of byte 6) and variant bits (binary 10, top of
/// byte 8), which new_v4 masks in deterministically; nothing more is
/// promised of the values.
#[verifier::external_body]
fn uuid_v4_bytes() -> (r: [u8; 16])
    ensures
        (r@[6] >> 4) == 4,
        (r@[8] >> 6) == 2,
{
    *uuid::Uuid::new_v4().as_bytes()
}

} // verus!
