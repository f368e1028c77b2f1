use vstd::prelude::*;

use chacha20poly1305::aead::Aead;
use chacha20poly1305::Key;
use chacha20poly1305::KeyInit;
use chacha20poly1305::XChaCha12Poly1305;
use chacha20poly1305::XNonce;

verus! {

/// The ciphertext, with its 16-byte Poly1305 tag appended, that
/// XChaCha12Poly1305 produces from a 32-byte key, a 24-byte nonce and a
/// plaintext, with empty associated data. The result is a function of the
/// three alone.
pub uninterp spec fn xchacha_seal(key: Seq<u8>, nonce: Seq<u8>, plaintext: Seq<u8>) -> Seq<u8>;

/// The one message bound under which the cipher accepts an input: fewer
/// than u32::MAX keystream blocks of 64 bytes.
pub open spec fn xchacha_message_fits(len: nat) -> bool {
    len / 64 < 0xFFFF_FFFF
}

/// Relies on chacha20poly1305::XChaCha12Poly1305 through aead::Aead::encrypt:
/// on success the result is the ciphertext with the 16-byte tag appended,
/// a function of key, nonce and plaintext alone; the cipher rejects exactly
/// the messages of u32::MAX or more 64-byte blocks, so every message under
/// that bound encrypts.
#[verifier::external_body]
pub(crate) fn xchacha_encrypt(key: &[u8; 32], nonce: &[u8; 24], plaintext: &[u8]) -> (r: Option<
    Vec<u8>,
>)
    ensures
        r matches Some(c) ==> c@ == xchacha_seal(key@, nonce@, plaintext@) && c@.len() == plaintext@.len()
            + 16,
        r is None ==> !xchacha_message_fits(plaintext@.len() as nat),
{
    let cipher = XChaCha12Poly1305::new(&Key::from(*key));
    match cipher.encrypt(&XNonce::from(*nonce), plaintext) {
        Ok(ciphertext) => Some(ciphertext),
        Err(_) => None,
    }
}

/// Relies on chacha20poly1305::XChaCha12Poly1305 through aead::Aead::decrypt:
/// decryption inverts encryption under the same key and nonce, recovering
/// the plaintext from exactly the ciphertexts the cipher produced under
/// them; every other input is rejected (inauthentic tag or malformed
/// ciphertext).
#[verifier::external_body]
pub(crate) fn xchacha_decrypt(key: &[u8; 32], nonce: &[u8; 24], ciphertext: &[u8]) -> (r: Option<
    Vec<u8>,
>)
    ensures
        r matches Some(p) ==> ciphertext@ == xchacha_seal(key@, nonce@, p@) && p@.len() + 16
            == ciphertext@.len() && (forall|pt: Seq<u8>|
            ciphertext@ == xchacha_seal(key@, nonce@, pt) ==> pt == p@),
        r is None ==> (forall|pt: Seq<u8>| ciphertext@ != xchacha_seal(key@, nonce@, pt)),
{
    let cipher = XChaCha12Poly1305::new(&Key::from(*key));
    match cipher.decrypt(&XNonce::from(*nonce), ciphertext) {
        Ok(plaintext) => Some(plaintext),
        Err(_) => None,
    }
}

} // verus!
