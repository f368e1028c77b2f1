use vstd::prelude::*;

use ed25519_dalek::ed25519::signature::Signer;
use ed25519_dalek::SigningKey;
use x25519_dalek::PublicKey;
use x25519_dalek::StaticSecret;

verus! {

/// The 64-byte Ed25519 signature that ed25519_dalek produces for a message
/// under a 32-byte secret key. Ed25519 signing is deterministic: the
/// signature is a function of the key and message alone.
pub uninterp spec fn ed25519_signature_of(secret: Seq<u8>, message: Seq<u8>) -> Seq<u8>;

/// The 32-byte X25519 shared secret that x25519_dalek computes from a
/// 32-byte static secret and a 32-byte public key. The result is a function
/// of the two alone.
pub uninterp spec fn x25519_shared_of(secret: Seq<u8>, public: Seq<u8>) -> Seq<u8>;

/// The 32-byte X25519 public key that x25519_dalek derives from a 32-byte
/// static secret. The result is a function of the secret alone.
pub uninterp spec fn x25519_public_of(secret: Seq<u8>) -> Seq<u8>;

/// Relies on ed25519_dalek::SigningKey::from_bytes and signature::Signer:
/// the deterministic 64-byte Ed25519 signature of the message under the
/// secret key. Signing with a SigningKey never fails.
#[verifier::external_body]
pub(crate) fn ed25519_sign(secret: &[u8; 32], message: &[u8]) -> (r: [u8; 64])
    ensures
        r@ == ed25519_signature_of(secret@, message@),
{
    let signing_key = SigningKey::from_bytes(secret);
    signing_key.sign(message).to_bytes()
}

/// Relies on x25519_dalek::StaticSecret::diffie_hellman: the 32-byte shared
/// secret of this static secret and the given public key.
#[verifier::external_body]
pub(crate) fn x25519_diffie_hellman(secret: &[u8; 32], public: &[u8; 32]) -> (r: [u8; 32])
    ensures
        r@ == x25519_shared_of(secret@, public@),
{
    let static_secret = StaticSecret::from(*secret);
    let public_key = PublicKey::from(*public);
    static_secret.diffie_hellman(&public_key).to_bytes()
}

/// Relies on the From impl that derives an x25519_dalek::PublicKey from a
/// StaticSecret: the 32-byte public key belonging to the secret.
#[verifier::external_body]
pub(crate) fn x25519_derive_public(secret: &[u8; 32]) -> (r: [u8; 32])
    ensures
        r@ == x25519_public_of(secret@),
{
    let static_secret = StaticSecret::from(*secret);
    PublicKey::from(&static_secret).to_bytes()
}

} // verus!
