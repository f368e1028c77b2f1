use vstd::prelude::*;

use crate::hashing::blake3_hash_bytes;
use crate::hashing::blake3_hash_of;
use crate::traits::ToBlake3Hash;
use crate::zeroizable_arrays::ZeroizeArray;
use crate::zeroizable_arrays::ZeroizeBytes;
use crate::zeroizable_arrays::ZeroizeBytesArray;

verus! {

/// The 32 bytes of a Blake3 hash.
pub type Blake3Hash = ZeroizeArray<32>;

/// The 64 bytes of an Ed25519 keypair.
pub type Ed25519KeyPair = ZeroizeArray<64>;

/// The 32 bytes of an Ed25519 public key.
pub type Ed25519PublicKey = ZeroizeArray<32>;

/// The 32 bytes of an Ed25519 secret key.
pub type Ed25519SecretKey = ZeroizeArray<32>;

/// The 64 bytes of an X25519 static keypair.
pub type X25519StaticKeyPair = ZeroizeArray<64>;

/// The 32 bytes of an X25519 public key.
pub type X25519PublicKey = ZeroizeArray<32>;

/// The 32 bytes of an X25519 static secret key.
pub type X25519StaticSecretKey = ZeroizeArray<32>;

/// The 32 bytes of an X25519 ephemeral secret key.
pub type X25519EphemeralSecretKey = ZeroizeArray<32>;

/// The 32 bytes of an X25519 reusable secret key.
pub type X25519ReusableSecretKey = ZeroizeArray<32>;

/// The 32 bytes of an X25519 shared secret from a Diffie-Hellman exchange.
pub type X25519SharedSecretKey = ZeroizeArray<32>;

/// A 32-byte secret key.
pub type Key32Byte = ZeroizeArray<32>;

/// The 16 bytes of a Poly1305 authentication tag.
pub type Poly1305Tag = ZeroizeArray<16>;

/// The 12 bytes of a Tai64N timestamp.
pub type TaiTimestamp = ZeroizeArray<12>;

impl<const N: usize> ToBlake3Hash for ZeroizeArray<N> {
    open spec fn hash_spec(&self) -> Seq<u8> {
        blake3_hash_of(self@)
    }

    fn hash(&self) -> (r: Blake3Hash) {
        let digest = blake3_hash_bytes(self.expose_borrowed().as_slice());
        ZeroizeArray::new(digest)
    }
}

impl<const N: usize> ToBlake3Hash for [u8; N] {
    open spec fn hash_spec(&self) -> Seq<u8> {
        blake3_hash_of(self@)
    }

    fn hash(&self) -> (r: Blake3Hash) {
        let digest = blake3_hash_bytes(self.as_slice());
        ZeroizeArray::new(digest)
    }
}

impl ToBlake3Hash for ZeroizeBytes {
    open spec fn hash_spec(&self) -> Seq<u8> {
        blake3_hash_of(self@)
    }

    fn hash(&self) -> (r: Blake3Hash) {
        let digest = blake3_hash_bytes(crate::byte_buffer::bm_as_slice(self.expose_borrowed()));
        ZeroizeArray::new(digest)
    }
}

impl<const N: usize> ToBlake3Hash for ZeroizeBytesArray<N> {
    open spec fn hash_spec(&self) -> Seq<u8> {
        blake3_hash_of(self@)
    }

    fn hash(&self) -> (r: Blake3Hash) {
        let digest = blake3_hash_bytes(crate::byte_buffer::bm_as_slice(self.expose_borrowed()));
        ZeroizeArray::new(digest)
    }
}

} // verus!
