//! In-process secret storage: zeroizing byte buffers, a multi-page
//! sealing-key vault with an on-demand key-encryption-key, and an
//! authenticated-encryption container built on top of both.

mod byte_buffer;
mod byteops;
mod cipher;
mod cryptography_structures;
mod curves;
mod encrypted_mem;
mod errors;
mod hashing;
mod keymaker;
mod mem_lock;
mod random;
mod traits;
mod zeroizable_arrays;

pub use byte_buffer::bytes_mut_view;
pub use byteops::bytes_eq;
pub use byteops::concat_of;
pub use byteops::is_all_zero;
pub use byteops::slice_all_zero;
pub use cipher::xchacha_seal;
pub use cryptography_structures::Blake3Hash;
pub use cryptography_structures::Ed25519KeyPair;
pub use cryptography_structures::Ed25519PublicKey;
pub use cryptography_structures::Ed25519SecretKey;
pub use cryptography_structures::Key32Byte;
pub use cryptography_structures::Poly1305Tag;
pub use cryptography_structures::TaiTimestamp;
pub use cryptography_structures::X25519EphemeralSecretKey;
pub use cryptography_structures::X25519PublicKey;
pub use cryptography_structures::X25519ReusableSecretKey;
pub use cryptography_structures::X25519SharedSecretKey;
pub use cryptography_structures::X25519StaticKeyPair;
pub use cryptography_structures::X25519StaticSecretKey;
pub use curves::ed25519_signature_of;
pub use curves::x25519_public_of;
pub use curves::x25519_shared_of;
pub use encrypted_mem::lemma_kek_stable;
pub use encrypted_mem::EncryptedMem;
pub use encrypted_mem::SealingKey;
pub use encrypted_mem::DEFAULT_VAULT_PAGES;
pub use encrypted_mem::DEFAULT_VAULT_PAGE_SIZE;
pub use encrypted_mem::DIGEST_LENGTH;
pub use encrypted_mem::POLY1305_TAG_SIZE;
pub use encrypted_mem::SECRET_KEY_16BYTE;
pub use encrypted_mem::SECRET_KEY_32BYTE;
pub use encrypted_mem::TAG_LENGTH;
pub use encrypted_mem::XNONCE_LENGTH;
pub use errors::MemSecurityErr;
pub use errors::MemSecurityResult;
pub use hashing::blake3_derived_of;
pub use hashing::blake3_hash_of;
pub use hashing::blake3_keyed_of;
pub use keymaker::SealingKeyVault;
pub use mem_lock::MemoryLock;
pub use mem_lock::NoLock;
pub use random::CsprngArray;
pub use random::CsprngArraySimple;
pub use random::MinMaxNum;
pub use traits::ToBlake3Hash;
pub use zeroizable_arrays::ZeroizeArray;
pub use zeroizable_arrays::ZeroizeArrayVec;
pub use zeroizable_arrays::ZeroizeArrayVecBytes;
pub use zeroizable_arrays::ZeroizeByte;
pub use zeroizable_arrays::ZeroizeBytes;
pub use zeroizable_arrays::ZeroizeBytesArray;
