use vstd::prelude::*;

verus! {

/// The 32-byte digest that `blake3::hash` computes for the given input.
/// The digest is a function of the input bytes alone.
pub uninterp spec fn blake3_hash_of(data: Seq<u8>) -> Seq<u8>;

/// The 32-byte digest that `blake3::keyed_hash` computes from a 32-byte key
/// and the input. The digest is a function of the key and input alone.
pub uninterp spec fn blake3_keyed_of(key: Seq<u8>, data: Seq<u8>) -> Seq<u8>;

/// The 32-byte subkey that `blake3::derive_key` computes from a context
/// string and key material. The subkey is a function of the two alone.
pub uninterp spec fn blake3_derived_of(context: Seq<char>, key_material: Seq<u8>) -> Seq<u8>;

/// Relies on blake3::hash: a 32-byte collision-resistant digest of the input
/// bytes, depending on the input alone.
#[verifier::external_body]
pub(crate) fn blake3_hash_bytes(data: &[u8]) -> (r: [u8; 32])
    ensures
        r@ == blake3_hash_of(data@),
{
    *blake3::hash(data).as_bytes()
}

/// Relies on blake3::keyed_hash: a 32-byte keyed digest depending on the key
/// and the input bytes alone.
#[verifier::external_body]
pub(crate) fn blake3_keyed_hash_bytes(key: &[u8; 32], data: &[u8]) -> (r: [u8; 32])
    ensures
        r@ == blake3_keyed_of(key@, data@),
{
    *blake3::keyed_hash(key, data).as_bytes()
}

/// Relies on blake3::derive_key: a 32-byte subkey depending on the context
/// string and the key material alone.
#[verifier::external_body]
pub(crate) fn blake3_derive_key_bytes(context: &str, key_material: &[u8]) -> (r: [u8; 32])
    ensures
        r@ == blake3_derived_of(context@, key_material@),
{
    blake3::derive_key(context, key_material)
}

} // verus!
