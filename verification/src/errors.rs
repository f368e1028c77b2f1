use vstd::prelude::*;

verus! {

/// Shorthand for results whose error is [`MemSecurityErr`].
pub type MemSecurityResult<T> = Result<T, MemSecurityErr>;

/// The closed set of failures this crate reports. No variant ever carries
/// secret bytes; the length variants carry only the sizes needed to diagnose
/// the mismatch.
#[derive(Debug, PartialEq, Eq, PartialOrd, Ord, Clone, Copy, Structural)]
pub enum MemSecurityErr {
    /// The authenticated cipher rejected an encryption request.
    EncryptionErr,
    /// Decryption failed: the authentication tag did not match or the
    /// ciphertext was malformed.
    DecryptionError,
    /// A decrypted value did not have the fixed length a typed accessor
    /// promises.
    InvalidArrayLength {
        /// The length the accessor promises.
        expected: usize,
        /// The length that was actually found.
        found: usize,
    },
    /// A variable-length slice could not fill a fixed-length buffer.
    InvalidSliceLength {
        /// The fixed length of the destination buffer.
        expected: usize,
        /// The length of the slice that was offered.
        found: usize,
    },
}

} // verus!
