use vstd::prelude::*;

use crate::byte_buffer::bm_as_slice;
use crate::byte_buffer::bm_clear;
use crate::byte_buffer::bm_clone;
use crate::byte_buffer::bm_new;
use crate::byte_buffer::bm_put_slice;
use crate::byte_buffer::bm_put_u8;
use crate::byte_buffer::bm_with_capacity;
use crate::byte_buffer::bm_zero_fill;
use crate::byte_buffer::bytes_mut_view;
use crate::byteops::bytes_eq;
use crate::byteops::is_all_zero;
use crate::errors::MemSecurityErr;
use crate::errors::MemSecurityResult;
use crate::hashing::blake3_hash_bytes;
use crate::hashing::blake3_hash_of;
use crate::random::CsprngArray;
use crate::random::CsprngArraySimple;
use crate::traits::ToBlake3Hash;
use bytes::BytesMut;

verus! {

/// A single byte that is overwritten with zero by `zeroize`. Equality is
/// decided by comparing Blake3 digests of the byte, never the raw value.
pub struct ZeroizeByte(u8);

impl View for ZeroizeByte {
    type V = u8;

    closed spec fn view(&self) -> u8 {
        self.0
    }
}

impl ZeroizeByte {
    /// Wraps the given byte.
    pub fn new(value: u8) -> (r: Self)
        ensures
            r@ == value,
    {
        ZeroizeByte(value)
    }

    /// Wraps a zero byte.
    pub fn new_zeroed() -> (r: Self)
        ensures
            r@ == 0u8,
    {
        ZeroizeByte(0u8)
    }

    /// Overwrites the byte with the given value.
    pub fn set(&mut self, value: u8)
        ensures
            final(self)@ == value,
    {
        self.0 = value;
    }

    /// Copies the byte out. The copy is as sensitive as the original.
    pub fn expose_owned(&self) -> (r: u8)
        ensures
            r == self@,
    {
        self.0
    }

    /// Borrows the byte.
    pub fn expose_borrowed(&self) -> (r: &u8)
        ensures
            *r == self@,
    {
        &self.0
    }

    /// Copies this value.
    pub fn clone(&self) -> (r: ZeroizeByte)
        ensures
            r@ == self@,
    {
        ZeroizeByte(self.0)
    }

    /// Takes ownership of this value.
    pub fn own(self) -> (r: Self)
        ensures
            r@ == self@,
    {
        self
    }

    /// Wraps one byte drawn from the CSPRNG.
    pub fn csprng() -> Self {
        ZeroizeByte(CsprngArraySimple::gen_u8_byte())
    }

    /// Overwrites the byte with zero.
    pub fn zeroize(&mut self)
        ensures
            final(self)@ == 0u8,
    {
        self.0 = 0u8;
    }
}

impl PartialEq for ZeroizeByte {
    fn eq(&self, other: &Self) -> (r: bool) {
        let self_bytes = [self.0];
        let other_bytes = [other.0];
        let self_digest = blake3_hash_bytes(self_bytes.as_slice());
        let other_digest = blake3_hash_bytes(other_bytes.as_slice());
        proof {
            assert(self_bytes@ =~= seq![self@]);
            assert(other_bytes@ =~= seq![other@]);
        }
        bytes_eq(self_digest.as_slice(), other_digest.as_slice())
    }
}

impl vstd::std_specs::cmp::PartialEqSpecImpl for ZeroizeByte {
    open spec fn obeys_eq_spec() -> bool {
        true
    }

    open spec fn eq_spec(&self, other: &Self) -> bool {
        blake3_hash_of(seq![self@]) == blake3_hash_of(seq![other@])
    }
}

impl Eq for ZeroizeByte {

}

/// A fixed-length byte array of size `N` that is overwritten with zeros by
/// `zeroize`. Suited to fixed-size secrets such as keys. Equality is decided
/// by comparing Blake3 digests of the contents, never the raw bytes.
pub struct ZeroizeArray<const N: usize>([u8; N]);

impl<const N: usize> View for ZeroizeArray<N> {
    type V = Seq<u8>;

    closed spec fn view(&self) -> Seq<u8> {
        self.0@
    }
}

impl<const N: usize> ZeroizeArray<N> {
    /// Wraps the given array of bytes.
    pub fn new(value: [u8; N]) -> (r: Self)
        ensures
            r@ == value@,
    {
        ZeroizeArray(value)
    }

    /// Wraps an all-zero array of `N` bytes.
    pub fn new_zeroed() -> (r: Self)
        ensures
            r@.len() == N,
            is_all_zero(r@),
    {
        ZeroizeArray([0u8; N])
    }

    /// Replaces the contents with the given array of bytes.
    pub fn fill_from_array(self, value: [u8; N]) -> (r: Self)
        ensures
            r@ == value@,
    {
        let mut this = self;
        this.0 = value;
        this
    }

    /// Replaces the contents with the given array of bytes, in place.
    pub fn fill_from_array_borrowed(&mut self, value: [u8; N])
        ensures
            final(self)@ == value@,
    {
        self.0 = value;
    }

    /// Wraps the bytes of a slice that must hold exactly `N` bytes; a slice
    /// of any other length is reported as an invalid slice length.
    pub fn new_from_slice(value: &[u8]) -> (r: MemSecurityResult<Self>)
        ensures
            value@.len() == N ==> (r matches Ok(a) && a@ == value@),
            value@.len() != N ==> r == MemSecurityResult::<Self>::Err(
                MemSecurityErr::InvalidSliceLength { expected: N, found: value@.len() as usize },
            ),
    {
        if value.len() != N {
            return Err(MemSecurityErr::InvalidSliceLength { expected: N, found: value.len() });
        }
        let array: [u8; N] = crate::byteops::array_from_slice(value);
        Ok(ZeroizeArray::new(array))
    }

    /// Replaces the contents with the bytes of a slice that must hold exactly
    /// `N` bytes; a slice of any other length is reported as an invalid slice
    /// length and the contents stay as they were.
    pub fn fill_from_slice(self, value: &[u8]) -> (r: MemSecurityResult<Self>)
        ensures
            value@.len() == N ==> (r matches Ok(a) && a@ == value@),
            value@.len() != N ==> r == MemSecurityResult::<Self>::Err(
                MemSecurityErr::InvalidSliceLength { expected: N, found: value@.len() as usize },
            ),
    {
        if value.len() != N {
            return Err(MemSecurityErr::InvalidSliceLength { expected: N, found: value.len() });
        }
        let mut this = self;
        this.0 = crate::byteops::array_from_slice(value);
        Ok(this)
    }

    /// Replaces the contents in place with the bytes of a slice that must
    /// hold exactly `N` bytes; a slice of any other length is reported as an
    /// invalid slice length and the contents stay as they were.
    pub fn fill_from_slice_borrowed(&mut self, value: &[u8]) -> (r: MemSecurityResult<()>)
        ensures
            value@.len() == N ==> (r is Ok && final(self)@ == value@),
            value@.len() != N ==> (r == MemSecurityResult::<()>::Err(
                MemSecurityErr::InvalidSliceLength { expected: N, found: value@.len() as usize },
            ) && final(self)@ == old(self)@),
    {
        if value.len() != N {
            return Err(MemSecurityErr::InvalidSliceLength { expected: N, found: value.len() });
        }
        self.0 = crate::byteops::array_from_slice(value);
        Ok(())
    }

    /// Copies the contents out. The copy is as sensitive as the original.
    pub fn expose_owned(&self) -> (r: [u8; N])
        ensures
            r@ == self@,
    {
        self.0
    }

    /// Borrows the contents.
    pub fn expose_borrowed(&self) -> (r: &[u8; N])
        ensures
            r@ == self@,
    {
        &self.0
    }

    /// Copies this array.
    pub fn clone(&self) -> (r: ZeroizeArray<N>)
        ensures
            r@ == self@,
    {
        ZeroizeArray(self.0)
    }

    /// Takes ownership of this array.
    pub fn own(self) -> (r: Self)
        ensures
            r@ == self@,
    {
        self
    }

    /// Overwrites the byte at `index`.
    pub fn insert(&mut self, index: usize, value: u8)
        requires
            index < N,
        ensures
            final(self)@ == old(self)@.update(index as int, value),
    {
        self.0[index] = value;
    }

    /// Overwrites the contents with zeros.
    pub fn zeroize(&mut self)
        ensures
            final(self)@.len() == N,
            is_all_zero(final(self)@),
    {
        self.0 = [0u8; N];
    }
}

impl<const N: usize> PartialEq for ZeroizeArray<N> {
    fn eq(&self, other: &Self) -> (r: bool) {
        let self_digest = blake3_hash_bytes(self.0.as_slice());
        let other_digest = blake3_hash_bytes(other.0.as_slice());
        bytes_eq(self_digest.as_slice(), other_digest.as_slice())
    }
}

impl<const N: usize> vstd::std_specs::cmp::PartialEqSpecImpl for ZeroizeArray<N> {
    open spec fn obeys_eq_spec() -> bool {
        true
    }

    open spec fn eq_spec(&self, other: &Self) -> bool {
        blake3_hash_of(self@) == blake3_hash_of(other@)
    }
}

impl<const N: usize> Eq for ZeroizeArray<N> {

}

/// A growable byte buffer sized for a value of `N` bytes, backed by
/// `bytes::BytesMut` and emptied by `zeroize` after its storage is
/// overwritten with zeros. Equality is decided by comparing Blake3 digests
/// of the contents, never the raw bytes.
pub struct ZeroizeBytesArray<const N: usize>(BytesMut);

impl<const N: usize> View for ZeroizeBytesArray<N> {
    type V = Seq<u8>;

    closed spec fn view(&self) -> Seq<u8> {
        bytes_mut_view(self.0)
    }
}

impl<const N: usize> ZeroizeBytesArray<N> {
    /// An empty buffer with room reserved for `N` bytes.
    pub fn new() -> (r: Self)
        requires
            N <= isize::MAX,
        ensures
            r@ == Seq::<u8>::empty(),
    {
        ZeroizeBytesArray(bm_with_capacity(N))
    }

    /// A buffer holding the `N` given bytes.
    pub fn new_with_data(value: [u8; N]) -> (r: Self)
        requires
            N <= isize::MAX,
        ensures
            r@ == value@,
    {
        let mut value_bytes = bm_with_capacity(N);
        bm_put_slice(&mut value_bytes, value.as_slice());
        ZeroizeBytesArray(value_bytes)
    }

    /// A buffer holding `N` bytes drawn from the CSPRNG.
    pub fn new_with_csprng() -> (r: Self)
        requires
            N <= isize::MAX,
        ensures
            r@.len() == N,
    {
        let mut value_bytes = bm_with_capacity(N);
        let mut value = CsprngArray::<N>::gen();
        let exposed = value.expose();
        bm_put_slice(&mut value_bytes, exposed.as_slice());
        value.zeroize();
        ZeroizeBytesArray(value_bytes)
    }

    /// Replaces the contents with the `N` given bytes. The old contents are
    /// overwritten with zeros first.
    pub fn set(self, value: [u8; N]) -> (r: Self)
        requires
            N <= isize::MAX,
        ensures
            r@ == value@,
    {
        let mut this = self;
        bm_zero_fill(&mut this.0);
        bm_clear(&mut this.0);
        bm_put_slice(&mut this.0, value.as_slice());
        this
    }

    /// Appends one byte to the contents.
    pub fn set_byte(&mut self, value: u8)
        requires
            old(self)@.len() + 1 <= isize::MAX,
        ensures
            final(self)@ == old(self)@.push(value),
    {
        bm_put_u8(&mut self.0, value);
    }

    /// Replaces the contents with those of another buffer. The old contents
    /// are overwritten with zeros first.
    pub fn set_bytes_mut(self, value: BytesMut) -> (r: Self)
        ensures
            r@ == bytes_mut_view(value),
    {
        let mut this = self;
        bm_zero_fill(&mut this.0);
        bm_clear(&mut this.0);
        bm_put_slice(&mut this.0, bm_as_slice(&value));
        this
    }

    /// An empty buffer with room reserved for `N` bytes plus the given
    /// additional capacity.
    pub fn with_additional_capacity(capacity: usize) -> (r: Self)
        requires
            N + capacity <= isize::MAX,
        ensures
            r@ == Seq::<u8>::empty(),
    {
        ZeroizeBytesArray(bm_with_capacity(N + capacity))
    }

    /// Borrows the backing buffer.
    pub fn expose_borrowed(&self) -> (r: &BytesMut)
        ensures
            bytes_mut_view(*r) == self@,
    {
        &self.0
    }

    /// Copies this buffer.
    pub fn clone(&self) -> (r: ZeroizeBytesArray<N>)
        ensures
            r@ == self@,
    {
        ZeroizeBytesArray(bm_clone(&self.0))
    }

    /// Overwrites the contents with zeros, then empties the buffer.
    pub fn zeroize(&mut self)
        ensures
            final(self)@ == Seq::<u8>::empty(),
    {
        bm_zero_fill(&mut self.0);
        bm_clear(&mut self.0);
    }
}

impl<const N: usize> PartialEq for ZeroizeBytesArray<N> {
    fn eq(&self, other: &Self) -> (r: bool) {
        let self_digest = blake3_hash_bytes(bm_as_slice(&self.0));
        let other_digest = blake3_hash_bytes(bm_as_slice(&other.0));
        bytes_eq(self_digest.as_slice(), other_digest.as_slice())
    }
}

impl<const N: usize> vstd::std_specs::cmp::PartialEqSpecImpl for ZeroizeBytesArray<N> {
    open spec fn obeys_eq_spec() -> bool {
        true
    }

    open spec fn eq_spec(&self, other: &Self) -> bool {
        blake3_hash_of(self@) == blake3_hash_of(other@)
    }
}

impl<const N: usize> Eq for ZeroizeBytesArray<N> {

}

/// A growable byte buffer with no fixed size, backed by `bytes::BytesMut`
/// and emptied by `zeroize` after its storage is overwritten with zeros.
/// Equality is decided by comparing Blake3 digests of the contents, never
/// the raw bytes.
pub struct ZeroizeBytes(BytesMut);

impl View for ZeroizeBytes {
    type V = Seq<u8>;

    closed spec fn view(&self) -> Seq<u8> {
        bytes_mut_view(self.0)
    }
}

impl ZeroizeBytes {
    /// An empty buffer with no allocation.
    pub fn new() -> (r: Self)
        ensures
            r@ == Seq::<u8>::empty(),
    {
        ZeroizeBytes(bm_new())
    }

    /// A buffer holding the given bytes.
    pub fn new_with_data(value: &[u8]) -> (r: Self)
        requires
            value@.len() <= isize::MAX,
        ensures
            r@ == value@,
    {
        let mut value_bytes = bm_new();
        bm_put_slice(&mut value_bytes, value);
        ZeroizeBytes(value_bytes)
    }

    /// Replaces the contents with those of another buffer. The old contents
    /// are overwritten with zeros first.
    pub fn set_bytes_mut(&mut self, value: BytesMut)
        ensures
            final(self)@ == bytes_mut_view(value),
    {
        bm_zero_fill(&mut self.0);
        bm_clear(&mut self.0);
        bm_put_slice(&mut self.0, bm_as_slice(&value));
    }

    /// Replaces the contents with the given bytes. The old contents are
    /// overwritten with zeros first.
    pub fn set(&mut self, value: &[u8])
        requires
            value@.len() <= isize::MAX,
        ensures
            final(self)@ == value@,
    {
        bm_zero_fill(&mut self.0);
        bm_clear(&mut self.0);
        bm_put_slice(&mut self.0, value);
    }

    /// Appends one byte to the contents.
    pub fn set_byte(&mut self, value: u8)
        requires
            old(self)@.len() + 1 <= isize::MAX,
        ensures
            final(self)@ == old(self)@.push(value),
    {
        bm_put_u8(&mut self.0, value);
    }

    /// An empty buffer with the given capacity reserved.
    pub fn new_with_capacity(capacity: usize) -> (r: Self)
        requires
            capacity <= isize::MAX,
        ensures
            r@ == Seq::<u8>::empty(),
    {
        ZeroizeBytes(bm_with_capacity(capacity))
    }

    /// Borrows the backing buffer.
    pub fn expose_borrowed(&self) -> (r: &BytesMut)
        ensures
            bytes_mut_view(*r) == self@,
    {
        &self.0
    }

    /// Copies this buffer.
    pub fn clone(&self) -> (r: ZeroizeBytes)
        ensures
            r@ == self@,
    {
        ZeroizeBytes(bm_clone(&self.0))
    }

    /// Overwrites the contents with zeros, then empties the buffer.
    pub fn zeroize(&mut self)
        ensures
            final(self)@ == Seq::<u8>::empty(),
    {
        bm_zero_fill(&mut self.0);
        bm_clear(&mut self.0);
    }
}

impl PartialEq for ZeroizeBytes {
    fn eq(&self, other: &Self) -> (r: bool) {
        let self_digest = blake3_hash_bytes(bm_as_slice(&self.0));
        let other_digest = blake3_hash_bytes(bm_as_slice(&other.0));
        bytes_eq(self_digest.as_slice(), other_digest.as_slice())
    }
}

impl vstd::std_specs::cmp::PartialEqSpecImpl for ZeroizeBytes {
    open spec fn obeys_eq_spec() -> bool {
        true
    }

    open spec fn eq_spec(&self, other: &Self) -> bool {
        blake3_hash_of(self@) == blake3_hash_of(other@)
    }
}

impl Eq for ZeroizeBytes {

}

/// A vector of at most `N` values whose contents are released by `zeroize`.
/// Suited to small collections of secrets that should not outlive their use.
/// Equality is decided by comparing the Blake3 digests of the elements,
/// never their raw bytes.
pub struct ZeroizeArrayVec<const N: usize, T: ToBlake3Hash>(Vec<T>);

impl<const N: usize, T: ToBlake3Hash> View for ZeroizeArrayVec<N, T> {
    type V = Seq<T>;

    closed spec fn view(&self) -> Seq<T> {
        self.0@
    }
}

impl<const N: usize, T: ToBlake3Hash> ZeroizeArrayVec<N, T> where T: Copy {
    /// An empty vector.
    pub fn new() -> (r: Self)
        ensures
            r@ == Seq::<T>::empty(),
    {
        ZeroizeArrayVec(Vec::new())
    }

    /// A vector holding the `N` given values.
    pub fn new_with(value: [T; N]) -> (r: Self)
        ensures
            r@ == value@,
    {
        let mut outcome: Vec<T> = Vec::new();
        let mut i: usize = 0;
        while i < N
            invariant
                0 <= i <= N,
                outcome@ == value@.take(i as int),
            decreases N - i,
        {
            outcome.push(value[i]);
            proof {
                assert(value@.take(i + 1) =~= value@.take(i as int).push(value@[i as int]));
            }
            i += 1;
        }
        proof {
            assert(value@.take(N as int) =~= value@);
        }
        ZeroizeArrayVec(outcome)
    }

    /// Appends the `N` given values to an empty vector; appending to a
    /// non-empty vector would pass the bound `N`, so it is excluded.
    pub fn fill_from_slice(&mut self, value: [T; N])
        requires
            old(self)@.len() == 0,
        ensures
            final(self)@ == value@,
    {
        let mut i: usize = 0;
        while i < N
            invariant
                0 <= i <= N,
                self@ == value@.take(i as int),
            decreases N - i,
        {
            self.0.push(value[i]);
            proof {
                assert(value@.take(i + 1) =~= value@.take(i as int).push(value@[i as int]));
            }
            i += 1;
        }
        proof {
            assert(value@.take(N as int) =~= value@);
        }
    }

    /// Copies the contents out. The copy is as sensitive as the original.
    pub fn expose_owned(&self) -> (r: Vec<T>)
        ensures
            r@ == self@,
    {
        let mut out: Vec<T> = Vec::new();
        let mut i: usize = 0;
        while i < self.0.len()
            invariant
                0 <= i <= self@.len(),
                out@ == self@.take(i as int),
            decreases self@.len() - i,
        {
            out.push(self.0[i]);
            proof {
                assert(self@.take(i + 1) =~= self@.take(i as int).push(self@[i as int]));
            }
            i += 1;
        }
        proof {
            assert(self@.take(self@.len() as int) =~= self@);
        }
        out
    }

    /// Borrows the contents.
    pub fn expose_borrowed(&self) -> (r: &Vec<T>)
        ensures
            r@ == self@,
    {
        &self.0
    }

    /// Copies this vector.
    pub fn clone(&self) -> (r: ZeroizeArrayVec<N, T>)
        ensures
            r@ == self@,
    {
        ZeroizeArrayVec(self.expose_owned())
    }

    /// Takes ownership of this vector.
    pub fn own(self) -> (r: Self)
        ensures
            r@ == self@,
    {
        self
    }

    /// Appends one value; a vector already holding `N` values cannot take
    /// another.
    pub fn push(&mut self, value: T)
        requires
            old(self)@.len() < N,
        ensures
            final(self)@ == old(self)@.push(value),
    {
        self.0.push(value);
    }

    /// Inserts one value at `index`, shifting the values after it; a vector
    /// already holding `N` values cannot take another.
    pub fn insert(&mut self, index: usize, value: T)
        requires
            old(self)@.len() < N,
            index <= old(self)@.len(),
        ensures
            final(self)@ == old(self)@.insert(index as int, value),
    {
        self.0.insert(index, value);
    }

    /// Releases the contents.
    pub fn zeroize(&mut self)
        ensures
            final(self)@ == Seq::<T>::empty(),
    {
        self.0.clear();
    }
}

impl<const N: usize, T: ToBlake3Hash> PartialEq for ZeroizeArrayVec<N, T> {
    fn eq(&self, other: &Self) -> (r: bool) {
        if self.0.len() != other.0.len() {
            return false;
        }
        let mut i: usize = 0;
        while i < self.0.len()
            invariant
                0 <= i <= self@.len(),
                self@.len() == other@.len(),
                forall|j: int| 0 <= j < i ==> self@[j].hash_spec() == other@[j].hash_spec(),
            decreases self@.len() - i,
        {
            let self_digest = self.0[i].hash();
            let other_digest = other.0[i].hash();
            if !bytes_eq(
                self_digest.expose_borrowed().as_slice(),
                other_digest.expose_borrowed().as_slice(),
            ) {
                return false;
            }
            i += 1;
        }
        true
    }
}

impl<const N: usize, T: ToBlake3Hash> vstd::std_specs::cmp::PartialEqSpecImpl for ZeroizeArrayVec<N, T> {
    open spec fn obeys_eq_spec() -> bool {
        true
    }

    open spec fn eq_spec(&self, other: &Self) -> bool {
        self@.len() == other@.len() && (forall|j: int|
            0 <= j < self@.len() ==> self@[j].hash_spec() == other@[j].hash_spec())
    }
}

impl<const N: usize, T: ToBlake3Hash> Eq for ZeroizeArrayVec<N, T> {

}

/// A vector of at most `N` bytes whose contents are overwritten with zeros
/// and released by `zeroize`. Equality is decided by comparing Blake3
/// digests of the contents, never the raw bytes.
pub struct ZeroizeArrayVecBytes<const N: usize>(Vec<u8>);

impl<const N: usize> View for ZeroizeArrayVecBytes<N> {
    type V = Seq<u8>;

    closed spec fn view(&self) -> Seq<u8> {
        self.0@
    }
}

impl<const N: usize> ZeroizeArrayVecBytes<N> {
    /// An empty vector.
    pub fn new() -> (r: Self)
        ensures
            r@ == Seq::<u8>::empty(),
    {
        ZeroizeArrayVecBytes(Vec::new())
    }

    /// A vector holding the `N` given bytes.
    pub fn new_with(value: [u8; N]) -> (r: Self)
        ensures
            r@ == value@,
    {
        let mut outcome: Vec<u8> = Vec::new();
        crate::byteops::push_all(&mut outcome, value.as_slice());
        ZeroizeArrayVecBytes(outcome)
    }

    /// Appends the `N` given bytes to an empty vector; appending to a
    /// non-empty vector would pass the bound `N`, so it is excluded.
    pub fn fill_from_slice(&mut self, value: [u8; N])
        requires
            old(self)@.len() == 0,
        ensures
            final(self)@ == value@,
    {
        crate::byteops::push_all(&mut self.0, value.as_slice());
    }

    /// Copies the contents out. The copy is as sensitive as the original.
    pub fn expose_owned(&self) -> (r: Vec<u8>)
        ensures
            r@ == self@,
    {
        let _fits: usize = self.0.len();
        let mut out: Vec<u8> = Vec::new();
        crate::byteops::push_all(&mut out, self.0.as_slice());
        out
    }

    /// Borrows the contents.
    pub fn expose_borrowed(&self) -> (r: &Vec<u8>)
        ensures
            r@ == self@,
    {
        &self.0
    }

    /// Copies this vector.
    pub fn clone(&self) -> (r: ZeroizeArrayVecBytes<N>)
        ensures
            r@ == self@,
    {
        ZeroizeArrayVecBytes(self.expose_owned())
    }

    /// Takes ownership of this vector.
    pub fn own(self) -> (r: Self)
        ensures
            r@ == self@,
    {
        self
    }

    /// Appends one byte; a vector already holding `N` bytes cannot take
    /// another.
    pub fn push(&mut self, value: u8)
        requires
            old(self)@.len() < N,
        ensures
            final(self)@ == old(self)@.push(value),
    {
        self.0.push(value);
    }

    /// Inserts one byte at `index`, shifting the bytes after it; a vector
    /// already holding `N` bytes cannot take another.
    pub fn insert(&mut self, index: usize, value: u8)
        requires
            old(self)@.len() < N,
            index <= old(self)@.len(),
        ensures
            final(self)@ == old(self)@.insert(index as int, value),
    {
        self.0.insert(index, value);
    }

    /// Overwrites the contents with zeros, then releases them.
    pub fn zeroize(&mut self)
        ensures
            final(self)@ == Seq::<u8>::empty(),
    {
        let mut i: usize = 0;
        let ghost n = self@.len();
        while i < self.0.len()
            invariant
                0 <= i <= self@.len(),
                self@.len() == n,
                forall|j: int| 0 <= j < i ==> self@[j] == 0u8,
            decreases self@.len() - i,
        {
            self.0[i] = 0u8;
            i += 1;
        }
        self.0.clear();
    }
}

impl<const N: usize> PartialEq for ZeroizeArrayVecBytes<N> {
    fn eq(&self, other: &Self) -> (r: bool) {
        let self_digest = blake3_hash_bytes(self.0.as_slice());
        let other_digest = blake3_hash_bytes(other.0.as_slice());
        bytes_eq(self_digest.as_slice(), other_digest.as_slice())
    }
}

impl<const N: usize> vstd::std_specs::cmp::PartialEqSpecImpl for ZeroizeArrayVecBytes<N> {
    open spec fn obeys_eq_spec() -> bool {
        true
    }

    open spec fn eq_spec(&self, other: &Self) -> bool {
        blake3_hash_of(self@) == blake3_hash_of(other@)
    }
}

impl<const N: usize> Eq for ZeroizeArrayVecBytes<N> {

}

} // verus!
