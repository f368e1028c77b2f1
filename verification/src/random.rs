use vstd::prelude::*;

use crate::byteops::is_all_zero;
use crate::errors::MemSecurityResult;
use rand_chacha::ChaCha20Rng;
use rand_core::RngCore;
use rand_core::SeedableRng;

verus! {

/// Relies on rand_chacha::ChaCha20Rng seeded through
/// rand_core::SeedableRng::from_entropy and filled through
/// rand_core::RngCore::fill_bytes: overwrites the buffer with output from a
/// generator seeded by OS entropy. Nothing is promised of the values.
/// If OS entropy is unavailable, from_entropy panics rather than falling
/// back to a predictable source.
#[verifier::external_body]
pub(crate) fn fill_entropy<const N: usize>(buf: &mut [u8; N]) {
    let mut rng = ChaCha20Rng::from_entropy();
    rng.fill_bytes(buf);
}

/// Draws `S` random bytes into a fresh vector, overwriting the stack
/// scratch buffer with zeros before returning.
#[allow(unused_assignments)]
pub(crate) fn random_page<const S: usize>() -> (r: Vec<u8>)
    ensures
        r@.len() == S,
{
    let mut buffer = [0u8; S];
    fill_entropy(&mut buffer);
    let mut page: Vec<u8> = Vec::new();
    crate::byteops::push_all(&mut page, buffer.as_slice());
    buffer = [0u8; S];
    page
}

/// Cryptographically secure random bytes of a size chosen by the const
/// generic `N`. The bytes can be copied out once and are overwritten with
/// zeros by `zeroize`.
pub struct CsprngArray<const N: usize>([u8; N]);

impl<const N: usize> View for CsprngArray<N> {
    type V = Seq<u8>;

    closed spec fn view(&self) -> Seq<u8> {
        self.0@
    }
}

impl<const N: usize> CsprngArray<N> {
    /// Draws `N` bytes from the OS-seeded generator, overwriting the stack
    /// scratch buffer with zeros before returning.
    #[allow(unused_assignments)]
    pub fn gen() -> (r: Self)
        ensures
            r@.len() == N,
    {
        let mut buffer = [0u8; N];
        fill_entropy(&mut buffer);
        let outcome = CsprngArray(buffer);
        buffer = [0u8; N];
        outcome
    }

    /// Copies the random bytes into `buffer`, then overwrites this value with
    /// zeros. The lengths always agree, so the result is always `Ok`.
    pub fn take(self, buffer: &mut [u8; N]) -> (r: MemSecurityResult<()>)
        ensures
            r is Ok,
            final(buffer)@ == self@,
    {
        let mut this = self;
        *buffer = this.0;
        this.zeroize();
        Ok(())
    }

    /// Copies the random bytes into `buffer`, overwriting this value with
    /// zeros whatever the outcome. The lengths always agree, so the result is
    /// always `Ok`.
    pub fn take_zeroize_on_error(self, buffer: &mut [u8; N]) -> (r: MemSecurityResult<()>)
        ensures
            r is Ok,
            final(buffer)@ == self@,
    {
        let mut this = self;
        *buffer = this.0;
        this.zeroize();
        Ok(())
    }

    /// Copies the bytes out. The copy retains the secret in memory: callers
    /// should zeroize both copies when done.
    pub fn expose(&self) -> (r: [u8; N])
        ensures
            r@ == self@,
    {
        self.0
    }

    /// Borrows the raw bytes. Intended for inspection in diagnostics and
    /// tests only.
    pub fn dangerous_debug(&self) -> (r: &[u8; N])
        ensures
            r@ == self@,
    {
        &self.0
    }

    /// Overwrites the bytes with zeros.
    pub fn zeroize(&mut self)
        ensures
            final(self)@.len() == N,
            is_all_zero(final(self)@),
    {
        self.0 = [0u8; N];
    }
}

/// Convenience constructors for the random-byte sizes this crate uses most.
pub struct CsprngArraySimple;

impl CsprngArraySimple {
    /// Draws one random byte.
    pub fn gen_u8_byte() -> u8 {
        let value = CsprngArray::<1>::gen();
        let bytes = value.expose();
        bytes[0]
    }

    /// Draws an array of 8 random bytes.
    pub fn gen_u8_array() -> (r: CsprngArray<8>)
        ensures
            r@.len() == 8,
    {
        CsprngArray::<8>::gen()
    }

    /// Draws an array of 16 random bytes.
    pub fn gen_u16_array() -> (r: CsprngArray<16>)
        ensures
            r@.len() == 16,
    {
        CsprngArray::<16>::gen()
    }

    /// Draws an array of 24 random bytes.
    pub fn gen_u24_array() -> (r: CsprngArray<24>)
        ensures
            r@.len() == 24,
    {
        CsprngArray::<24>::gen()
    }

    /// Draws an array of 32 random bytes.
    pub fn gen_u32_array() -> (r: CsprngArray<32>)
        ensures
            r@.len() == 32,
    {
        CsprngArray::<32>::gen()
    }

    /// Draws an array of 64 random bytes.
    pub fn gen_u64_array() -> (r: CsprngArray<64>)
        ensures
            r@.len() == 64,
    {
        CsprngArray::<64>::gen()
    }
}

/// The smallest and largest value a numeric type can hold.
pub trait MinMaxNum: Copy {
    /// The minimum value that can be defined.
    const MIN_VALUE: Self;

    /// The maximum value that can be defined.
    const MAX_VALUE: Self;
}

impl MinMaxNum for u8 {
    const MIN_VALUE: u8 = u8::MIN;

    const MAX_VALUE: u8 = u8::MAX;
}

impl MinMaxNum for u16 {
    const MIN_VALUE: u16 = u16::MIN;

    const MAX_VALUE: u16 = u16::MAX;
}

impl MinMaxNum for u32 {
    const MIN_VALUE: u32 = u32::MIN;

    const MAX_VALUE: u32 = u32::MAX;
}

impl MinMaxNum for u64 {
    const MIN_VALUE: u64 = u64::MIN;

    const MAX_VALUE: u64 = u64::MAX;
}

impl MinMaxNum for u128 {
    const MIN_VALUE: u128 = u128::MIN;

    const MAX_VALUE: u128 = u128::MAX;
}

impl MinMaxNum for i8 {
    const MIN_VALUE: i8 = i8::MIN;

    const MAX_VALUE: i8 = i8::MAX;
}

impl MinMaxNum for i16 {
    const MIN_VALUE: i16 = i16::MIN;

    const MAX_VALUE: i16 = i16::MAX;
}

impl MinMaxNum for i32 {
    const MIN_VALUE: i32 = i32::MIN;

    const MAX_VALUE: i32 = i32::MAX;
}

impl MinMaxNum for i64 {
    const MIN_VALUE: i64 = i64::MIN;

    const MAX_VALUE: i64 = i64::MAX;
}

impl MinMaxNum for i128 {
    const MIN_VALUE: i128 = i128::MIN;

    const MAX_VALUE: i128 = i128::MAX;
}

} // verus!
