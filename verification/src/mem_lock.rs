use vstd::prelude::*;

verus! {

/// A policy for pinning memory regions into physical RAM so the operating
/// system will not write them to swap. Locking is best effort: an
/// implementation reports whether the request took effect, and callers
/// record the answer instead of aborting. An implementation backed by an OS
/// call lives outside the verified library; [`NoLock`] is the no-op policy
/// for tests and for platforms without one.
pub trait MemoryLock {
    /// Requests that the region stay resident in physical memory and
    /// reports whether the request took effect.
    fn lock(&self, region: &[u8]) -> bool;

    /// Releases an earlier residency request for the region and reports
    /// whether the release took effect.
    fn unlock(&self, region: &[u8]) -> bool;
}

/// The no-op locking policy: performs no OS call and reports every request
/// as satisfied. With it the vault still fills, seals and zeroizes exactly
/// as with a real policy; only swap-residency protection is absent.
pub struct NoLock;

impl MemoryLock for NoLock {
    fn lock(&self, _region: &[u8]) -> bool {
        true
    }

    fn unlock(&self, _region: &[u8]) -> bool {
        true
    }
}

} // verus!
