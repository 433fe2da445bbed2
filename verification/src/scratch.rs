//! Per-sample transient storage.
use vstd::prelude::*;

verus! {

/// A resettable arena for transient per-sample work.  Reset drops the
/// contents but keeps the allocation, so each sample starts from a clean
/// buffer without paying for a fresh allocation.
pub struct ScratchBuffer {
    buf: Vec<u8>,
}

impl ScratchBuffer {
    /// How many bytes are in use, for contracts.
    pub closed spec fn spec_len(&self) -> int {
        self.buf@.len() as int
    }

    pub fn new() -> (r: ScratchBuffer)
        ensures
            r.spec_len() == 0,
    {
        ScratchBuffer { buf: Vec::new() }
    }

    /// Bytes currently in use.
    pub fn len(&self) -> (r: usize)
        ensures
            r == self.spec_len(),
    {
        self.buf.len()
    }

    /// Drop the contents, keeping the allocation for the next sample.
    pub fn reset(&mut self)
        ensures
            final(self).spec_len() == 0,
    {
        self.buf.clear();
    }
}

} // verus!
