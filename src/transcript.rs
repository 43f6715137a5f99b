use vstd::prelude::*;

use crate::error::{SpdmError, SpdmResult};
use crate::protocol::MAX_SPDM_MESSAGE_BUFFER_SIZE;

verus! {

/// Appends `src` to `dst`.
pub fn append_bytes(dst: &mut Vec<u8>, src: &[u8])
    ensures
        final(dst)@ == old(dst)@ + src@,
{
    let mut i: usize = 0;
    while i < src.len()
        invariant
            i <= src@.len(),
            dst@ == old(dst)@ + src@.subrange(0, i as int),
        decreases src@.len() - i,
    {
        dst.push(src[i]);
        i = i + 1;
        assert(dst@ =~= old(dst)@ + src@.subrange(0, i as int));
    }
    assert(src@.subrange(0, src@.len() as int) =~= src@);
}

/// Overwrites every byte of `v` with zero, then empties it.
pub fn zeroize(v: &mut Vec<u8>)
    ensures
        final(v)@ == Seq::<u8>::empty(),
{
    let mut i: usize = 0;
    while i < v.len()
        invariant
            i <= v@.len(),
        decreases v@.len() - i,
    {
        v.set(i, 0);
        i = i + 1;
    }
    v.clear();
}

/// An append-only byte log with a fixed capacity: the transcript of one
/// phase of the handshake.
pub struct ManagedBuffer {
    data: Vec<u8>,
    capacity: usize,
}

impl View for ManagedBuffer {
    type V = Seq<u8>;

    closed spec fn view(&self) -> Seq<u8> {
        self.data@
    }
}

impl ManagedBuffer {
    /// The most bytes the buffer may hold.
    pub closed spec fn max_size(&self) -> nat {
        self.capacity as nat
    }

    pub closed spec fn wf(&self) -> bool {
        self.data@.len() <= self.capacity
    }

    /// An empty buffer of the given capacity.
    pub fn with_capacity(capacity: usize) -> (r: ManagedBuffer)
        ensures
            r.wf(),
            r@ == Seq::<u8>::empty(),
            r.max_size() == capacity,
    {
        ManagedBuffer { data: Vec::new(), capacity }
    }

    /// An empty buffer of the standard transcript capacity.
    pub fn new() -> (r: ManagedBuffer)
        ensures
            r.wf(),
            r@ == Seq::<u8>::empty(),
            r.max_size() == MAX_SPDM_MESSAGE_BUFFER_SIZE,
    {
        ManagedBuffer::with_capacity(MAX_SPDM_MESSAGE_BUFFER_SIZE)
    }

    /// Appends `bytes`, or fails with `ResourceExhausted`, leaving the
    /// contents as they were, when they would not fit.
    pub fn append_message(&mut self, bytes: &[u8]) -> (r: SpdmResult<()>)
        requires
            old(self).wf(),
        ensures
            final(self).wf(),
            final(self).max_size() == old(self).max_size(),
            old(self)@.len() + bytes@.len() <= old(self).max_size() ==> r is Ok && final(self)@
                == old(self)@ + bytes@,
            old(self)@.len() + bytes@.len() > old(self).max_size() ==> r == Err::<(), SpdmError>(
                SpdmError::ResourceExhausted,
            ) && final(self)@ == old(self)@,
    {
        if bytes.len() > self.capacity - self.data.len() {
            return Err(SpdmError::ResourceExhausted);
        }
        append_bytes(&mut self.data, bytes);
        Ok(())
    }

    /// The bytes appended so far.
    pub fn as_ref(&self) -> (r: &[u8])
        ensures
            r@ == self@,
    {
        self.data.as_slice()
    }

    /// Number of bytes held.
    pub fn len(&self) -> (r: usize)
        ensures
            r == self@.len(),
    {
        self.data.len()
    }

    /// Empties the buffer, zeroing what it held.
    pub fn reset(&mut self)
        requires
            old(self).wf(),
        ensures
            final(self).wf(),
            final(self)@ == Seq::<u8>::empty(),
            final(self).max_size() == old(self).max_size(),
    {
        zeroize(&mut self.data);
    }
}

} // verus!
