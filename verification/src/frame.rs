//! The frame buffer and the manager that owns it while no transfer runs.

use vstd::prelude::*;
use vstd::slice::slice_subrange;
use crate::panel::{InitError, BUF_LEN};

verus! {

/// Arranges frame data in a buffer
/// whose portions can be sent directly to the device.
#[derive(Debug, PartialEq, Eq)]
pub struct FrameBuffer {
    data: Vec<u8>,
}

impl View for FrameBuffer {
    type V = Seq<u8>;

    closed spec fn view(&self) -> Seq<u8> {
        self.data@
    }
}

impl FrameBuffer {
    /// Turns a regular buffer (back) into a FrameBuffer, keeping its bytes.
    pub fn new(frame_buffer: Vec<u8>) -> (r: Self)
        ensures
            r@ == frame_buffer@,
    {
        Self { data: frame_buffer }
    }

    /// Number of bytes in the buffer.
    pub fn len(&self) -> (r: usize)
        ensures
            r == self@.len(),
    {
        self.data.len()
    }

    /// The `len` bytes that start at `offset`, or `None` where that range
    /// does not lie inside the buffer.
    pub fn chunk(&self, offset: usize, len: usize) -> (r: Option<&[u8]>)
        ensures
            r is Some <==> offset + len <= self@.len(),
            r matches Some(s) ==> s@ == self@.subrange(offset as int, offset + len),
    {
        let total = self.data.len();
        if offset <= total && len <= total - offset {
            Some(slice_subrange(self.data.as_slice(), offset, offset + len))
        } else {
            None
        }
    }

    /// Copies the first `len` bytes of `pixels` over the start of the
    /// buffer; the rest of the buffer keeps its bytes. Where `pixels` or the
    /// buffer holds fewer than `len` bytes, nothing is copied and `false` is
    /// returned.
    pub fn load(&mut self, pixels: &[u8], len: usize) -> (r: bool)
        ensures
            r <==> len <= pixels@.len() && len <= old(self)@.len(),
            r ==> final(self)@ == loaded(old(self)@, pixels@, len as nat),
            !r ==> final(self)@ == old(self)@,
    {
        if len > pixels.len() || len > self.data.len() {
            return false;
        }
        let mut i: usize = 0;
        while i < len
            invariant
                i <= len,
                len <= pixels@.len(),
                len <= self.data@.len(),
                self.data@.len() == old(self).data@.len(),
                forall|j: int| 0 <= j < i ==> self.data@[j] == pixels@[j],
                forall|j: int| i <= j < self.data@.len() ==> self.data@[j] == old(self).data@[j],
            decreases len - i,
        {
            self.data.set(i, pixels[i]);
            i += 1;
        }
        assert(self.data@ =~= loaded(old(self)@, pixels@, len as nat));
        true
    }

    /// Gives the bytes back as a regular buffer.
    pub fn into_inner(self) -> (r: Vec<u8>)
        ensures
            r@ == self@,
    {
        self.data
    }
}

/// A frame whose first `len` bytes are those of `pixels` and whose other
/// bytes are those of `frame`.
pub open spec fn loaded(frame: Seq<u8>, pixels: Seq<u8>, len: nat) -> Seq<u8>
    recommends
        len <= pixels.len(),
        len <= frame.len(),
{
    pixels.subrange(0, len as int) + frame.subrange(len as int, frame.len() as int)
}

/// Owner of the one frame buffer while it is not checked out.
#[derive(Debug)]
pub struct FrameBufferManager {
    slot: Option<FrameBuffer>,
    capacity: usize,
}

impl FrameBufferManager {
    /// The bytes of the buffer while the manager holds it, `None` while it
    /// is checked out.
    pub closed spec fn held(&self) -> Option<Seq<u8>> {
        match self.slot {
            Some(b) => Some(b@),
            None => None,
        }
    }

    /// Length of the region that the manager was made with.
    pub closed spec fn capacity(&self) -> nat {
        self.capacity as nat
    }

    /// The region can hold a frame, and a buffer that the manager holds is
    /// that region.
    pub open spec fn wf(&self) -> bool {
        &&& self.capacity() >= BUF_LEN
        &&& self.held() matches Some(bytes) ==> bytes.len() == self.capacity()
    }

    /// Takes ownership of `region`. Fails where it holds fewer than
    /// [`BUF_LEN`] bytes.
    pub fn new(region: Vec<u8>) -> (r: Result<Self, InitError>)
        ensures
            r is Err <==> region@.len() < BUF_LEN,
            r matches Err(e) ==> e == InitError::BufferTooSmall,
            r matches Ok(m) ==> m.wf() && m.held() == Some(region@) && m.capacity()
                == region@.len(),
    {
        let capacity = region.len();
        if capacity < BUF_LEN {
            Err(InitError::BufferTooSmall)
        } else {
            Ok(Self { slot: Some(FrameBuffer::new(region)), capacity })
        }
    }

    /// Whether the manager holds the buffer.
    pub fn is_available(&self) -> (r: bool)
        ensures
            r == self.held().is_some(),
    {
        self.slot.is_some()
    }

    /// Hands the buffer out where the manager holds it; afterwards it is
    /// checked out until [`release`](Self::release).
    pub fn acquire(&mut self) -> (r: Option<FrameBuffer>)
        ensures
            final(self).held() is None,
            final(self).capacity() == old(self).capacity(),
            old(self).wf() ==> final(self).wf(),
            r matches Some(b) ==> old(self).held() == Some(b@),
            r is None ==> old(self).held() is None,
    {
        self.slot.take()
    }

    /// Takes the buffer back.
    pub fn release(&mut self, buffer: FrameBuffer)
        requires
            old(self).held() is None,
            buffer@.len() == old(self).capacity(),
        ensures
            final(self).held() == Some(buffer@),
            final(self).capacity() == old(self).capacity(),
            old(self).wf() ==> final(self).wf(),
    {
        self.slot = Some(buffer);
    }
}

} // verus!
