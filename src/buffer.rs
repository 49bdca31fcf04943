//! Driver buffers of vertex or index data, and the bookkeeping of their
//! storage.
use vstd::prelude::*;
use crate::gl;

verus! {

/// What a buffer holds, which decides the driver target it is bound to.
#[derive(Clone, Copy, Debug, PartialEq, Eq, Structural)]
pub enum BufferTarget {
    /// Vertex data: 32-bit floats.
    Vertex,
    /// Index data: 32-bit unsigned integers.
    Element,
}

impl BufferTarget {
    pub open spec fn spec_to_gl(self) -> u32 {
        match self {
            BufferTarget::Vertex => gl::ARRAY_BUFFER,
            BufferTarget::Element => gl::ELEMENT_ARRAY_BUFFER,
        }
    }

    /// The driver's enum for this target.
    pub fn to_gl(&self) -> (r: u32)
        ensures
            r == self.spec_to_gl(),
    {
        match self {
            BufferTarget::Vertex => gl::ARRAY_BUFFER,
            BufferTarget::Element => gl::ELEMENT_ARRAY_BUFFER,
        }
    }
}

/// The storage that a buffer holds after `data_len` bytes are uploaded to it
/// while it holds `length`: an upload at least as long as the storage
/// reallocates it to twice the upload, so that repeated growth does not
/// reallocate on every call.
pub open spec fn grown_length(length: nat, data_len: nat) -> nat {
    if data_len >= length {
        2 * data_len
    } else {
        length
    }
}

/// The driver calls of one upload: bind `buffer` to `target`, reallocate its
/// storage to `allocate` bytes with usage `usage` where that is `Some`, then
/// write the data at byte `offset`.
#[derive(Clone, Copy, Debug, PartialEq, Eq, Structural)]
pub struct BufferUpload {
    pub target: u32,
    pub buffer: u32,
    pub allocate: Option<i32>,
    pub usage: u32,
    pub offset: i32,
}

/// A driver buffer and the number of bytes of storage it holds.
#[derive(Debug)]
pub struct Buffer {
    id: u32,
    target: BufferTarget,
    length: usize,
}

/// A buffer of vertex data.
pub type VertexBuffer = Buffer;

/// A buffer of index data.
pub type ElementBuffer = Buffer;

impl Buffer {
    #[verifier::type_invariant]
    spec fn storage_fits(self) -> bool {
        self.length <= i32::MAX
    }

    pub closed spec fn spec_id(self) -> u32 {
        self.id
    }

    pub closed spec fn spec_target(self) -> BufferTarget {
        self.target
    }

    pub closed spec fn spec_size(self) -> nat {
        self.length as nat
    }

    /// Wraps the driver buffer `id`; it holds no storage yet.
    pub fn new(id: u32, target: BufferTarget) -> (r: Buffer)
        ensures
            r.spec_id() == id,
            r.spec_target() == target,
            r.spec_size() == 0,
    {
        Buffer { id, target, length: 0 }
    }

    pub fn id(&self) -> (r: u32)
        ensures
            r == self.spec_id(),
    {
        self.id
    }

    pub fn target(&self) -> (r: BufferTarget)
        ensures
            r == self.spec_target(),
    {
        self.target
    }

    /// The bytes of storage the buffer holds.
    pub fn size(&self) -> (r: usize)
        ensures
            r == self.spec_size(),
            r <= i32::MAX,
    {
        proof {
            use_type_invariant(self);
        }
        self.length
    }

    /// Uploads `data` at the start of the buffer, first reallocating the
    /// storage to twice its length where `data` is at least as long as the
    /// storage.
    pub fn set_data(&mut self, data: &[u8]) -> (r: BufferUpload)
        requires
            data@.len() >= old(self).spec_size() ==> 2 * data@.len() <= i32::MAX,
        ensures
            final(self).spec_id() == old(self).spec_id(),
            final(self).spec_target() == old(self).spec_target(),
            final(self).spec_size() == grown_length(old(self).spec_size(), data@.len()),
            r.target == old(self).spec_target().spec_to_gl(),
            r.buffer == old(self).spec_id(),
            r.allocate == (if data@.len() >= old(self).spec_size() {
                Some((2 * data@.len()) as i32)
            } else {
                None
            }),
            r.usage == gl::STREAM_DRAW,
            r.offset == 0,
            final(self).spec_size() >= data@.len(),
            final(self).spec_size() >= old(self).spec_size(),
    {
        proof {
            use_type_invariant(&*self);
        }
        let data_length = data.len();
        let allocate = if data_length >= self.length {
            let new_length = data_length * 2;
            self.length = new_length;
            Some(new_length as i32)
        } else {
            None
        };
        BufferUpload {
            target: self.target.to_gl(),
            buffer: self.id,
            allocate,
            usage: gl::STREAM_DRAW,
            offset: 0,
        }
    }

    /// Writes `data` at byte `start` without reallocating; the data must fit
    /// in the storage the buffer holds.
    pub fn set_sub_data(&self, start: usize, data: &[u8]) -> (r: BufferUpload)
        requires
            start + data@.len() <= self.spec_size(),
        ensures
            r.target == self.spec_target().spec_to_gl(),
            r.buffer == self.spec_id(),
            r.allocate == None::<i32>,
            r.usage == gl::STREAM_DRAW,
            r.offset == start,
    {
        proof {
            use_type_invariant(self);
        }
        BufferUpload {
            target: self.target.to_gl(),
            buffer: self.id,
            allocate: None,
            usage: gl::STREAM_DRAW,
            offset: start as i32,
        }
    }
}

/// An upload at least as long as the storage leaves exactly twice its length,
/// and a later write of at most that many bytes at the start of the buffer
/// fits in it.
pub proof fn lemma_upload_then_sub_upload(length: nat, data_len: nat, sub_len: nat)
    requires
        data_len >= length,
        sub_len <= grown_length(length, data_len),
    ensures
        grown_length(length, data_len) == 2 * data_len,
        0 + sub_len <= grown_length(length, data_len),
{
}

} // verus!
