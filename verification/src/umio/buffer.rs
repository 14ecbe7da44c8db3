//! Buffers of fixed capacity and the pool that lends them.

use vstd::prelude::*;
use vstd::slice::slice_subrange;

verus! {

/// Capacity of the buffers of a pool unless told otherwise.
pub const DEFAULT_BUFFER_SIZE: usize = 1500;

/// A region of a fixed number of bytes with a count of how many of them, from
/// the start, were written.
#[derive(Debug)]
pub struct Buffer {
    data: Vec<u8>,
    bytes_written: usize,
}

impl View for Buffer {
    type V = Seq<u8>;

    /// The bytes that were written.
    closed spec fn view(&self) -> Seq<u8> {
        self.data@.subrange(0, self.bytes_written as int)
    }
}

impl Buffer {
    #[verifier::type_invariant]
    spec fn inv(self) -> bool {
        self.bytes_written <= self.data@.len()
    }

    /// The number of bytes that the buffer can hold.
    pub closed spec fn spec_capacity(&self) -> nat {
        self.data@.len()
    }

    /// All bytes of the buffer, written or not.
    pub closed spec fn region(&self) -> Seq<u8> {
        self.data@
    }

    /// Whether nothing was written and every byte is zero.
    pub open spec fn is_fresh(&self) -> bool {
        &&& self@.len() == 0
        &&& forall|i: int| 0 <= i < self.region().len() ==> self.region()[i] == 0
    }

    /// A fresh buffer of `capacity` bytes.
    pub fn new(capacity: usize) -> (r: Buffer)
        ensures
            r.spec_capacity() == capacity,
            r.is_fresh(),
    {
        let mut data: Vec<u8> = Vec::new();
        while data.len() < capacity
            invariant
                data@.len() <= capacity,
                forall|i: int| 0 <= i < data@.len() ==> data@[i] == 0,
            decreases capacity - data.len(),
        {
            data.push(0u8);
        }
        Buffer { data, bytes_written: 0 }
    }

    /// The number of bytes that the buffer can hold.
    pub fn capacity(&self) -> (r: usize)
        ensures
            r == self.spec_capacity(),
    {
        self.data.len()
    }

    /// The number of bytes that were written.
    pub fn written(&self) -> (r: usize)
        ensures
            r == self@.len(),
            r <= self.spec_capacity(),
            self@ == self.region().subrange(0, r as int),
    {
        proof {
            use_type_invariant(self);
        }
        self.bytes_written
    }

    /// The bytes that were written.
    pub fn as_ref(&self) -> (r: &[u8])
        ensures
            r@ == self@,
    {
        proof {
            use_type_invariant(self);
        }
        slice_subrange(self.data.as_slice(), 0, self.bytes_written)
    }

    /// Sets the number of bytes that count as written, where the buffer can
    /// hold that many, and says whether it can. The region stays as it is.
    pub fn set_written(&mut self, bytes: usize) -> (r: bool)
        ensures
            r == (bytes <= old(self).spec_capacity()),
            final(self).region() == old(self).region(),
            r ==> final(self)@ == old(self).region().subrange(0, bytes as int),
            !r ==> final(self)@ == old(self)@,
    {
        if bytes <= self.data.len() {
            self.bytes_written = bytes;
            true
        } else {
            false
        }
    }

    /// Writes as many bytes of `src` as the buffer has room for behind those
    /// written before, and returns their number.
    pub fn write(&mut self, src: &[u8]) -> (r: usize)
        ensures
            r == (if src@.len() <= old(self).spec_capacity() - old(self)@.len() {
                src@.len()
            } else {
                (old(self).spec_capacity() - old(self)@.len()) as nat
            }),
            final(self).spec_capacity() == old(self).spec_capacity(),
            final(self)@ == old(self)@ + src@.subrange(0, r as int),
    {
        proof {
            use_type_invariant(&*self);
        }
        let room = self.data.len() - self.bytes_written;
        let count = if src.len() <= room {
            src.len()
        } else {
            room
        };
        let start = self.bytes_written;
        let mut taken = Buffer { data: Vec::new(), bytes_written: 0 };
        core::mem::swap(self, &mut taken);
        let mut data = taken.data;
        let mut i: usize = 0;
        while i < count
            invariant
                i <= count,
                count <= src@.len(),
                start + count <= data.len(),
                data@.len() == old(self).data@.len(),
                data@.subrange(0, start as int) == old(self).data@.subrange(0, start as int),
                data@.subrange(start as int, start + i) == src@.subrange(0, i as int),
            decreases count - i,
        {
            let ghost before = data@;
            data[start + i] = src[i];
            proof {
                assert(data@.subrange(0, start as int) =~= before.subrange(0, start as int));
                assert(data@.subrange(start as int, start + i + 1) =~= src@.subrange(0, i + 1));
            }
            i += 1;
        }
        proof {
            assert(data@.subrange(0, start + count) =~= old(self).data@.subrange(0, start as int)
                + src@.subrange(0, count as int));
        }
        *self = Buffer { data, bytes_written: start + count };
        count
    }

    /// Makes the buffer fresh again: nothing written, every byte zero.
    pub fn reset(&mut self)
        ensures
            final(self).spec_capacity() == old(self).spec_capacity(),
            final(self).is_fresh(),
    {
        let capacity = self.data.len();
        *self = Buffer::new(capacity);
    }
}

/// A free list of buffers of one capacity that grows on demand.
#[derive(Debug)]
pub struct BufferPool {
    // Use a stack because temporal locality matters.
    buffers: Vec<Buffer>,
    buffer_size: usize,
}

impl BufferPool {
    #[verifier::type_invariant]
    spec fn inv(self) -> bool {
        forall|i: int|
            0 <= i < self.buffers@.len() ==> (#[trigger] self.buffers@[i]).is_fresh()
                && self.buffers@[i].spec_capacity() == self.buffer_size
    }

    /// The number of buffers that wait in the pool.
    pub closed spec fn spec_len(&self) -> nat {
        self.buffers@.len()
    }

    /// The capacity of the buffers that the pool lends.
    pub closed spec fn buffer_size(&self) -> usize {
        self.buffer_size
    }

    /// A pool, still empty, of buffers of `buffer_size` bytes.
    pub fn new(buffer_size: usize) -> (r: BufferPool)
        ensures
            r.spec_len() == 0,
            r.buffer_size() == buffer_size,
    {
        BufferPool { buffers: Vec::new(), buffer_size }
    }

    /// Takes a buffer from the pool, or makes one where the pool is empty.
    /// Either way the buffer is fresh and has the capacity of the pool.
    pub fn pop(&mut self) -> (r: Buffer)
        ensures
            r.is_fresh(),
            r.spec_capacity() == old(self).buffer_size(),
            final(self).buffer_size() == old(self).buffer_size(),
            final(self).spec_len() == (if old(self).spec_len() == 0 {
                0
            } else {
                (old(self).spec_len() - 1) as nat
            }),
    {
        proof {
            use_type_invariant(&*self);
        }
        let mut buffers: Vec<Buffer> = Vec::new();
        core::mem::swap(&mut buffers, &mut self.buffers);
        let popped = buffers.pop();
        self.buffers = buffers;
        match popped {
            Some(buffer) => buffer,
            None => Buffer::new(self.buffer_size),
        }
    }

    /// Takes a used buffer back. It is made fresh; a buffer of another
    /// capacity is replaced by one of the pool's.
    pub fn push(&mut self, buffer: Buffer)
        ensures
            final(self).buffer_size() == old(self).buffer_size(),
            final(self).spec_len() == old(self).spec_len() + 1,
    {
        proof {
            use_type_invariant(&*self);
        }
        let mut buffer = buffer;
        if buffer.capacity() == self.buffer_size {
            buffer.reset();
        } else {
            buffer = Buffer::new(self.buffer_size);
        }
        let mut buffers: Vec<Buffer> = Vec::new();
        core::mem::swap(&mut buffers, &mut self.buffers);
        buffers.push(buffer);
        self.buffers = buffers;
    }

    /// The number of buffers that wait in the pool. For diagnostics only.
    pub fn len(&self) -> (r: usize)
        ensures
            r == self.spec_len(),
    {
        self.buffers.len()
    }
}

} // verus!
