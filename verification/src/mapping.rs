//! Scoped host access to CPU-visible memory: a writer is acquired over a
//! byte range of a bound buffer, filled, and released back into the heap.
//! The paired release is what publishes the writes; no GPU command
//! referencing the buffer may be submitted while a writer is open.

use vstd::prelude::*;
use crate::buffer::spec_contains;
use crate::factory::{Buffer, Factory};
use crate::memory::Heap;

verus! {

/// Error acquiring a mapping writer.
#[derive(Clone, Copy, Debug, PartialEq, Eq, Structural, Hash)]
pub enum MappingError {
    /// The heap's memory type is not CPU-visible.
    NotCpuVisible,
    /// The buffer is not bound into this heap.
    WrongMemory,
    /// The byte range does not lie within the buffer, or the buffer's
    /// range does not lie within the heap.
    OutOfBounds,
}

/// A scoped writer over a byte range of a mapped buffer.  It holds a copy
/// of the mapped bytes; releasing it writes them back.
#[derive(Clone, Debug, PartialEq, Eq, Hash)]
pub struct MappingWriter {
    /// Handle of the heap the range belongs to.
    pub heap_id: u64,
    /// Absolute byte offset of the range in the heap.
    pub offset: u64,
    /// The bytes of the range.
    pub data: Vec<u8>,
}

impl MappingWriter {
    /// Number of mapped bytes.
    pub fn len(&self) -> (r: usize)
        ensures
            r == self.data@.len(),
    {
        self.data.len()
    }

    /// Writes one byte at an index within the mapped range.
    pub fn write(&mut self, index: usize, byte: u8)
        requires
            index < old(self).data@.len(),
        ensures
            final(self).data@ == old(self).data@.update(index as int, byte),
            final(self).heap_id == old(self).heap_id,
            final(self).offset == old(self).offset,
    {
        self.data[index] = byte;
    }

    /// Writes a run of bytes starting at an index within the mapped range.
    pub fn write_bytes(&mut self, index: usize, bytes: &[u8])
        requires
            index + bytes@.len() <= old(self).data@.len(),
        ensures
            final(self).data@.len() == old(self).data@.len(),
            forall|i: int|
                0 <= i < bytes@.len() ==> final(self).data@[index + i] == bytes@[i],
            forall|i: int|
                0 <= i < old(self).data@.len() && !(index <= i < index + bytes@.len())
                    ==> final(self).data@[i] == old(self).data@[i],
            final(self).heap_id == old(self).heap_id,
            final(self).offset == old(self).offset,
    {
        let total = self.data.len();
        let mut k: usize = 0;
        while k < bytes.len()
            invariant
                k <= bytes@.len(),
                index + bytes@.len() <= total,
                total == old(self).data@.len(),
                self.data@.len() == old(self).data@.len(),
                forall|i: int| 0 <= i < k ==> self.data@[index + i] == bytes@[i],
                forall|i: int|
                    0 <= i < old(self).data@.len() && !(index <= i < index + k) ==> self.data@[i]
                        == old(self).data@[i],
                self.heap_id == old(self).heap_id,
                self.offset == old(self).offset,
            decreases bytes@.len() - k,
        {
            self.data[index + k] = bytes[k];
            k = k + 1;
        }
    }
}

/// Whether a writer over `[start, end)` of the buffer can be acquired
/// from the heap.
pub open spec fn spec_mapping_ok(buffer: Buffer, heap: Heap, start: u64, end: u64) -> bool {
    &&& spec_contains(heap.properties.bits, 0x2)
    &&& buffer.heap_id == heap.id
    &&& start <= end
    &&& end <= buffer.size
    &&& buffer.offset + end <= heap.size
}

impl Factory {
    /// Acquires a writer over the byte range `[start, end)` of a bound
    /// buffer.  The heap must be the one the buffer is bound into and its
    /// memory type must be CPU-visible.
    pub fn acquire_mapping_writer(&self, buffer: &Buffer, heap: &Heap, start: u64, end: u64) -> (r:
        Result<MappingWriter, MappingError>)
        requires
            heap.wf(),
        ensures
            match r {
                Ok(w) => {
                    &&& spec_mapping_ok(*buffer, *heap, start, end)
                    &&& w.heap_id == heap.id
                    &&& w.offset == buffer.offset + start
                    &&& w.data@ == heap.data@.subrange(
                        buffer.offset + start,
                        buffer.offset + end,
                    )
                },
                Err(MappingError::NotCpuVisible) => !spec_contains(heap.properties.bits, 0x2),
                Err(MappingError::WrongMemory) => {
                    &&& spec_contains(heap.properties.bits, 0x2)
                    &&& buffer.heap_id != heap.id
                },
                Err(MappingError::OutOfBounds) => {
                    &&& spec_contains(heap.properties.bits, 0x2)
                    &&& buffer.heap_id == heap.id
                    &&& (start > end || end > buffer.size || buffer.offset + end > heap.size)
                },
            },
    {
        if !heap.properties.contains(crate::memory::Properties::cpu_visible()) {
            return Err(MappingError::NotCpuVisible);
        }
        if buffer.heap_id != heap.id {
            return Err(MappingError::WrongMemory);
        }
        if start > end || end > buffer.size || buffer.offset > heap.size || end > heap.size
            - buffer.offset {
            return Err(MappingError::OutOfBounds);
        }
        let lo = buffer.offset + start;
        let hi = buffer.offset + end;
        let mut data: Vec<u8> = Vec::new();
        let heap_len = heap.data.len();
        let mut k: u64 = lo;
        while k < hi
            invariant
                lo <= k <= hi,
                hi <= heap.size,
                heap_len == heap.data@.len(),
                heap.wf(),
                data@.len() == k - lo,
                forall|i: int| 0 <= i < data@.len() ==> data@[i] == heap.data@[lo + i],
            decreases hi - k,
        {
            data.push(heap.data[k as usize]);
            k = k + 1;
        }
        proof {
            assert(data@ =~= heap.data@.subrange(lo as int, hi as int));
        }
        Ok(MappingWriter { heap_id: heap.id, offset: lo, data })
    }

    /// Releases a writer, publishing its bytes into the heap it was
    /// acquired from.  Everything outside the written range is unchanged.
    pub fn release_mapping_writer(&self, heap: &mut Heap, writer: MappingWriter)
        requires
            old(heap).wf(),
            writer.heap_id == old(heap).id,
            writer.offset + writer.data@.len() <= old(heap).size,
        ensures
            final(heap).wf(),
            final(heap).id == old(heap).id,
            final(heap).size == old(heap).size,
            final(heap).memory_type == old(heap).memory_type,
            final(heap).properties == old(heap).properties,
            final(heap).data@.len() == old(heap).data@.len(),
            forall|i: int|
                0 <= i < writer.data@.len() ==> final(heap).data@[writer.offset + i]
                    == writer.data@[i],
            forall|i: int|
                0 <= i < old(heap).data@.len() && !(writer.offset <= i < writer.offset
                    + writer.data@.len()) ==> final(heap).data@[i] == old(heap).data@[i],
    {
        let heap_len = heap.data.len();
        let base = writer.offset as usize;
        let mut k: usize = 0;
        while k < writer.data.len()
            invariant
                k <= writer.data@.len(),
                base == writer.offset,
                base + writer.data@.len() <= heap_len,
                heap_len == heap.data@.len(),
                heap.data@.len() == old(heap).data@.len(),
                heap.id == old(heap).id,
                heap.size == old(heap).size,
                heap.memory_type == old(heap).memory_type,
                heap.properties == old(heap).properties,
                forall|i: int| 0 <= i < k ==> heap.data@[base + i] == writer.data@[i],
                forall|i: int|
                    0 <= i < old(heap).data@.len() && !(base <= i < base + k) ==> heap.data@[i]
                        == old(heap).data@[i],
            decreases writer.data@.len() - k,
        {
            let b = writer.data[k];
            heap.data[base + k] = b;
            k = k + 1;
        }
    }
}

} // verus!
