//! Memory buffers: usage and access flags, creation parameters and errors.

use vstd::prelude::*;

verus! {

/// Buffer usage flags, a set of the `Usage::*` bits.
#[derive(Clone, Copy, Debug, PartialEq, Eq, Structural, Hash)]
pub struct Usage {
    /// Raw bit set.
    pub bits: u16,
}

impl Usage {
    /// The buffer may be the source of a transfer.
    pub fn transfer_src() -> (r: Usage)
        ensures
            r.bits == 0x1,
    {
        Usage { bits: 0x1 }
    }

    /// The buffer may be the destination of a transfer.
    pub fn transfer_dst() -> (r: Usage)
        ensures
            r.bits == 0x2,
    {
        Usage { bits: 0x2 }
    }

    /// The buffer may back a constant (uniform) block.
    pub fn constant() -> (r: Usage)
        ensures
            r.bits == 0x4,
    {
        Usage { bits: 0x4 }
    }

    /// The buffer may be bound as an index buffer.
    pub fn index() -> (r: Usage)
        ensures
            r.bits == 0x8,
    {
        Usage { bits: 0x8 }
    }

    /// The buffer may hold indirect draw arguments.
    pub fn indirect() -> (r: Usage)
        ensures
            r.bits == 0x10,
    {
        Usage { bits: 0x10 }
    }

    /// The buffer may be bound as a vertex buffer.
    pub fn vertex() -> (r: Usage)
        ensures
            r.bits == 0x20,
    {
        Usage { bits: 0x20 }
    }

    /// The buffer may be bound as a storage buffer.
    pub fn storage() -> (r: Usage)
        ensures
            r.bits == 0x40,
    {
        Usage { bits: 0x40 }
    }

    /// No usage at all.
    pub fn empty() -> (r: Usage)
        ensures
            r.bits == 0,
    {
        Usage { bits: 0 }
    }

    /// Union of two flag sets.
    pub fn union(self, other: Usage) -> (r: Usage)
        ensures
            r.bits == self.bits | other.bits,
    {
        Usage { bits: self.bits | other.bits }
    }

    /// Whether every bit of `other` is set in `self`.
    pub fn contains(self, other: Usage) -> (r: bool)
        ensures
            r == spec_contains(self.bits, other.bits),
    {
        self.bits & other.bits == other.bits
    }

    /// Whether the set is empty.
    pub fn is_empty(self) -> (r: bool)
        ensures
            r == (self.bits == 0),
    {
        self.bits == 0
    }
}

/// Whether bit set `a` contains every bit of `b`.
pub open spec fn spec_contains(a: u16, b: u16) -> bool {
    a & b == b
}

/// Buffer access flags, describing how recorded commands touch a buffer;
/// used by pipeline barriers.
#[derive(Clone, Copy, Debug, PartialEq, Eq, Structural, Hash)]
pub struct Access {
    /// Raw bit set.
    pub bits: u16,
}

impl Access {
    /// Read by a transfer command.
    pub fn transfer_read() -> (r: Access)
        ensures
            r.bits == 0x01,
    {
        Access { bits: 0x01 }
    }

    /// Written by a transfer command.
    pub fn transfer_write() -> (r: Access)
        ensures
            r.bits == 0x02,
    {
        Access { bits: 0x02 }
    }

    /// Read as an index buffer.
    pub fn index_buffer_read() -> (r: Access)
        ensures
            r.bits == 0x10,
    {
        Access { bits: 0x10 }
    }

    /// Read as a vertex buffer.
    pub fn vertex_buffer_read() -> (r: Access)
        ensures
            r.bits == 0x20,
    {
        Access { bits: 0x20 }
    }

    /// Read as a constant buffer.
    pub fn constant_buffer_read() -> (r: Access)
        ensures
            r.bits == 0x40,
    {
        Access { bits: 0x40 }
    }

    /// Read as indirect draw arguments.
    pub fn indirect_command_read() -> (r: Access)
        ensures
            r.bits == 0x80,
    {
        Access { bits: 0x80 }
    }

    /// Union of two flag sets.
    pub fn union(self, other: Access) -> (r: Access)
        ensures
            r.bits == self.bits | other.bits,
    {
        Access { bits: self.bits | other.bits }
    }
}

/// Buffer state, as tracked across a pipeline barrier.
pub type State = Access;

/// Error creating a buffer.
#[derive(Clone, Copy, Debug, PartialEq, Eq, Structural, Hash)]
pub enum CreationError {
    /// Unknown other error.
    Other,
    /// The requested usage set is not supported by the device.
    UnsupportedUsage(Usage),
}

impl CreationError {
    /// Human-readable description of the error.
    pub fn description(&self) -> (r: &'static str)
        ensures
            r@ == match *self {
                CreationError::Other => "An unknown error occurred"@,
                CreationError::UnsupportedUsage(_) => "Requested usage mode is not supported"@,
            },
    {
        match *self {
            CreationError::Other => "An unknown error occurred",
            CreationError::UnsupportedUsage(_) => "Requested usage mode is not supported",
        }
    }
}

/// Creation parameters of a buffer.
#[derive(Clone, Copy, Debug, PartialEq, Eq, Structural, Hash)]
pub struct Info {
    /// Total size in bytes.
    pub size: u64,
    /// Byte distance between consecutive elements.
    pub stride: u64,
    /// Requested usage set.
    pub usage: Usage,
}

/// One region of a buffer-to-buffer copy.
#[derive(Clone, Copy, Debug, PartialEq, Eq, Structural, Hash)]
pub struct BufferCopy {
    /// Byte offset into the source.
    pub src: u64,
    /// Byte offset into the destination.
    pub dst: u64,
    /// Number of bytes copied.
    pub size: u64,
}

/// Index buffer binding for `bind_index_buffer`: a bound buffer handle,
/// a byte offset into it, and the width of its indices.
#[derive(Clone, Copy, Debug, PartialEq, Eq, Structural, Hash)]
pub struct IndexBufferView {
    /// Handle of the bound buffer holding the indices.
    pub buffer: u64,
    /// Byte offset of the first index.
    pub offset: u64,
    /// Width of each index.
    pub index_type: crate::IndexType,
}

} // verus!
