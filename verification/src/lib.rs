//! Backend-agnostic core of a low-level graphics hardware abstraction
//! layer: capability-typed command recording, the two-phase resource
//! creation and memory-binding protocol, render-pass encoders and the
//! submission/synchronization model.
//!
//! Native drivers are not driven from here; the crate models the records a
//! backend consumes and proves the protocol invariants that every backend
//! relies on: a command buffer never holds a command its capability does
//! not allow, bound resources respect the reported alignment, render
//! passes are opened and closed exactly once per encoder, and a fence
//! handed to a submit gates host reuse of the resources it covers.

pub mod buffer;
pub mod capability;
pub mod command;
pub mod device;
pub mod factory;
pub mod format;
pub mod image;
pub mod mapping;
pub mod memory;
pub mod native;
pub mod pool;
pub mod pso;
pub mod queue;
pub mod renderpass;
pub mod shade;
pub mod state;
pub mod submission;

use vstd::prelude::*;

verus! {

/// Maximum number of color render targets of a pipeline.
pub const MAX_COLOR_TARGETS: usize = 4;

/// Maximum number of vertex attributes of a pipeline.
pub const MAX_VERTEX_ATTRIBUTES: usize = 16;

/// Maximum number of constant buffer slots.
pub const MAX_CONSTANT_BUFFERS: usize = 14;

/// Maximum number of shader resource view slots.
pub const MAX_RESOURCE_VIEWS: usize = 128;

/// Maximum number of unordered access view slots.
pub const MAX_UNORDERED_VIEWS: usize = 4;

/// Maximum number of sampler slots.
pub const MAX_SAMPLERS: usize = 16;

/// Maximum number of vertex buffers bound at once.
pub const MAX_VERTEX_BUFFERS: usize = 4;

/// Number of vertices drawn or skipped.
pub type VertexCount = u32;

/// Number of indices consumed by an indexed draw.
pub type IndexCount = u32;

/// Number of instances drawn.
pub type InstanceCount = u32;

/// Offset added to every vertex index of an indexed draw.
pub type VertexOffset = i32;

/// Instance count and first instance of an instanced draw.
pub type InstanceParams = (InstanceCount, InstanceCount);

/// Index of a color target slot.
pub type ColorSlot = u8;

/// Index of a constant buffer slot.
pub type ConstantBufferSlot = u8;

/// Index of a shader resource view slot.
pub type ResourceViewSlot = u8;

/// Index of an unordered access view slot.
pub type UnorderedViewSlot = u8;

/// Index of a sampler slot.
pub type SamplerSlot = u8;

/// Index of a vertex attribute slot.
pub type AttributeSlot = u8;

/// How a vertex stream is assembled into primitives.
#[derive(Clone, Copy, Debug, PartialEq, Eq, Structural, Hash)]
pub enum Primitive {
    /// Each vertex is a point.
    PointList,
    /// Each pair of vertices is a line.
    LineList,
    /// Consecutive vertices form lines.
    LineStrip,
    /// Each triple of vertices is a triangle.
    TriangleList,
    /// Consecutive vertices form triangles.
    TriangleStrip,
}

/// Width of the indices of an index buffer.
#[derive(Clone, Copy, Debug, PartialEq, Eq, Structural, Hash)]
pub enum IndexType {
    /// 16-bit indices.
    U16,
    /// 32-bit indices.
    U32,
}

} // verus!
