//! The factory: resource creation, memory requirements and the two-phase
//! binding protocol.
//!
//! Creation returns an *unbound* resource together with its memory
//! requirements; the caller picks a memory type, allocates a heap and
//! binds at an offset respecting the reported alignment.  A resource
//! reaches GPU work only once bound.

use vstd::prelude::*;
use vstd::string::StringExecFns;
use crate::buffer;
use crate::image;
use crate::pso;
use crate::memory::{
    spec_align_up, spec_full_mask, Heap, MemoryRequirements, MemoryType, Properties, zeroed_bytes,
    full_mask, lemma_align_up, lemma_full_mask_bit,
};

verus! {

/// A created buffer not yet backed by memory.
#[derive(Clone, Copy, Debug, PartialEq, Eq, Structural, Hash)]
pub struct UnboundBuffer {
    /// Handle of the buffer.
    pub id: u64,
    /// The creation parameters.
    pub info: buffer::Info,
    /// What the buffer asks of its backing memory.
    pub requirements: MemoryRequirements,
}

impl UnboundBuffer {
    /// The reported alignment is a usable one.
    pub open spec fn wf(&self) -> bool {
        self.requirements.alignment >= 1
    }
}

/// A buffer backed by a range of a heap, usable for GPU work.
#[derive(Clone, Copy, Debug, PartialEq, Eq, Structural, Hash)]
pub struct Buffer {
    /// Handle of the buffer.
    pub id: u64,
    /// The creation parameters.
    pub info: buffer::Info,
    /// Handle of the heap backing the buffer.
    pub heap_id: u64,
    /// Byte offset of the buffer in the heap.
    pub offset: u64,
    /// Bytes of backing memory, from the offset on.
    pub size: u64,
}

/// Error allocating a heap.
#[derive(Clone, Copy, Debug, PartialEq, Eq, Structural, Hash)]
pub enum AllocationError {
    /// The memory type index names no memory type of the device.
    InvalidMemoryType,
    /// The size cannot be allocated.
    TooLarge,
}

/// Error creating a framebuffer.
#[derive(Clone, Copy, Debug, PartialEq, Eq, Structural, Hash)]
pub enum FramebufferError {
    /// The view count does not match the pass's attachment count.
    AttachmentCountMismatch,
}

/// Error binding a resource into a heap.  Binding wrongly would alias or
/// overrun native device memory, so a violation is answered, never
/// coerced.
#[derive(Clone, Copy, Debug, PartialEq, Eq, Structural, Hash)]
pub enum BindError {
    /// The heap's memory type is not in the resource's type mask.
    WrongMemoryType,
    /// The offset is not a multiple of the required alignment.
    Misaligned,
    /// Offset plus required size overruns the heap.
    OutOfBounds,
}

/// Whether bit `index` is set in a resource's type mask.
pub open spec fn spec_type_bit(mask: u32, index: usize) -> bool {
    index < 32 && (mask >> (index as u32)) & 1 == 1
}

/// The device model behind resource creation: its memory types and limits.
/// A real device is described by constructing a factory over its data.
#[derive(Clone, Debug, PartialEq, Eq, Hash)]
pub struct Factory {
    /// The memory types of the device, at most 32.
    pub memory_types: Vec<MemoryType>,
    /// Alignment every buffer binding must respect, at least 1.
    pub buffer_alignment: u64,
    /// Alignment every image binding must respect, at least 1.
    pub image_alignment: u64,
    /// Buffer usage bits the device supports.
    pub supported_usage: buffer::Usage,
    /// Image usage bits the device supports.
    pub supported_image_usage: image::ImageUsage,
    /// Format and channel pairs the device supports.
    pub supported_formats: Vec<(crate::format::SurfaceType, crate::format::ChannelType)>,
    /// Next fresh resource handle.
    pub next_id: u64,
}

impl Factory {
    /// The device description is usable.
    pub open spec fn wf(&self) -> bool {
        &&& self.memory_types@.len() <= 32
        &&& self.buffer_alignment >= 1
        &&& self.image_alignment >= 1
    }

    /// Everything of the factory but the handle counter.
    pub open spec fn spec_device(&self) -> (
        Seq<MemoryType>,
        u64,
        u64,
        buffer::Usage,
        image::ImageUsage,
        Seq<(crate::format::SurfaceType, crate::format::ChannelType)>,
    ) {
        (
            self.memory_types@,
            self.buffer_alignment,
            self.image_alignment,
            self.supported_usage,
            self.supported_image_usage,
            self.supported_formats@,
        )
    }

    /// A factory over the given device description.
    pub fn new(
        memory_types: Vec<MemoryType>,
        buffer_alignment: u64,
        image_alignment: u64,
        supported_usage: buffer::Usage,
        supported_image_usage: image::ImageUsage,
        supported_formats: Vec<(crate::format::SurfaceType, crate::format::ChannelType)>,
    ) -> (r: Factory)
        requires
            memory_types@.len() <= 32,
            buffer_alignment >= 1,
            image_alignment >= 1,
        ensures
            r.wf(),
            r.memory_types == memory_types,
            r.buffer_alignment == buffer_alignment,
            r.image_alignment == image_alignment,
            r.supported_usage == supported_usage,
            r.supported_image_usage == supported_image_usage,
            r.supported_formats == supported_formats,
            r.next_id == 1,
    {
        Factory {
            memory_types,
            buffer_alignment,
            image_alignment,
            supported_usage,
            supported_image_usage,
            supported_formats,
            next_id: 1,
        }
    }

    /// The requirements the factory reports for a buffer created with
    /// `info`: the size rounded up to the buffer alignment, and every
    /// existing memory type compatible.
    pub open spec fn spec_buffer_requirements(&self, info: buffer::Info) -> MemoryRequirements {
        MemoryRequirements {
            size: spec_align_up(info.size, self.buffer_alignment) as u64,
            alignment: self.buffer_alignment,
            type_mask: spec_full_mask(self.memory_types@.len()),
        }
    }

    /// Whether a buffer creation request succeeds: the usage must be
    /// supported, the size nonzero and small enough to align.
    pub open spec fn spec_buffer_ok(&self, info: buffer::Info) -> bool {
        &&& buffer::spec_contains(self.supported_usage.bits, info.usage.bits)
        &&& info.size >= 1
        &&& info.size + self.buffer_alignment <= u64::MAX
    }

    /// Creates an unbound buffer.  A usage set the device does not
    /// support is refused with `UnsupportedUsage`, never downgraded; a
    /// zero or unallocatable size is refused with `Other`.
    pub fn create_buffer_raw(&mut self, info: buffer::Info) -> (r: Result<
        UnboundBuffer,
        buffer::CreationError,
    >)
        requires
            old(self).wf(),
            old(self).next_id < u64::MAX,
        ensures
            final(self).wf(),
            final(self).spec_device() == old(self).spec_device(),
            match r {
                Ok(u) => {
                    &&& old(self).spec_buffer_ok(info)
                    &&& u.id == old(self).next_id
                    &&& u.info == info
                    &&& u.requirements == old(self).spec_buffer_requirements(info)
                    &&& u.wf()
                    &&& final(self).next_id == old(self).next_id + 1
                },
                Err(buffer::CreationError::UnsupportedUsage(us)) => {
                    &&& us == info.usage
                    &&& !buffer::spec_contains(old(self).supported_usage.bits, info.usage.bits)
                    &&& final(self).next_id == old(self).next_id
                },
                Err(buffer::CreationError::Other) => {
                    &&& buffer::spec_contains(old(self).supported_usage.bits, info.usage.bits)
                    &&& (info.size == 0 || info.size + old(self).buffer_alignment > u64::MAX)
                    &&& final(self).next_id == old(self).next_id
                },
            },
    {
        if !self.supported_usage.contains(info.usage) {
            return Err(buffer::CreationError::UnsupportedUsage(info.usage));
        }
        if info.size == 0 || info.size > u64::MAX - self.buffer_alignment {
            return Err(buffer::CreationError::Other);
        }
        proof {
            lemma_align_up(info.size, self.buffer_alignment);
        }
        let size = crate::memory::align_up(info.size, self.buffer_alignment);
        let requirements = MemoryRequirements {
            size,
            alignment: self.buffer_alignment,
            type_mask: full_mask(self.memory_types.len()),
        };
        let id = self.next_id;
        self.next_id = self.next_id + 1;
        Ok(UnboundBuffer { id, info, requirements })
    }

    /// Reports what the unbound buffer asks of its backing memory.  A pure
    /// query: the answer is a function of the unbound resource alone, so
    /// repeated calls answer the same.
    pub fn get_buffer_requirements(&self, unbound: &UnboundBuffer) -> (r: MemoryRequirements)
        ensures
            r == unbound.requirements,
    {
        unbound.requirements
    }

    /// Allocates a heap of `size` bytes from the memory type with the
    /// given index.
    pub fn allocate_memory(&mut self, memory_type: usize, size: u64) -> (r: Result<
        Heap,
        AllocationError,
    >)
        requires
            old(self).wf(),
            old(self).next_id < u64::MAX,
        ensures
            final(self).wf(),
            final(self).spec_device() == old(self).spec_device(),
            match r {
                Ok(h) => {
                    &&& memory_type < old(self).memory_types@.len()
                    &&& size <= usize::MAX
                    &&& h.id == old(self).next_id
                    &&& h.size == size
                    &&& h.memory_type == memory_type
                    &&& h.properties == old(self).memory_types@[memory_type as int].properties
                    &&& h.wf()
                    &&& forall|i: int| 0 <= i < size ==> h.data@[i] == 0u8
                    &&& final(self).next_id == old(self).next_id + 1
                },
                Err(AllocationError::InvalidMemoryType) => {
                    &&& memory_type >= old(self).memory_types@.len()
                    &&& final(self).next_id == old(self).next_id
                },
                Err(AllocationError::TooLarge) => {
                    &&& memory_type < old(self).memory_types@.len()
                    &&& size > usize::MAX
                    &&& final(self).next_id == old(self).next_id
                },
            },
    {
        if memory_type >= self.memory_types.len() {
            return Err(AllocationError::InvalidMemoryType);
        }
        if size > usize::MAX as u64 {
            return Err(AllocationError::TooLarge);
        }
        let data = zeroed_bytes(size as usize);
        let id = self.next_id;
        self.next_id = self.next_id + 1;
        Ok(
            Heap {
                id,
                size,
                memory_type,
                properties: self.memory_types[memory_type].properties,
                data,
            },
        )
    }

    /// Binds an unbound buffer into a heap at a byte offset.  The offset
    /// must be a multiple of the reported alignment and the reported size
    /// must fit from there; the heap's memory type must be in the
    /// reported type mask.
    pub fn bind_buffer_memory(&self, heap: &Heap, offset: u64, unbound: UnboundBuffer) -> (r:
        Result<Buffer, BindError>)
        requires
            unbound.wf(),
        ensures
            match r {
                Ok(b) => {
                    &&& spec_type_bit(unbound.requirements.type_mask, heap.memory_type)
                    &&& offset % unbound.requirements.alignment == 0
                    &&& offset + unbound.requirements.size <= heap.size
                    &&& b == (Buffer {
                        id: unbound.id,
                        info: unbound.info,
                        heap_id: heap.id,
                        offset,
                        size: unbound.requirements.size,
                    })
                },
                Err(BindError::WrongMemoryType) => !spec_type_bit(
                    unbound.requirements.type_mask,
                    heap.memory_type,
                ),
                Err(BindError::Misaligned) => {
                    &&& spec_type_bit(unbound.requirements.type_mask, heap.memory_type)
                    &&& offset % unbound.requirements.alignment != 0
                },
                Err(BindError::OutOfBounds) => {
                    &&& spec_type_bit(unbound.requirements.type_mask, heap.memory_type)
                    &&& offset % unbound.requirements.alignment == 0
                    &&& offset + unbound.requirements.size > heap.size
                },
            },
    {
        if heap.memory_type >= 32 || (unbound.requirements.type_mask >> (heap.memory_type as u32))
            & 1 != 1 {
            return Err(BindError::WrongMemoryType);
        }
        if offset % unbound.requirements.alignment != 0 {
            return Err(BindError::Misaligned);
        }
        if offset > heap.size || unbound.requirements.size > heap.size - offset {
            return Err(BindError::OutOfBounds);
        }
        Ok(
            Buffer {
                id: unbound.id,
                info: unbound.info,
                heap_id: heap.id,
                offset,
                size: unbound.requirements.size,
            },
        )
    }
}

/// A created image not yet backed by memory.
#[derive(Clone, Copy, Debug, PartialEq, Eq, Structural, Hash)]
pub struct UnboundImage {
    /// Handle of the image.
    pub id: u64,
    /// The creation parameters.
    pub info: image::Info,
    /// What the image asks of its backing memory.
    pub requirements: MemoryRequirements,
}

impl UnboundImage {
    /// The reported alignment is a usable one.
    pub open spec fn wf(&self) -> bool {
        self.requirements.alignment >= 1
    }
}

/// An image backed by a range of a heap, usable for GPU work.
#[derive(Clone, Copy, Debug, PartialEq, Eq, Structural, Hash)]
pub struct Image {
    /// Handle of the image.
    pub id: u64,
    /// The creation parameters.
    pub info: image::Info,
    /// Handle of the heap backing the image.
    pub heap_id: u64,
    /// Byte offset of the image in the heap.
    pub offset: u64,
    /// Bytes of backing memory, from the offset on.
    pub size: u64,
}

/// Error creating a shader resource view or unordered access view.
#[derive(Clone, Copy, Debug, PartialEq, Eq, Structural, Hash)]
pub enum ResourceViewError {
    /// The image was not created with the bind flag the view needs.
    NoBindFlag,
    /// The channel type is not supported for this image.
    Channel(crate::format::ChannelType),
    /// The layer cannot be viewed for this image.
    Layer(image::LayerError),
    /// The request was refused for another reason.
    Unsupported,
}

/// Bytes of raw texel data an image of these parameters holds: texel size
/// times extents, layers and levels.
pub open spec fn spec_image_bytes(info: image::Info) -> int {
    let dims = image::spec_dimensions(info.kind);
    let slices = match image::spec_num_slices(info.kind) {
        Some(n) => n as int,
        None => 1int,
    };
    (crate::format::spec_total_bits(info.format) / 8) * dims.0 * dims.1 * dims.2 * slices
        * info.levels
}

/// Whether every extent and layer count of the kind is nonzero.
pub open spec fn spec_image_dims_ok(kind: image::Kind) -> bool {
    let dims = image::spec_dimensions(kind);
    &&& dims.0 >= 1
    &&& dims.1 >= 1
    &&& dims.2 >= 1
    &&& match image::spec_num_slices(kind) {
        Some(n) => n >= 1,
        None => true,
    }
}

impl Factory {
    /// Whether the device supports the format under the channel type.
    pub open spec fn spec_format_supported(
        &self,
        format: crate::format::SurfaceType,
        channel: crate::format::ChannelType,
    ) -> bool {
        exists|i: int|
            0 <= i < self.supported_formats@.len() && self.supported_formats@[i] == (
            format,
            channel,
            )
    }

    /// Decides whether the device supports the format under the channel
    /// type.
    pub fn format_supported(
        &self,
        format: crate::format::SurfaceType,
        channel: crate::format::ChannelType,
    ) -> (r: bool)
        ensures
            r == self.spec_format_supported(format, channel),
    {
        let mut i: usize = 0;
        while i < self.supported_formats.len()
            invariant
                i <= self.supported_formats@.len(),
                forall|j: int|
                    0 <= j < i ==> self.supported_formats@[j] != (format, channel),
            decreases self.supported_formats@.len() - i,
        {
            let (f, c) = self.supported_formats[i];
            if f == format && c == channel {
                assert(self.supported_formats@[i as int] == (format, channel));
                return true;
            }
            i = i + 1;
        }
        false
    }

    /// The requirements the factory reports for an image created with
    /// `info`: the raw texel bytes rounded up to the image alignment, and
    /// every existing memory type compatible.
    pub open spec fn spec_image_requirements(&self, info: image::Info) -> MemoryRequirements {
        MemoryRequirements {
            size: spec_align_up(spec_image_bytes(info) as u64, self.image_alignment) as u64,
            alignment: self.image_alignment,
            type_mask: spec_full_mask(self.memory_types@.len()),
        }
    }

    /// Whether an image creation request succeeds.
    pub open spec fn spec_image_ok(&self, info: image::Info, hint: Option<
        crate::format::ChannelType,
    >) -> bool {
        &&& crate::buffer::spec_contains(self.supported_image_usage.bits, info.usage.bits)
        &&& self.spec_format_supported(info.format, spec_hint_channel(hint))
        &&& spec_image_dims_ok(info.kind)
        &&& info.levels >= 1
        &&& spec_image_bytes(info) + self.image_alignment <= u64::MAX
    }

    /// Creates an unbound image.  The channel hint chooses the channel
    /// type the format is checked under; an unsupported pair is refused
    /// with `Format`, never coerced to another format.
    pub fn create_image(&mut self, info: image::Info, hint: Option<crate::format::ChannelType>)
        -> (r: Result<UnboundImage, image::CreationError>)
        requires
            old(self).wf(),
            old(self).next_id < u64::MAX,
        ensures
            final(self).wf(),
            final(self).spec_device() == old(self).spec_device(),
            match r {
                Ok(u) => {
                    &&& old(self).spec_image_ok(info, hint)
                    &&& u.id == old(self).next_id
                    &&& u.info == info
                    &&& u.requirements == old(self).spec_image_requirements(info)
                    &&& u.wf()
                    &&& final(self).next_id == old(self).next_id + 1
                },
                Err(e) => {
                    &&& !old(self).spec_image_ok(info, hint)
                    &&& final(self).next_id == old(self).next_id
                    &&& match e {
                        image::CreationError::Usage(us) => us == info.usage
                            && !crate::buffer::spec_contains(
                            old(self).supported_image_usage.bits,
                            info.usage.bits,
                        ),
                        image::CreationError::Format(f, h) => f == info.format && h == hint
                            && crate::buffer::spec_contains(
                            old(self).supported_image_usage.bits,
                            info.usage.bits,
                        ) && !old(self).spec_format_supported(info.format, spec_hint_channel(hint)),
                        image::CreationError::Size => crate::buffer::spec_contains(
                            old(self).supported_image_usage.bits,
                            info.usage.bits,
                        ) && old(self).spec_format_supported(info.format, spec_hint_channel(hint))
                            && (!spec_image_dims_ok(info.kind) || (info.levels >= 1
                            && spec_image_bytes(info) + old(self).image_alignment > u64::MAX)),
                        image::CreationError::Levels => crate::buffer::spec_contains(
                            old(self).supported_image_usage.bits,
                            info.usage.bits,
                        ) && old(self).spec_format_supported(info.format, spec_hint_channel(hint))
                            && spec_image_dims_ok(info.kind) && info.levels == 0,
                    }
                },
            },
    {
        if !self.supported_image_usage.contains(info.usage) {
            return Err(image::CreationError::Usage(info.usage));
        }
        let channel = match hint {
            Some(c) => c,
            None => crate::format::ChannelType::Uint,
        };
        if !self.format_supported(info.format, channel) {
            return Err(image::CreationError::Format(info.format, hint));
        }
        let (w, h, d, _aa) = info.kind.get_dimensions();
        let slices: u16 = match info.kind.get_num_slices() {
            Some(n) => n,
            None => 1,
        };
        if w == 0 || h == 0 || d == 0 || slices == 0 {
            return Err(image::CreationError::Size);
        }
        if info.levels == 0 {
            return Err(image::CreationError::Levels);
        }
        let texel_bytes = info.format.get_total_bits() / 8;
        proof {
            let tb = texel_bytes as int;
            let wi = w as int;
            let hi = h as int;
            let di = d as int;
            let si = slices as int;
            let li = info.levels as int;
            assert(tb <= 16);
            assert(tb * wi <= 16 * 0xffff && tb * wi * hi <= 16 * 0xffff * 0xffff && tb * wi * hi
                * di <= 16 * 0xffff * 0xffff * 0xffff && tb * wi * hi * di * si <= 16 * 0xffff
                * 0xffff * 0xffff * 0xffff && tb * wi * hi * di * si * li <= 16 * 0xffff * 0xffff
                * 0xffff * 0xffff * 0xff) by (nonlinear_arith)
                requires
                    0 <= tb <= 16,
                    0 <= wi <= 0xffff,
                    0 <= hi <= 0xffff,
                    0 <= di <= 0xffff,
                    0 <= si <= 0xffff,
                    0 <= li <= 0xff,
            ;
        }
        let bytes: u128 = (texel_bytes as u128) * (w as u128) * (h as u128) * (d as u128) * (
        slices as u128) * (info.levels as u128);
        if bytes > (u64::MAX - self.image_alignment) as u128 {
            return Err(image::CreationError::Size);
        }
        proof {
            lemma_align_up(bytes as u64, self.image_alignment);
        }
        let size = crate::memory::align_up(bytes as u64, self.image_alignment);
        let requirements = MemoryRequirements {
            size,
            alignment: self.image_alignment,
            type_mask: full_mask(self.memory_types.len()),
        };
        let id = self.next_id;
        self.next_id = self.next_id + 1;
        Ok(UnboundImage { id, info, requirements })
    }

    /// Reports what the unbound image asks of its backing memory; a pure
    /// query, as for buffers.
    pub fn get_image_requirements(&self, unbound: &UnboundImage) -> (r: MemoryRequirements)
        ensures
            r == unbound.requirements,
    {
        unbound.requirements
    }

    /// Binds an unbound image into a heap at a byte offset, under the same
    /// conditions as a buffer bind.
    pub fn bind_image_memory(&self, heap: &Heap, offset: u64, unbound: UnboundImage) -> (r: Result<
        Image,
        BindError,
    >)
        requires
            unbound.wf(),
        ensures
            match r {
                Ok(b) => {
                    &&& spec_type_bit(unbound.requirements.type_mask, heap.memory_type)
                    &&& offset % unbound.requirements.alignment == 0
                    &&& offset + unbound.requirements.size <= heap.size
                    &&& b == (Image {
                        id: unbound.id,
                        info: unbound.info,
                        heap_id: heap.id,
                        offset,
                        size: unbound.requirements.size,
                    })
                },
                Err(BindError::WrongMemoryType) => !spec_type_bit(
                    unbound.requirements.type_mask,
                    heap.memory_type,
                ),
                Err(BindError::Misaligned) => {
                    &&& spec_type_bit(unbound.requirements.type_mask, heap.memory_type)
                    &&& offset % unbound.requirements.alignment != 0
                },
                Err(BindError::OutOfBounds) => {
                    &&& spec_type_bit(unbound.requirements.type_mask, heap.memory_type)
                    &&& offset % unbound.requirements.alignment == 0
                    &&& offset + unbound.requirements.size > heap.size
                },
            },
    {
        if heap.memory_type >= 32 || (unbound.requirements.type_mask >> (heap.memory_type as u32))
            & 1 != 1 {
            return Err(BindError::WrongMemoryType);
        }
        if offset % unbound.requirements.alignment != 0 {
            return Err(BindError::Misaligned);
        }
        if offset > heap.size || unbound.requirements.size > heap.size - offset {
            return Err(BindError::OutOfBounds);
        }
        Ok(
            Image {
                id: unbound.id,
                info: unbound.info,
                heap_id: heap.id,
                offset,
                size: unbound.requirements.size,
            },
        )
    }

    /// Creates a view of a bound image over a subresource range.  The
    /// image must carry the sampled bind flag; the layer selection must
    /// fit the image's kind; the channel must be supported; the level
    /// range must be ascending.
    pub fn view_image(&self, image: &Image, desc: image::ResourceDesc) -> (r: Result<
        crate::native::ImageView,
        ResourceViewError,
    >)
        ensures
            match r {
                Ok(v) => {
                    &&& spec_view_ok(self, image, desc)
                    &&& v == spec_image_view(image, desc)
                },
                Err(ResourceViewError::NoBindFlag) => !crate::buffer::spec_contains(
                    image.info.usage.bits,
                    0x4,
                ),
                Err(ResourceViewError::Layer(e)) => {
                    &&& crate::buffer::spec_contains(image.info.usage.bits, 0x4)
                    &&& match e {
                        image::LayerError::NotExpected(k) => k == image.info.kind
                            && image::spec_num_slices(image.info.kind) is None
                            && desc.layer is Some,
                        image::LayerError::OutOfBounds(l, n) => Some(l) == desc.layer && Some(n)
                            == image::spec_num_slices(image.info.kind) && l >= n,
                    }
                },
                Err(ResourceViewError::Channel(c)) => {
                    &&& crate::buffer::spec_contains(image.info.usage.bits, 0x4)
                    &&& spec_layer_ok(image.info.kind, desc.layer)
                    &&& c == desc.channel
                    &&& !self.spec_format_supported(image.info.format, desc.channel)
                },
                Err(ResourceViewError::Unsupported) => {
                    &&& crate::buffer::spec_contains(image.info.usage.bits, 0x4)
                    &&& spec_layer_ok(image.info.kind, desc.layer)
                    &&& self.spec_format_supported(image.info.format, desc.channel)
                    &&& desc.min > desc.max
                },
            },
    {
        if !image.info.usage.contains(image::ImageUsage::sampled()) {
            return Err(ResourceViewError::NoBindFlag);
        }
        let slices = image.info.kind.get_num_slices();
        match (slices, desc.layer) {
            (None, Some(_)) => {
                return Err(
                    ResourceViewError::Layer(image::LayerError::NotExpected(image.info.kind)),
                );
            },
            (Some(n), Some(l)) => {
                if l >= n {
                    return Err(ResourceViewError::Layer(image::LayerError::OutOfBounds(l, n)));
                }
            },
            _ => {},
        }
        if !self.format_supported(image.info.format, desc.channel) {
            return Err(ResourceViewError::Channel(desc.channel));
        }
        if desc.min > desc.max {
            return Err(ResourceViewError::Unsupported);
        }
        Ok(
            crate::native::ImageView {
                image: image.id,
                channel: desc.channel,
                base_level: desc.min,
                level_count: (desc.max as u16) + 1 - (desc.min as u16),
                base_layer: match desc.layer {
                    Some(l) => l,
                    None => 0,
                },
                layer_count: match desc.layer {
                    Some(_) => 1,
                    None => match slices {
                        Some(n) => n,
                        None => 1,
                    },
                },
            },
        )
    }
}

/// Whether the byte string is a well-formed SPIR-V module header: at
/// least five 32-bit words, whole words only, and the SPIR-V magic number
/// in little-endian order up front.
pub open spec fn spec_spirv_ok(code: Seq<u8>) -> bool {
    &&& code.len() >= 20
    &&& code.len() % 4 == 0
    &&& code[0] == 0x03u8
    &&& code[1] == 0x02u8
    &&& code[2] == 0x23u8
    &&& code[3] == 0x07u8
}

/// One shader stage of a pipeline: the stage, its module and its entry
/// point name.
#[derive(Clone, Debug, PartialEq, Eq, Hash)]
pub struct StageDesc {
    /// The stage the shader runs at.
    pub stage: crate::shade::Stage,
    /// The compiled module.
    pub shader: crate::native::Shader,
    /// The entry point name.
    pub entry: String,
}

/// The sampler record a device derives from a description: filters from
/// the filter method, the border color decoded from the packed color.
pub open spec fn spec_sampler(info: image::SamplerInfo) -> crate::native::Sampler {
    let filters = spec_filters(info.filter);
    crate::native::Sampler {
        min_filter: filters.0,
        mag_filter: filters.1,
        mip_filter: filters.2,
        max_anisotropy: filters.3,
        address_u: info.wrap_mode.0,
        address_v: info.wrap_mode.1,
        address_w: info.wrap_mode.2,
        lod_bias: info.lod_bias,
        lod_min: info.lod_range.0,
        lod_max: info.lod_range.1,
        comparison: info.comparison,
        border: spec_border_color(info.border),
    }
}

/// Minification, magnification and mip filters with the maximum
/// anisotropy, derived from a filter method.
pub open spec fn spec_filters(filter: image::FilterMethod) -> (
    crate::native::FilterOp,
    crate::native::FilterOp,
    crate::native::FilterOp,
    u8,
) {
    match filter {
        image::FilterMethod::Scale => (
            crate::native::FilterOp::Nearest,
            crate::native::FilterOp::Nearest,
            crate::native::FilterOp::Nearest,
            0u8,
        ),
        image::FilterMethod::Mipmap => (
            crate::native::FilterOp::Nearest,
            crate::native::FilterOp::Nearest,
            crate::native::FilterOp::Linear,
            0u8,
        ),
        image::FilterMethod::Bilinear => (
            crate::native::FilterOp::Linear,
            crate::native::FilterOp::Linear,
            crate::native::FilterOp::Nearest,
            0u8,
        ),
        image::FilterMethod::Trilinear => (
            crate::native::FilterOp::Linear,
            crate::native::FilterOp::Linear,
            crate::native::FilterOp::Linear,
            0u8,
        ),
        image::FilterMethod::Anisotropic(n) => (
            crate::native::FilterOp::Linear,
            crate::native::FilterOp::Linear,
            crate::native::FilterOp::Linear,
            n,
        ),
    }
}

/// The border color a packed color decodes to; an unrecognized packed
/// value falls back to transparent black.
pub open spec fn spec_border_color(c: image::PackedColor) -> crate::native::BorderColor {
    if c.0 == 0xff00_0000u32 {
        crate::native::BorderColor::OpaqueBlack
    } else if c.0 == 0xffff_ffffu32 {
        crate::native::BorderColor::OpaqueWhite
    } else {
        crate::native::BorderColor::TransparentBlack
    }
}

/// Whether a pipeline descriptor can be built: color targets and vertex
/// buffers within the device limits, and every attribute reading from a
/// vertex buffer that exists.
pub open spec fn spec_pipeline_ok(desc: pso::GraphicsPipelineDesc) -> bool {
    &&& desc.blender.targets@.len() <= crate::MAX_COLOR_TARGETS
    &&& desc.vertex_buffers@.len() <= crate::MAX_VERTEX_BUFFERS
    &&& forall|i: int|
        0 <= i < desc.attributes@.len() ==> (#[trigger] desc.attributes@[i]).binding
            < desc.vertex_buffers@.len()
}

/// The pipeline record built from a shader set and a descriptor.
pub open spec fn spec_pipeline(
    set: crate::shade::ShaderSet,
    desc: pso::GraphicsPipelineDesc,
) -> crate::native::Pipeline {
    crate::native::Pipeline {
        vertex_shader: match set {
            crate::shade::ShaderSet::Simple(v, _) => v.0.0,
            crate::shade::ShaderSet::Geometry(v, _, _) => v.0.0,
        },
        geometry_shader: match set {
            crate::shade::ShaderSet::Simple(_, _) => None,
            crate::shade::ShaderSet::Geometry(_, g, _) => Some(g.0.0),
        },
        pixel_shader: match set {
            crate::shade::ShaderSet::Simple(_, p) => p.0.0,
            crate::shade::ShaderSet::Geometry(_, _, p) => p.0.0,
        },
        primitive: desc.input_assembler.primitive,
        polygon_mode: desc.rasterizer.polygon_mode,
        line_width: match desc.rasterizer.polygon_mode {
            crate::state::RasterMethod::Line(w) => w,
            _ => 1u32,
        },
        cull: desc.rasterizer.cull_mode,
        front_face: desc.rasterizer.front_face,
        depth_bias_enable: desc.rasterizer.depth_bias is Some,
        depth_test_enable: match desc.depth_stencil {
            Some((_, info)) => info.depth is Some,
            None => false,
        },
        depth_write_enable: match desc.depth_stencil {
            Some((_, info)) => match info.depth {
                Some(dp) => dp.write,
                None => false,
            },
            None => false,
        },
        depth_compare: match desc.depth_stencil {
            Some((_, info)) => match info.depth {
                Some(dp) => dp.fun,
                None => crate::state::Comparison::Never,
            },
            None => crate::state::Comparison::Never,
        },
        stencil_test_enable: match desc.depth_stencil {
            Some((_, info)) => info.front is Some || info.back is Some,
            None => false,
        },
        stencil_front: match desc.depth_stencil {
            Some((_, info)) => info.front,
            None => None,
        },
        stencil_back: match desc.depth_stencil {
            Some((_, info)) => info.back,
            None => None,
        },
    }
}

impl Factory {
    /// Creates a shader module from SPIR-V byte code.  The code is
    /// checked for a well-formed module header; a malformed module is
    /// refused with `CompilationFailed`.
    pub fn create_shader(&mut self, code: &[u8]) -> (r: Result<
        crate::native::Shader,
        crate::shade::CreateShaderError,
    >)
        requires
            old(self).wf(),
            old(self).next_id < u64::MAX,
        ensures
            final(self).wf(),
            final(self).spec_device() == old(self).spec_device(),
            match r {
                Ok(s) => {
                    &&& spec_spirv_ok(code@)
                    &&& s.id == old(self).next_id
                    &&& final(self).next_id == old(self).next_id + 1
                },
                Err(crate::shade::CreateShaderError::CompilationFailed(m)) => {
                    &&& !spec_spirv_ok(code@)
                    &&& m@ == "shader byte code is not a SPIR-V module"@
                    &&& final(self).next_id == old(self).next_id
                },
                Err(_) => false,
            },
    {
        let well_formed = code.len() >= 20 && code.len() % 4 == 0 && code[0] == 0x03u8 && code[1]
            == 0x02u8 && code[2] == 0x23u8 && code[3] == 0x07u8;
        if !well_formed {
            return Err(
                crate::shade::CreateShaderError::CompilationFailed(
                    String::from_str("shader byte code is not a SPIR-V module"),
                ),
            );
        }
        let id = self.next_id;
        self.next_id = self.next_id + 1;
        Ok(crate::native::Shader { id })
    }

    /// Creates a render pass over the given attachments and subpasses.
    pub fn create_renderpass(
        &mut self,
        attachments: Vec<crate::native::Attachment>,
        subpasses: Vec<crate::native::SubpassDesc>,
    ) -> (r: crate::native::RenderPass)
        requires
            old(self).wf(),
            old(self).next_id < u64::MAX,
        ensures
            final(self).wf(),
            final(self).spec_device() == old(self).spec_device(),
            final(self).next_id == old(self).next_id + 1,
            r.id == old(self).next_id,
            r.attachments == attachments,
            r.subpasses == subpasses,
    {
        let id = self.next_id;
        self.next_id = self.next_id + 1;
        crate::native::RenderPass { id, attachments, subpasses }
    }

    /// Creates a framebuffer over one image view per attachment of the
    /// pass.
    pub fn create_framebuffer(
        &mut self,
        render_pass: &crate::native::RenderPass,
        attachments: Vec<crate::native::ImageView>,
        width: u16,
        height: u16,
    ) -> (r: Result<crate::native::Framebuffer, FramebufferError>)
        requires
            old(self).wf(),
            old(self).next_id < u64::MAX,
        ensures
            final(self).wf(),
            final(self).spec_device() == old(self).spec_device(),
            match r {
                Ok(f) => {
                    &&& attachments@.len() == render_pass.attachments@.len()
                    &&& f.id == old(self).next_id
                    &&& f.attachments == attachments
                    &&& f.width == width
                    &&& f.height == height
                    &&& final(self).next_id == old(self).next_id + 1
                },
                Err(FramebufferError::AttachmentCountMismatch) => {
                    &&& attachments@.len() != render_pass.attachments@.len()
                    &&& final(self).next_id == old(self).next_id
                },
            },
    {
        if attachments.len() != render_pass.attachments.len() {
            return Err(FramebufferError::AttachmentCountMismatch);
        }
        let id = self.next_id;
        self.next_id = self.next_id + 1;
        Ok(crate::native::Framebuffer { id, attachments, width, height })
    }

    /// Builds the sampler record for a description: filters, wrapping,
    /// level-of-detail bounds, comparison and the decoded border color.
    pub fn create_sampler(&self, info: image::SamplerInfo) -> (r: crate::native::Sampler)
        ensures
            r == spec_sampler(info),
    {
        let (min_filter, mag_filter, mip_filter, max_anisotropy) = match info.filter {
            image::FilterMethod::Scale => (
                crate::native::FilterOp::Nearest,
                crate::native::FilterOp::Nearest,
                crate::native::FilterOp::Nearest,
                0u8,
            ),
            image::FilterMethod::Mipmap => (
                crate::native::FilterOp::Nearest,
                crate::native::FilterOp::Nearest,
                crate::native::FilterOp::Linear,
                0u8,
            ),
            image::FilterMethod::Bilinear => (
                crate::native::FilterOp::Linear,
                crate::native::FilterOp::Linear,
                crate::native::FilterOp::Nearest,
                0u8,
            ),
            image::FilterMethod::Trilinear => (
                crate::native::FilterOp::Linear,
                crate::native::FilterOp::Linear,
                crate::native::FilterOp::Linear,
                0u8,
            ),
            image::FilterMethod::Anisotropic(n) => (
                crate::native::FilterOp::Linear,
                crate::native::FilterOp::Linear,
                crate::native::FilterOp::Linear,
                n,
            ),
        };
        let border = if info.border.0 == 0xff00_0000u32 {
            crate::native::BorderColor::OpaqueBlack
        } else if info.border.0 == 0xffff_ffffu32 {
            crate::native::BorderColor::OpaqueWhite
        } else {
            crate::native::BorderColor::TransparentBlack
        };
        crate::native::Sampler {
            min_filter,
            mag_filter,
            mip_filter,
            max_anisotropy,
            address_u: info.wrap_mode.0,
            address_v: info.wrap_mode.1,
            address_w: info.wrap_mode.2,
            lod_bias: info.lod_bias,
            lod_min: info.lod_range.0,
            lod_max: info.lod_range.1,
            comparison: info.comparison,
            border,
        }
    }

    /// The per-stage shader descriptions of a set, in pipeline order:
    /// vertex, then geometry where the set has one, then pixel.
    pub fn get_shader_stages(&self, set: &crate::shade::ShaderSet) -> (r: Vec<StageDesc>)
        ensures
            match *set {
                crate::shade::ShaderSet::Simple(v, p) => {
                    &&& r@.len() == 2
                    &&& r@[0] == (StageDesc {
                        stage: crate::shade::Stage::Vertex,
                        shader: v.0.0,
                        entry: v.1,
                    })
                    &&& r@[1] == (StageDesc {
                        stage: crate::shade::Stage::Pixel,
                        shader: p.0.0,
                        entry: p.1,
                    })
                },
                crate::shade::ShaderSet::Geometry(v, g, p) => {
                    &&& r@.len() == 3
                    &&& r@[0] == (StageDesc {
                        stage: crate::shade::Stage::Vertex,
                        shader: v.0.0,
                        entry: v.1,
                    })
                    &&& r@[1] == (StageDesc {
                        stage: crate::shade::Stage::Geometry,
                        shader: g.0.0,
                        entry: g.1,
                    })
                    &&& r@[2] == (StageDesc {
                        stage: crate::shade::Stage::Pixel,
                        shader: p.0.0,
                        entry: p.1,
                    })
                },
            },
    {
        let mut stages: Vec<StageDesc> = Vec::new();
        match set.get_vertex_entry() {
            Some(vert) => {
                stages.push(
                    StageDesc {
                        stage: crate::shade::Stage::Vertex,
                        shader: *vert.get_shader(),
                        entry: vert.get_entry_point().clone(),
                    },
                );
            },
            None => {},
        }
        match set.get_geometry_entry() {
            Some(geom) => {
                stages.push(
                    StageDesc {
                        stage: crate::shade::Stage::Geometry,
                        shader: *geom.get_shader(),
                        entry: geom.get_entry_point().clone(),
                    },
                );
            },
            None => {},
        }
        match set.get_pixel_entry() {
            Some(pixel) => {
                stages.push(
                    StageDesc {
                        stage: crate::shade::Stage::Pixel,
                        shader: *pixel.get_shader(),
                        entry: pixel.get_entry_point().clone(),
                    },
                );
            },
            None => {},
        }
        stages
    }

    /// Builds one pipeline record per request.  A descriptor over the
    /// device's limits, or with an attribute reading from a vertex buffer
    /// that does not exist, is answered with a creation error in its slot;
    /// the other requests still go through.
    pub fn create_graphics_pipelines(
        &self,
        infos: &Vec<(crate::shade::ShaderSet, pso::GraphicsPipelineDesc)>,
    ) -> (r: Vec<Result<crate::native::Pipeline, pso::CreationError>>)
        ensures
            r@.len() == infos@.len(),
            forall|i: int|
                0 <= i < infos@.len() ==> r@[i] == (if spec_pipeline_ok(infos@[i].1) {
                    Ok::<crate::native::Pipeline, pso::CreationError>(
                        spec_pipeline(infos@[i].0, infos@[i].1),
                    )
                } else {
                    Err::<crate::native::Pipeline, pso::CreationError>(pso::CreationError)
                }),
    {
        let mut out: Vec<Result<crate::native::Pipeline, pso::CreationError>> = Vec::new();
        let mut i: usize = 0;
        while i < infos.len()
            invariant
                i <= infos@.len(),
                out@.len() == i,
                forall|j: int|
                    0 <= j < i ==> out@[j] == (if spec_pipeline_ok(infos@[j].1) {
                        Ok::<crate::native::Pipeline, pso::CreationError>(
                            spec_pipeline(infos@[j].0, infos@[j].1),
                        )
                    } else {
                        Err::<crate::native::Pipeline, pso::CreationError>(pso::CreationError)
                    }),
            decreases infos@.len() - i,
        {
            let pair = &infos[i];
            out.push(self.build_pipeline(&pair.0, &pair.1));
            i = i + 1;
        }
        out
    }

    /// Builds one pipeline record, validating the descriptor against the
    /// device limits.
    fn build_pipeline(
        &self,
        set: &crate::shade::ShaderSet,
        desc: &pso::GraphicsPipelineDesc,
    ) -> (r: Result<crate::native::Pipeline, pso::CreationError>)
        ensures
            r == (if spec_pipeline_ok(*desc) {
                Ok::<crate::native::Pipeline, pso::CreationError>(spec_pipeline(*set, *desc))
            } else {
                Err::<crate::native::Pipeline, pso::CreationError>(pso::CreationError)
            }),
    {
        if desc.blender.targets.len() > crate::MAX_COLOR_TARGETS || desc.vertex_buffers.len()
            > crate::MAX_VERTEX_BUFFERS {
            return Err(pso::CreationError);
        }
        let mut k: usize = 0;
        while k < desc.attributes.len()
            invariant
                k <= desc.attributes@.len(),
                forall|j: int|
                    0 <= j < k ==> (#[trigger] desc.attributes@[j]).binding
                        < desc.vertex_buffers@.len(),
            decreases desc.attributes@.len() - k,
        {
            if desc.attributes[k].binding as usize >= desc.vertex_buffers.len() {
                return Err(pso::CreationError);
            }
            k = k + 1;
        }
        let stages = self.get_shader_stages(set);
        let vertex_shader = stages[0].shader;
        let (geometry_shader, pixel_shader) = if stages.len() == 3 {
            (Some(stages[1].shader), stages[2].shader)
        } else {
            (None, stages[1].shader)
        };
        let line_width = match desc.rasterizer.polygon_mode {
            crate::state::RasterMethod::Line(w) => w,
            _ => 1u32,
        };
        let (depth_test_enable, depth_write_enable, depth_compare) = match desc.depth_stencil {
            Some((_, info)) => match info.depth {
                Some(dp) => (true, dp.write, dp.fun),
                None => (false, false, crate::state::Comparison::Never),
            },
            None => (false, false, crate::state::Comparison::Never),
        };
        let (stencil_test_enable, stencil_front, stencil_back) = match desc.depth_stencil {
            Some((_, info)) => (
                info.front.is_some() || info.back.is_some(),
                info.front,
                info.back,
            ),
            None => (false, None, None),
        };
        Ok(
            crate::native::Pipeline {
                vertex_shader,
                geometry_shader,
                pixel_shader,
                primitive: desc.input_assembler.primitive,
                polygon_mode: desc.rasterizer.polygon_mode,
                line_width,
                cull: desc.rasterizer.cull_mode,
                front_face: desc.rasterizer.front_face,
                depth_bias_enable: desc.rasterizer.depth_bias.is_some(),
                depth_test_enable,
                depth_write_enable,
                depth_compare,
                stencil_test_enable,
                stencil_front,
                stencil_back,
            },
        )
    }
}

/// What the hint chooses: the hinted channel type, or unsigned integer.
pub open spec fn spec_hint_channel(hint: Option<crate::format::ChannelType>)
    -> crate::format::ChannelType {
    match hint {
        Some(c) => c,
        None => crate::format::ChannelType::Uint,
    }
}

/// Whether the layer selection fits the image kind.
pub open spec fn spec_layer_ok(kind: image::Kind, layer: Option<image::Layer>) -> bool {
    match (image::spec_num_slices(kind), layer) {
        (None, Some(_)) => false,
        (Some(n), Some(l)) => l < n,
        _ => true,
    }
}

/// Whether a view request over the image succeeds.
pub open spec fn spec_view_ok(
    factory: &Factory,
    image: &Image,
    desc: image::ResourceDesc,
) -> bool {
    &&& crate::buffer::spec_contains(image.info.usage.bits, 0x4)
    &&& spec_layer_ok(image.info.kind, desc.layer)
    &&& factory.spec_format_supported(image.info.format, desc.channel)
    &&& desc.min <= desc.max
}

/// The view built over an image for a subresource range.
pub open spec fn spec_image_view(image: &Image, desc: image::ResourceDesc)
    -> crate::native::ImageView {
    crate::native::ImageView {
        image: image.id,
        channel: desc.channel,
        base_level: desc.min,
        level_count: (desc.max + 1 - desc.min) as u16,
        base_layer: match desc.layer {
            Some(l) => l,
            None => 0,
        },
        layer_count: match desc.layer {
            Some(_) => 1u16,
            None => match image::spec_num_slices(image.info.kind) {
                Some(n) => n,
                None => 1u16,
            },
        },
    }
}

/// Two reports of one unbound resource's requirements are the same: the
/// answer is a function of the resource alone, with no intervening
/// mutation possible.
pub proof fn lemma_requirements_repeatable(
    unbound: &UnboundBuffer,
    first: MemoryRequirements,
    second: MemoryRequirements,
)
    requires
        first == unbound.requirements,
        second == unbound.requirements,
    ensures
        first == second,
{
}

/// A successful bind respects the reported alignment and fits in the
/// heap: `offset` is a multiple of the alignment and `offset + size` does
/// not pass the heap's end.
pub proof fn lemma_bind_alignment_invariant(
    factory: &Factory,
    heap: &Heap,
    offset: u64,
    unbound: UnboundBuffer,
    bound: Buffer,
)
    requires
        call_ensures(
            Factory::bind_buffer_memory,
            (factory, heap, offset, unbound),
            Result::<Buffer, BindError>::Ok(bound),
        ),
    ensures
        offset % unbound.requirements.alignment == 0,
        offset + unbound.requirements.size <= heap.size,
        bound.offset == offset,
        bound.size == unbound.requirements.size,
        bound.heap_id == heap.id,
{
}

} // verus!
