//! The two-phase creation and memory-binding protocol.

use gfx_hal::buffer::{self, Usage};
use gfx_hal::factory::{AllocationError, BindError, Factory};
use gfx_hal::format::{ChannelType, SurfaceType};
use gfx_hal::image::ImageUsage;
use gfx_hal::mapping::MappingError;
use gfx_hal::memory::{align_up, select_memory_type, MemoryType, Properties};

fn test_factory() -> Factory {
    let memory_types = vec![
        MemoryType { properties: Properties::device_local() },
        MemoryType { properties: Properties::cpu_visible().union(Properties::coherent()) },
    ];
    let supported_usage = Usage::transfer_src()
        .union(Usage::transfer_dst())
        .union(Usage::constant())
        .union(Usage::index())
        .union(Usage::vertex())
        .union(Usage::storage());
    let supported_formats = vec![
        (SurfaceType::R8_G8_B8_A8, ChannelType::Unorm),
        (SurfaceType::R8_G8_B8_A8, ChannelType::Uint),
        (SurfaceType::R32_G32_B32_A32, ChannelType::Float),
    ];
    Factory::new(
        memory_types,
        256,
        1024,
        supported_usage,
        ImageUsage::transfer_src()
            .union(ImageUsage::transfer_dst())
            .union(ImageUsage::sampled())
            .union(ImageUsage::storage())
            .union(ImageUsage::color_attachment()),
        supported_formats,
    )
}

#[test]
fn align_up_rounds_to_multiples() {
    assert_eq!(align_up(0, 256), 0);
    assert_eq!(align_up(1, 256), 256);
    assert_eq!(align_up(256, 256), 256);
    assert_eq!(align_up(257, 256), 512);
    assert_eq!(align_up(1000, 1), 1000);
    assert_eq!(align_up(7, 3), 9);
}

#[test]
fn requirements_are_identical_on_repeated_calls() {
    let mut factory = test_factory();
    let info = buffer::Info { size: 1000, stride: 20, usage: Usage::vertex() };
    let unbound = factory.create_buffer_raw(info).unwrap();
    let first = factory.get_buffer_requirements(&unbound);
    let second = factory.get_buffer_requirements(&unbound);
    assert_eq!(first, second);
    assert_eq!(first.size, 1024);
    assert_eq!(first.alignment, 256);
    assert_eq!(first.type_mask, 0b11);
}

#[test]
fn unsupported_usage_is_refused_not_downgraded() {
    let mut factory = test_factory();
    let indirect = Usage::indirect();
    let info = buffer::Info { size: 64, stride: 4, usage: indirect.union(Usage::vertex()) };
    let outcome = factory.create_buffer_raw(info);
    assert_eq!(
        outcome,
        Err(buffer::CreationError::UnsupportedUsage(indirect.union(Usage::vertex())))
    );
    let zero = buffer::Info { size: 0, stride: 4, usage: Usage::vertex() };
    assert_eq!(factory.create_buffer_raw(zero), Err(buffer::CreationError::Other));
}

#[test]
fn memory_type_selection_picks_first_match() {
    let types = vec![
        MemoryType { properties: Properties::device_local() },
        MemoryType { properties: Properties::cpu_visible() },
        MemoryType { properties: Properties::cpu_visible().union(Properties::cpu_cached()) },
    ];
    assert_eq!(select_memory_type(&types, 0b111, Properties::cpu_visible()), Some(1));
    assert_eq!(select_memory_type(&types, 0b101, Properties::cpu_visible()), Some(2));
    assert_eq!(select_memory_type(&types, 0b111, Properties::device_local()), Some(0));
    assert_eq!(
        select_memory_type(&types, 0b111, Properties::device_local().union(Properties::cpu_visible())),
        None
    );
    assert_eq!(select_memory_type(&types, 0, Properties::cpu_visible()), None);
}

#[test]
fn bind_respects_alignment_and_bounds() {
    let mut factory = test_factory();
    let info = buffer::Info { size: 1000, stride: 20, usage: Usage::vertex() };

    // Aligned offsets within bounds succeed; everything else is refused.
    let heap = factory.allocate_memory(1, 4096).unwrap();
    for offset in [0u64, 128, 255, 256, 512, 3072, 3100] {
        let unbound = factory.create_buffer_raw(info).unwrap();
        let req = factory.get_buffer_requirements(&unbound);
        let outcome = factory.bind_buffer_memory(&heap, offset, unbound);
        if offset % req.alignment != 0 {
            assert_eq!(outcome, Err(BindError::Misaligned));
        } else if offset + req.size > heap.size {
            assert_eq!(outcome, Err(BindError::OutOfBounds));
        } else {
            let bound = outcome.unwrap();
            assert_eq!(bound.offset % req.alignment, 0);
            assert!(bound.offset + bound.size <= heap.size);
            assert_eq!(bound.heap_id, heap.id);
        }
    }

    // A heap whose memory type is outside the resource's type mask is
    // refused.
    let unbound = factory.create_buffer_raw(info).unwrap();
    let mut foreign = factory.allocate_memory(1, 4096).unwrap();
    foreign.memory_type = 7;
    assert_eq!(
        factory.bind_buffer_memory(&foreign, 0, unbound),
        Err(BindError::WrongMemoryType)
    );
}

#[test]
fn allocation_errors_are_typed() {
    let mut factory = test_factory();
    assert!(matches!(
        factory.allocate_memory(9, 64),
        Err(AllocationError::InvalidMemoryType)
    ));
    let heap = factory.allocate_memory(0, 64).unwrap();
    assert_eq!(heap.size, 64);
    assert_eq!(heap.data.len(), 64);
    assert!(heap.data.iter().all(|b| *b == 0));
}

#[test]
fn sub_buffers_packed_into_one_heap_need_realignment() {
    // Four same-sized storage buffers share one allocation; each bind
    // offset is rounded up to the reported alignment before binding.
    let mut factory = test_factory();
    let info = buffer::Info { size: 1000, stride: 8, usage: Usage::storage() };
    let first = factory.create_buffer_raw(info).unwrap();
    let req = factory.get_buffer_requirements(&first);
    let heap = factory.allocate_memory(0, 16 * req.size).unwrap();

    let b0 = factory.bind_buffer_memory(&heap, 0, first).unwrap();
    let o1 = align_up(1000, req.alignment);
    let second = factory_clone_buffer(&mut factory, info);
    let b1 = factory.bind_buffer_memory(&heap, o1, second).unwrap();
    let o2 = align_up(o1 + 1000, req.alignment);
    let next = factory_clone_buffer(&mut factory, info);
    let b2 = factory.bind_buffer_memory(&heap, o2, next).unwrap();
    assert_eq!(b0.offset, 0);
    assert_eq!(b1.offset, 1024);
    assert_eq!(b2.offset, 2048);

    // Without re-aligning between sub-buffers the bind is refused.
    let third = factory_clone_buffer(&mut factory, info);
    assert_eq!(factory.bind_buffer_memory(&heap, o1 + 1000, third), Err(BindError::Misaligned));
}

fn factory_clone_buffer(
    factory: &mut Factory,
    info: buffer::Info,
) -> gfx_hal::factory::UnboundBuffer {
    factory.create_buffer_raw(info).unwrap()
}

#[test]
fn mapping_writer_publishes_on_release() {
    let mut factory = test_factory();
    let info = buffer::Info { size: 16, stride: 4, usage: Usage::vertex() };
    let unbound = factory.create_buffer_raw(info).unwrap();
    let mut heap = factory.allocate_memory(1, 1024).unwrap();
    let bound = factory.bind_buffer_memory(&heap, 256, unbound).unwrap();

    let mut writer = factory.acquire_mapping_writer(&bound, &heap, 0, 16).unwrap();
    assert_eq!(writer.len(), 16);
    writer.write(0, 0xaa);
    writer.write_bytes(4, &[1, 2, 3, 4]);
    factory.release_mapping_writer(&mut heap, writer);

    assert_eq!(heap.data[256], 0xaa);
    assert_eq!(&heap.data[260..264], &[1, 2, 3, 4]);
    assert_eq!(heap.data[255], 0);
    assert_eq!(heap.data[272], 0);

    // A device-local heap cannot be mapped.
    let unbound = factory.create_buffer_raw(info).unwrap();
    let local = factory.allocate_memory(0, 1024).unwrap();
    let bound_local = factory.bind_buffer_memory(&local, 0, unbound).unwrap();
    assert_eq!(
        factory.acquire_mapping_writer(&bound_local, &local, 0, 16).err(),
        Some(MappingError::NotCpuVisible)
    );
    // A writer over the wrong heap is refused.
    let other = factory.allocate_memory(1, 1024).unwrap();
    assert_eq!(
        factory.acquire_mapping_writer(&bound, &other, 0, 16).err(),
        Some(MappingError::WrongMemory)
    );
    // A range past the buffer's backed size is refused.
    assert_eq!(
        factory.acquire_mapping_writer(&bound, &heap, 0, bound.size + 1).err(),
        Some(MappingError::OutOfBounds)
    );
}
