//! The full round trip: create a host-visible vertex buffer, bind it,
//! fill it through a mapping writer, record a draw over it, and submit.

use gfx_hal::buffer::{self, Usage};
use gfx_hal::capability::Capability;
use gfx_hal::command::{ClearColor, ClearValue, Level, Rect, Shot};
use gfx_hal::factory::{BindError, Factory};
use gfx_hal::format::{ChannelType, SurfaceType};
use gfx_hal::image::ImageUsage;
use gfx_hal::memory::{select_memory_type, MemoryType, Properties};
use gfx_hal::native::{Attachment, LoadOp, StoreOp, SubpassDesc};
use gfx_hal::pso::VertexBufferSet;
use gfx_hal::queue::{Fence, Queue};
use gfx_hal::renderpass::RenderPassInlineEncoder;
use gfx_hal::submission::Submission;

const SIDE: usize = 256;
const VERTEX_BYTES: usize = 5 * 4;

fn test_factory() -> Factory {
    Factory::new(
        vec![
            MemoryType { properties: Properties::device_local() },
            MemoryType { properties: Properties::cpu_visible().union(Properties::coherent()) },
        ],
        256,
        1024,
        Usage::transfer_src().union(Usage::transfer_dst()).union(Usage::vertex()).union(
            Usage::index(),
        ),
        ImageUsage::sampled().union(ImageUsage::color_attachment()),
        vec![(SurfaceType::R8_G8_B8_A8, ChannelType::Unorm)],
    )
}

#[test]
fn vertex_buffer_round_trip() {
    let mut factory = test_factory();

    // Create a host-visible buffer for a 256 by 256 vertex grid.
    let len = (SIDE * SIDE * VERTEX_BYTES) as u64;
    let info = buffer::Info { size: len, stride: VERTEX_BYTES as u64, usage: Usage::vertex() };
    let unbound = factory.create_buffer_raw(info).unwrap();
    let requirements = factory.get_buffer_requirements(&unbound);

    // Pick a CPU-visible memory type out of the reported mask and
    // allocate exactly the reported size.
    let mem_type = select_memory_type(
        &factory.memory_types,
        requirements.type_mask,
        Properties::cpu_visible(),
    )
    .unwrap();
    assert_eq!(mem_type, 1);
    let mut heap = factory.allocate_memory(mem_type, requirements.size).unwrap();

    // Bind at offset zero, map the whole buffer and write the grid.
    let vertex_buffer = factory.bind_buffer_memory(&heap, 0, unbound).unwrap();
    let mut writer = factory.acquire_mapping_writer(&vertex_buffer, &heap, 0, len).unwrap();
    for z in 0..SIDE {
        for x in 0..SIDE {
            let mut record = [0u8; VERTEX_BYTES];
            let pos = [x as f32, 0.0f32, z as f32];
            let uv = [x as f32 / (SIDE - 1) as f32, z as f32 / (SIDE - 1) as f32];
            record[0..4].copy_from_slice(&pos[0].to_le_bytes());
            record[4..8].copy_from_slice(&pos[1].to_le_bytes());
            record[8..12].copy_from_slice(&pos[2].to_le_bytes());
            record[12..16].copy_from_slice(&uv[0].to_le_bytes());
            record[16..20].copy_from_slice(&uv[1].to_le_bytes());
            writer.write_bytes((z * SIDE + x) * VERTEX_BYTES, &record);
        }
    }
    factory.release_mapping_writer(&mut heap, writer);

    // The mapped writes reached the heap.
    assert_eq!(&heap.data[0..4], &0.0f32.to_le_bytes());
    assert_eq!(&heap.data[VERTEX_BYTES..VERTEX_BYTES + 4], &1.0f32.to_le_bytes());

    // Record a draw binding the buffer as a vertex buffer; nothing in the
    // recording raises an error.
    let attachment = Attachment {
        format: gfx_hal::format::Format(SurfaceType::R8_G8_B8_A8, ChannelType::Unorm),
        load: LoadOp::Clear,
        store: StoreOp::Store,
    };
    let pass = factory.create_renderpass(
        vec![attachment],
        vec![SubpassDesc { color_attachments: vec![0] }],
    );
    let view = gfx_hal::native::ImageView {
        image: 1,
        channel: ChannelType::Unorm,
        base_level: 0,
        level_count: 1,
        base_layer: 0,
        layer_count: 1,
    };
    let framebuffer = factory.create_framebuffer(&pass, vec![view], 1024, 768).unwrap();

    let queue_capability = Capability::General;
    let mut queue = Queue::new(1, queue_capability);
    let mut pool = queue.create_command_pool(1);
    let cb = pool.acquire_command_buffer();
    let mut encoder = RenderPassInlineEncoder::new(
        cb,
        &pass,
        &framebuffer,
        Rect { x: 0, y: 0, w: 1024, h: 768 },
        &[ClearValue::Color(ClearColor::Float([0, 0, 0, 0]))],
    );
    encoder.common.bind_vertex_buffers(&VertexBufferSet(vec![(vertex_buffer.id, 0)]));
    encoder.common.draw(0, (SIDE * SIDE) as u32, None);
    let cb = encoder.end();
    let submit = cb.finish();
    assert_eq!(submit.command_count(), 4);

    let submission = Submission::new().submit(vec![submit]);
    assert_eq!(submission.capability, Capability::General);
    let mut fence = Fence::new(false);
    queue.submit_with_fence(submission, &mut fence);
    fence.wait(&mut queue);
    assert!(fence.is_signaled());

    // A second, freshly created buffer bound at a misaligned offset must
    // be refused.
    let second = factory.create_buffer_raw(info).unwrap();
    let second_req = factory.get_buffer_requirements(&second);
    let misaligned = second_req.alignment / 2;
    let outcome = factory.bind_buffer_memory(&heap, misaligned, second);
    assert_eq!(outcome, Err(BindError::Misaligned));
}
