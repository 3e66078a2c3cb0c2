//! Command recording, pools and render-pass encoders.

use gfx_hal::capability::Capability;
use gfx_hal::command::{ClearColor, ClearValue, CommandBuffer, Level, Rect, Shot};
use gfx_hal::factory::Factory;
use gfx_hal::format::{ChannelType, SurfaceType};
use gfx_hal::image::ImageUsage;
use gfx_hal::memory::{MemoryType, Properties};
use gfx_hal::native::{Attachment, LoadOp, StoreOp, SubpassDesc};
use gfx_hal::pool::CommandPool;
use gfx_hal::pso::VertexBufferSet;
use gfx_hal::renderpass::{
    RenderPassInlineEncoder, RenderPassSecondaryEncoder, SubpassCommandBuffer,
};
use gfx_hal::queue::Queue;

fn test_factory() -> Factory {
    Factory::new(
        vec![MemoryType { properties: Properties::cpu_visible() }],
        256,
        1024,
        gfx_hal::buffer::Usage::transfer_src().union(gfx_hal::buffer::Usage::transfer_dst()),
        ImageUsage::sampled().union(ImageUsage::color_attachment()),
        vec![(SurfaceType::R8_G8_B8_A8, ChannelType::Unorm)],
    )
}

fn test_pass(factory: &mut Factory) -> (gfx_hal::native::RenderPass, gfx_hal::native::Framebuffer) {
    let attachment = Attachment {
        format: gfx_hal::format::Format(SurfaceType::R8_G8_B8_A8, ChannelType::Unorm),
        load: LoadOp::Clear,
        store: StoreOp::Store,
    };
    let pass = factory.create_renderpass(
        vec![attachment],
        vec![SubpassDesc { color_attachments: vec![0] }, SubpassDesc { color_attachments: vec![0] }],
    );
    let view = gfx_hal::native::ImageView {
        image: 1,
        channel: ChannelType::Unorm,
        base_level: 0,
        level_count: 1,
        base_layer: 0,
        layer_count: 1,
    };
    let framebuffer = factory.create_framebuffer(&pass, vec![view], 640, 480).unwrap();
    (pass, framebuffer)
}

#[test]
fn pool_hands_out_recording_buffers_and_grows() {
    let queue = Queue::new(1, Capability::General);
    let mut pool = queue.create_command_pool(1);
    assert_eq!(pool.capability, Capability::General);
    assert_eq!(pool.allocated, 1);

    let one = pool.acquire_command_buffer();
    assert_eq!(one.shot, Shot::OneShot);
    assert_eq!(one.level, Level::Primary);
    assert_eq!(pool.next_buffer, 1);

    // The pool grows when exhausted.
    let reusable = pool.acquire_reusable_command_buffer();
    assert_eq!(reusable.shot, Shot::MultiShot);
    assert_eq!(pool.next_buffer, 2);
    assert!(pool.allocated >= 2);

    pool.reset();
    assert_eq!(pool.next_buffer, 0);
}

#[test]
fn pool_reserve_grows_only_when_needed() {
    let mut pool = CommandPool::new(Capability::Transfer, 4);
    pool.reserve(2);
    assert_eq!(pool.allocated, 4);
    pool.reserve(6);
    assert_eq!(pool.allocated, 6);
}

#[test]
fn recording_tracks_command_and_pass_counts() {
    let mut factory = test_factory();
    let (pass, framebuffer) = test_pass(&mut factory);

    let mut cb = CommandBuffer::new(Capability::General, Shot::OneShot, Level::Primary);
    cb.set_viewports(&[]);
    cb.dispatch(4, 4, 1);
    assert_eq!(cb.recorded, 2);
    assert_eq!(cb.begun, 0);
    assert_eq!(cb.ended, 0);

    let mut encoder = RenderPassInlineEncoder::new(
        cb,
        &pass,
        &framebuffer,
        Rect { x: 0, y: 0, w: 640, h: 480 },
        &[ClearValue::Color(ClearColor::Float([0, 0, 0, 0x3f800000]))],
    );
    encoder.common.draw(0, 3, None);
    encoder.common.draw_indexed(0, 6, 0, Some((4, 0)));
    let encoder = encoder.next_subpass_inline();
    let cb = encoder.end();

    // One encoder lifetime opened and closed exactly one pass.
    assert_eq!(cb.begun, 1);
    assert_eq!(cb.ended, 1);
    assert_eq!(cb.recorded, 2 + 1 + 2 + 1 + 1);

    let submit = cb.finish();
    assert_eq!(submit.capability, Capability::General);
    assert_eq!(submit.level, Level::Primary);
    assert!(!submit.subpass_scope);
    assert_eq!(submit.command_count(), 7);
}

#[test]
fn downgraded_view_keeps_the_real_capability() {
    let mut cb = CommandBuffer::new(Capability::Graphics, Shot::OneShot, Level::Primary);
    cb.downgrade(Capability::Transfer);
    assert_eq!(cb.view, Capability::Transfer);
    assert_eq!(cb.capability, Capability::Graphics);
    let submit = cb.finish();
    // The finished buffer still carries the full capability.
    assert_eq!(submit.capability, Capability::Graphics);
}

#[test]
fn secondary_subpass_buffers_run_inside_a_secondary_pass() {
    let mut factory = test_factory();
    let (pass, framebuffer) = test_pass(&mut factory);

    // Record a subpass buffer: the same draw surface as the inline
    // encoder, but its product is subpass-scoped and secondary.
    let mut sub = SubpassCommandBuffer::new(Capability::Graphics, Shot::OneShot);
    sub.common.bind_vertex_buffers(&VertexBufferSet(vec![(9, 0)]));
    sub.common.draw(0, 3, None);
    let sub = sub.finish();
    assert_eq!(sub.level, Level::Secondary);
    assert!(sub.subpass_scope);
    assert_eq!(sub.command_count(), 2);

    let cb = CommandBuffer::new(Capability::General, Shot::OneShot, Level::Primary);
    let mut encoder = RenderPassSecondaryEncoder::new(
        cb,
        &pass,
        &framebuffer,
        Rect { x: 0, y: 0, w: 640, h: 480 },
        &[ClearValue::Color(ClearColor::Uint([0, 0, 0, 1]))],
    );
    encoder.execute_commands(vec![sub]);
    let cb = encoder.end();
    assert_eq!(cb.begun, 1);
    assert_eq!(cb.ended, 1);
    assert_eq!(cb.recorded, 3);
    let submit = cb.finish();
    assert!(submit.command_count() == 3);
}

#[test]
fn reusable_subpass_buffer_appears_in_two_passes() {
    let mut factory = test_factory();
    let (pass, framebuffer) = test_pass(&mut factory);

    let mut sub = SubpassCommandBuffer::new(Capability::Graphics, Shot::MultiShot);
    sub.common.draw(0, 3, None);
    let sub = sub.finish();

    let cb = CommandBuffer::new(Capability::General, Shot::OneShot, Level::Primary);
    let mut encoder = RenderPassSecondaryEncoder::new(
        cb,
        &pass,
        &framebuffer,
        Rect { x: 0, y: 0, w: 640, h: 480 },
        &[],
    );
    encoder.execute_commands(vec![sub.duplicate()]);
    let encoder = encoder.next_subpass_secondary();
    let mut encoder = encoder;
    encoder.execute_commands(vec![sub]);
    let cb = encoder.end();
    assert_eq!(cb.begun, 1);
    assert_eq!(cb.ended, 1);
}

#[test]
fn transfer_recording_on_a_downgraded_buffer() {
    let mut factory = test_factory();
    let info = gfx_hal::buffer::Info {
        size: 64,
        stride: 4,
        usage: gfx_hal::buffer::Usage::transfer_src().union(gfx_hal::buffer::Usage::transfer_dst()),
    };
    let src_unbound = factory.create_buffer_raw(info).unwrap();
    let dst_unbound = factory.create_buffer_raw(info).unwrap();
    let heap = factory.allocate_memory(0, 4096).unwrap();
    let src = factory.bind_buffer_memory(&heap, 0, src_unbound).unwrap();
    let dst = factory.bind_buffer_memory(&heap, 512, dst_unbound).unwrap();

    let mut cb = CommandBuffer::new(Capability::General, Shot::OneShot, Level::Primary);
    cb.downgrade(Capability::Transfer);
    cb.update_buffer(&src, 0, &[1, 2, 3, 4]);
    cb.copy_buffer(
        &src,
        &dst,
        &[gfx_hal::buffer::BufferCopy { src: 0, dst: 0, size: 64 }],
    );
    assert_eq!(cb.recorded, 2);
    let submit = cb.finish();
    assert_eq!(submit.capability, Capability::General);
}
