//! Render-pass recording encoders.
//!
//! An encoder owns the command buffer while a pass is open; constructing
//! one opens the pass, `end` closes it, so every encoder lifetime adds
//! exactly one `BeginRenderPass` and one `EndRenderPass` to the trace.  An
//! inline encoder records draws itself; a secondary-buffers encoder only
//! accepts pre-recorded subpass buffers, so no draw can be recorded on it.

use vstd::prelude::*;
use crate::buffer::IndexBufferView;
use crate::capability::{spec_supports, Capability};
use crate::command::{
    lemma_counts_push, spec_begin_count, spec_end_count, spec_is_basic, spec_no_pass_markers,
    spec_required, ClearValue, Command, CommandBuffer, Level, NestedTrace, Rect, Shot, Submit,
    SubpassContents, Viewport,
};
use crate::native::{Framebuffer, Pipeline, RenderPass};
use crate::state::RefValues;

verus! {

/// The draw-recording surface shared by the inline encoder and the
/// subpass command buffer: every method records a plain graphics command
/// and leaves the pass markers untouched.
pub struct RenderSubpassCommon {
    /// The buffer recorded into.
    pub buffer: CommandBuffer,
}

impl RenderSubpassCommon {
    /// The underlying recording is sound apart from pass balance, and
    /// graphics commands may be recorded.
    pub open spec fn wf(&self) -> bool {
        &&& self.buffer.counters_ok()
        &&& spec_supports(self.buffer.view, Capability::Graphics)
    }

    /// Appends one plain graphics command.
    fn record(&mut self, Ghost(c): Ghost<Command>)
        requires
            old(self).wf(),
            old(self).buffer.recorded < u64::MAX,
            spec_is_basic(c),
            !(c is BeginRenderPass) && !(c is EndRenderPass) && !(c is NextSubpass),
            spec_required(c) == Capability::Graphics,
        ensures
            final(self).wf(),
            final(self).buffer.spec_tags() == old(self).buffer.spec_tags(),
            final(self).buffer.commands@ == old(self).buffer.commands@.push(c),
            final(self).buffer.begun == old(self).buffer.begun,
            final(self).buffer.ended == old(self).buffer.ended,
    {
        proof {
            crate::capability::lemma_supports_transitive(
                self.buffer.capability,
                self.buffer.view,
                spec_required(c),
            );
            lemma_counts_push(self.buffer.commands@, c);
        }
        self.buffer.commands = Ghost(self.buffer.commands@.push(c));
        self.buffer.recorded = self.buffer.recorded + 1;
    }

    /// Records a draw of a vertex range.
    pub fn draw(
        &mut self,
        start: crate::VertexCount,
        count: crate::VertexCount,
        instances: Option<crate::InstanceParams>,
    )
        requires
            old(self).wf(),
            old(self).buffer.recorded < u64::MAX,
        ensures
            final(self).wf(),
            final(self).buffer.spec_tags() == old(self).buffer.spec_tags(),
            final(self).buffer.commands@ == old(self).buffer.commands@.push(
                Command::Draw { start, count, instances },
            ),
            final(self).buffer.begun == old(self).buffer.begun,
            final(self).buffer.ended == old(self).buffer.ended,
    {
        self.record(Ghost(Command::Draw { start, count, instances }));
    }

    /// Records a draw of an index range.
    pub fn draw_indexed(
        &mut self,
        start: crate::IndexCount,
        count: crate::IndexCount,
        base: crate::VertexOffset,
        instances: Option<crate::InstanceParams>,
    )
        requires
            old(self).wf(),
            old(self).buffer.recorded < u64::MAX,
        ensures
            final(self).wf(),
            final(self).buffer.spec_tags() == old(self).buffer.spec_tags(),
            final(self).buffer.commands@ == old(self).buffer.commands@.push(
                Command::DrawIndexed { start, count, base, instances },
            ),
            final(self).buffer.begun == old(self).buffer.begun,
            final(self).buffer.ended == old(self).buffer.ended,
    {
        self.record(Ghost(Command::DrawIndexed { start, count, base, instances }));
    }

    /// Records binding an index buffer.
    pub fn bind_index_buffer(&mut self, view: IndexBufferView)
        requires
            old(self).wf(),
            old(self).buffer.recorded < u64::MAX,
        ensures
            final(self).wf(),
            final(self).buffer.spec_tags() == old(self).buffer.spec_tags(),
            final(self).buffer.commands@ == old(self).buffer.commands@.push(
                Command::BindIndexBuffer { view },
            ),
            final(self).buffer.begun == old(self).buffer.begun,
            final(self).buffer.ended == old(self).buffer.ended,
    {
        self.record(Ghost(Command::BindIndexBuffer { view }));
    }

    /// Records binding the vertex buffers of the set, one slot per entry.
    pub fn bind_vertex_buffers(&mut self, set: &crate::pso::VertexBufferSet)
        requires
            old(self).wf(),
            old(self).buffer.recorded < u64::MAX,
        ensures
            final(self).wf(),
            final(self).buffer.spec_tags() == old(self).buffer.spec_tags(),
            final(self).buffer.commands@ == old(self).buffer.commands@.push(
                Command::BindVertexBuffers { buffers: set.0@ },
            ),
            final(self).buffer.begun == old(self).buffer.begun,
            final(self).buffer.ended == old(self).buffer.ended,
    {
        self.record(Ghost(Command::BindVertexBuffers { buffers: set.0@ }));
    }

    /// Records binding a graphics pipeline.
    pub fn bind_graphics_pipeline(&mut self, pipeline: &Pipeline)
        requires
            old(self).wf(),
            old(self).buffer.recorded < u64::MAX,
        ensures
            final(self).wf(),
            final(self).buffer.spec_tags() == old(self).buffer.spec_tags(),
            final(self).buffer.commands@ == old(self).buffer.commands@.push(
                Command::BindGraphicsPipeline { pipeline: *pipeline },
            ),
            final(self).buffer.begun == old(self).buffer.begun,
            final(self).buffer.ended == old(self).buffer.ended,
    {
        self.record(Ghost(Command::BindGraphicsPipeline { pipeline: *pipeline }));
    }

    /// Records binding graphics descriptor sets.
    pub fn bind_graphics_descriptor_sets(&mut self, first_set: usize, count: usize)
        requires
            old(self).wf(),
            old(self).buffer.recorded < u64::MAX,
        ensures
            final(self).wf(),
            final(self).buffer.spec_tags() == old(self).buffer.spec_tags(),
            final(self).buffer.commands@ == old(self).buffer.commands@.push(
                Command::BindGraphicsDescriptorSets { first_set, count },
            ),
            final(self).buffer.begun == old(self).buffer.begun,
            final(self).buffer.ended == old(self).buffer.ended,
    {
        self.record(Ghost(Command::BindGraphicsDescriptorSets { first_set, count }));
    }

    /// Records setting the viewports.
    pub fn set_viewports(&mut self, viewports: &[Viewport])
        requires
            old(self).wf(),
            old(self).buffer.recorded < u64::MAX,
        ensures
            final(self).wf(),
            final(self).buffer.spec_tags() == old(self).buffer.spec_tags(),
            final(self).buffer.commands@ == old(self).buffer.commands@.push(
                Command::SetViewports { viewports: viewports@ },
            ),
            final(self).buffer.begun == old(self).buffer.begun,
            final(self).buffer.ended == old(self).buffer.ended,
    {
        self.record(Ghost(Command::SetViewports { viewports: viewports@ }));
    }

    /// Records setting the scissor rectangles.
    pub fn set_scissors(&mut self, scissors: &[Rect])
        requires
            old(self).wf(),
            old(self).buffer.recorded < u64::MAX,
        ensures
            final(self).wf(),
            final(self).buffer.spec_tags() == old(self).buffer.spec_tags(),
            final(self).buffer.commands@ == old(self).buffer.commands@.push(
                Command::SetScissors { scissors: scissors@ },
            ),
            final(self).buffer.begun == old(self).buffer.begun,
            final(self).buffer.ended == old(self).buffer.ended,
    {
        self.record(Ghost(Command::SetScissors { scissors: scissors@ }));
    }

    /// Records setting stencil references and blend constants.
    pub fn set_ref_values(&mut self, values: RefValues)
        requires
            old(self).wf(),
            old(self).buffer.recorded < u64::MAX,
        ensures
            final(self).wf(),
            final(self).buffer.spec_tags() == old(self).buffer.spec_tags(),
            final(self).buffer.commands@ == old(self).buffer.commands@.push(
                Command::SetRefValues { values },
            ),
            final(self).buffer.begun == old(self).buffer.begun,
            final(self).buffer.ended == old(self).buffer.ended,
    {
        self.record(Ghost(Command::SetRefValues { values }));
    }
}

/// An encoder over a render pass whose current subpass records draws
/// inline.  Constructing it opens the pass; `end` closes it and hands the
/// command buffer back.
pub struct RenderPassInlineEncoder {
    /// The shared draw-recording surface over the borrowed buffer.
    pub common: RenderSubpassCommon,
}

impl RenderPassInlineEncoder {
    /// The pass is open: exactly one more begin than ends.
    pub open spec fn wf(&self) -> bool {
        &&& self.common.wf()
        &&& spec_begin_count(self.common.buffer.commands@) == spec_end_count(
            self.common.buffer.commands@,
        ) + 1
    }

    /// Opens a render pass on the buffer with the first subpass recording
    /// inline.  The buffer must support graphics work and have no pass
    /// open.
    pub fn new(
        cmd_buffer: CommandBuffer,
        render_pass: &RenderPass,
        frame_buffer: &Framebuffer,
        render_area: Rect,
        clear_values: &[ClearValue],
    ) -> (r: RenderPassInlineEncoder)
        requires
            cmd_buffer.wf(),
            cmd_buffer.recorded < u64::MAX,
            spec_supports(cmd_buffer.view, Capability::Graphics),
        ensures
            r.wf(),
            r.common.buffer.spec_tags() == cmd_buffer.spec_tags(),
            r.common.buffer.commands@ == cmd_buffer.commands@.push(
                Command::BeginRenderPass {
                    render_pass: render_pass.id,
                    framebuffer: frame_buffer.id,
                    area: render_area,
                    clear_values: clear_values@,
                    contents: SubpassContents::Inline,
                },
            ),
            r.common.buffer.begun == cmd_buffer.begun + 1,
            r.common.buffer.ended == cmd_buffer.ended,
    {
        let buffer = begin_renderpass(
            cmd_buffer,
            render_pass,
            frame_buffer,
            render_area,
            clear_values,
            SubpassContents::Inline,
        );
        RenderPassInlineEncoder { common: RenderSubpassCommon { buffer } }
    }

    /// Advances to the next subpass, still recording inline.
    pub fn next_subpass_inline(self) -> (r: RenderPassInlineEncoder)
        requires
            self.wf(),
            self.common.buffer.recorded < u64::MAX,
        ensures
            r.wf(),
            r.common.buffer.spec_tags() == self.common.buffer.spec_tags(),
            r.common.buffer.commands@ == self.common.buffer.commands@.push(
                Command::NextSubpass { contents: SubpassContents::Inline },
            ),
            r.common.buffer.begun == self.common.buffer.begun,
            r.common.buffer.ended == self.common.buffer.ended,
    {
        let buffer = next_subpass(self.common.buffer, SubpassContents::Inline);
        RenderPassInlineEncoder { common: RenderSubpassCommon { buffer } }
    }

    /// Advances to the next subpass, switching to pre-recorded secondary
    /// buffers; only a primary buffer may hold one.
    pub fn next_subpass_secondary(self) -> (r: RenderPassSecondaryEncoder)
        requires
            self.wf(),
            self.common.buffer.recorded < u64::MAX,
            self.common.buffer.level == Level::Primary,
        ensures
            r.wf(),
            r.buffer.spec_tags() == self.common.buffer.spec_tags(),
            r.buffer.commands@ == self.common.buffer.commands@.push(
                Command::NextSubpass { contents: SubpassContents::SecondaryBuffers },
            ),
            r.buffer.begun == self.common.buffer.begun,
            r.buffer.ended == self.common.buffer.ended,
    {
        let buffer = next_subpass(self.common.buffer, SubpassContents::SecondaryBuffers);
        RenderPassSecondaryEncoder { buffer }
    }

    /// Closes the pass and hands the command buffer back, balanced again.
    pub fn end(self) -> (r: CommandBuffer)
        requires
            self.wf(),
            self.common.buffer.recorded < u64::MAX,
        ensures
            r.wf(),
            r.spec_tags() == self.common.buffer.spec_tags(),
            r.commands@ == self.common.buffer.commands@.push(Command::EndRenderPass),
            r.begun == self.common.buffer.begun,
            r.ended == self.common.buffer.ended + 1,
    {
        end_renderpass(self.common.buffer)
    }
}

/// An encoder over a render pass whose current subpass accepts only
/// pre-recorded secondary buffers.  It has no draw methods, so a draw
/// cannot be recorded on it.
pub struct RenderPassSecondaryEncoder {
    /// The buffer the pass is open on.
    pub buffer: CommandBuffer,
}

impl RenderPassSecondaryEncoder {
    /// The pass is open: exactly one more begin than ends.
    pub open spec fn wf(&self) -> bool {
        &&& self.buffer.counters_ok()
        &&& spec_supports(self.buffer.view, Capability::Graphics)
        &&& spec_begin_count(self.buffer.commands@) == spec_end_count(self.buffer.commands@) + 1
    }

    /// Opens a render pass on a primary buffer with the first subpass
    /// taking secondary buffers.
    pub fn new(
        cmd_buffer: CommandBuffer,
        render_pass: &RenderPass,
        frame_buffer: &Framebuffer,
        render_area: Rect,
        clear_values: &[ClearValue],
    ) -> (r: RenderPassSecondaryEncoder)
        requires
            cmd_buffer.wf(),
            cmd_buffer.recorded < u64::MAX,
            spec_supports(cmd_buffer.view, Capability::Graphics),
            cmd_buffer.level == Level::Primary,
        ensures
            r.wf(),
            r.buffer.spec_tags() == cmd_buffer.spec_tags(),
            r.buffer.commands@ == cmd_buffer.commands@.push(
                Command::BeginRenderPass {
                    render_pass: render_pass.id,
                    framebuffer: frame_buffer.id,
                    area: render_area,
                    clear_values: clear_values@,
                    contents: SubpassContents::SecondaryBuffers,
                },
            ),
            r.buffer.begun == cmd_buffer.begun + 1,
            r.buffer.ended == cmd_buffer.ended,
    {
        let buffer = begin_renderpass(
            cmd_buffer,
            render_pass,
            frame_buffer,
            render_area,
            clear_values,
            SubpassContents::SecondaryBuffers,
        );
        RenderPassSecondaryEncoder { buffer }
    }

    /// Records running pre-recorded subpass buffers in this subpass.
    /// Consumes the submits; a reusable one can be duplicated first.
    pub fn execute_commands(&mut self, submits: Vec<Submit>)
        requires
            old(self).wf(),
            old(self).buffer.recorded < u64::MAX,
            forall|i: int|
                0 <= i < submits@.len() ==> {
                    let s = #[trigger] submits@[i];
                    &&& s.wf()
                    &&& s.level == Level::Secondary
                    &&& s.subpass_scope
                    &&& spec_supports(old(self).buffer.view, s.capability)
                    &&& forall|j: int| 0 <= j < s.buffer@.len() ==> spec_is_basic(#[trigger] s.buffer@[j])
                },
        ensures
            final(self).wf(),
            final(self).buffer.spec_tags() == old(self).buffer.spec_tags(),
            final(self).buffer.commands@ == old(self).buffer.commands@.push(
                Command::ExecuteCommands {
                    buffers: submits@.map(
                        |i: int, s: Submit|
                            NestedTrace { capability: s.capability, commands: s.buffer@ },
                    ),
                },
            ),
            final(self).buffer.begun == old(self).buffer.begun,
            final(self).buffer.ended == old(self).buffer.ended,
    {
        let ghost traces = submits@.map(
            |i: int, s: Submit| NestedTrace { capability: s.capability, commands: s.buffer@ },
        );
        proof {
            let c = Command::ExecuteCommands { buffers: traces };
            lemma_counts_push(self.buffer.commands@, c);
            assert forall|i: int| 0 <= i < traces.len() implies spec_supports(
                self.buffer.capability,
                (#[trigger] traces[i]).capability,
            ) && crate::command::spec_nested_ok(traces[i]) by {
                assert(traces[i].capability == submits@[i].capability);
                assert(traces[i].commands == submits@[i].buffer@);
                crate::capability::lemma_supports_transitive(
                    self.buffer.capability,
                    self.buffer.view,
                    submits@[i].capability,
                );
            }
            assert(crate::command::spec_cmd_supported(self.buffer.capability, c));
        }
        self.buffer.commands = Ghost(
            self.buffer.commands@.push(Command::ExecuteCommands { buffers: traces }),
        );
        self.buffer.recorded = self.buffer.recorded + 1;
    }

    /// Advances to the next subpass, switching to inline recording.
    pub fn next_subpass_inline(self) -> (r: RenderPassInlineEncoder)
        requires
            self.wf(),
            self.buffer.recorded < u64::MAX,
        ensures
            r.wf(),
            r.common.buffer.spec_tags() == self.buffer.spec_tags(),
            r.common.buffer.commands@ == self.buffer.commands@.push(
                Command::NextSubpass { contents: SubpassContents::Inline },
            ),
            r.common.buffer.begun == self.buffer.begun,
            r.common.buffer.ended == self.buffer.ended,
    {
        let buffer = next_subpass(self.buffer, SubpassContents::Inline);
        RenderPassInlineEncoder { common: RenderSubpassCommon { buffer } }
    }

    /// Advances to the next subpass, still taking secondary buffers.
    pub fn next_subpass_secondary(self) -> (r: RenderPassSecondaryEncoder)
        requires
            self.wf(),
            self.buffer.recorded < u64::MAX,
        ensures
            r.wf(),
            r.buffer.spec_tags() == self.buffer.spec_tags(),
            r.buffer.commands@ == self.buffer.commands@.push(
                Command::NextSubpass { contents: SubpassContents::SecondaryBuffers },
            ),
            r.buffer.begun == self.buffer.begun,
            r.buffer.ended == self.buffer.ended,
    {
        let buffer = next_subpass(self.buffer, SubpassContents::SecondaryBuffers);
        RenderPassSecondaryEncoder { buffer }
    }

    /// Closes the pass and hands the command buffer back, balanced again.
    pub fn end(self) -> (r: CommandBuffer)
        requires
            self.wf(),
            self.buffer.recorded < u64::MAX,
        ensures
            r.wf(),
            r.spec_tags() == self.buffer.spec_tags(),
            r.commands@ == self.buffer.commands@.push(Command::EndRenderPass),
            r.begun == self.buffer.begun,
            r.ended == self.buffer.ended + 1,
    {
        end_renderpass(self.buffer)
    }
}

/// Pushes the opening marker of a render pass.
fn begin_renderpass(
    cmd_buffer: CommandBuffer,
    render_pass: &RenderPass,
    frame_buffer: &Framebuffer,
    render_area: Rect,
    clear_values: &[ClearValue],
    contents: SubpassContents,
) -> (r: CommandBuffer)
    requires
        cmd_buffer.wf(),
        cmd_buffer.recorded < u64::MAX,
        spec_supports(cmd_buffer.view, Capability::Graphics),
    ensures
        r.counters_ok(),
        spec_begin_count(r.commands@) == spec_end_count(r.commands@) + 1,
        spec_supports(r.view, Capability::Graphics),
        r.spec_tags() == cmd_buffer.spec_tags(),
        r.commands@ == cmd_buffer.commands@.push(
            Command::BeginRenderPass {
                render_pass: render_pass.id,
                framebuffer: frame_buffer.id,
                area: render_area,
                clear_values: clear_values@,
                contents,
            },
        ),
        r.begun == cmd_buffer.begun + 1,
        r.ended == cmd_buffer.ended,
{
    let mut buffer = cmd_buffer;
    let ghost c = Command::BeginRenderPass {
        render_pass: render_pass.id,
        framebuffer: frame_buffer.id,
        area: render_area,
        clear_values: clear_values@,
        contents,
    };
    proof {
        crate::capability::lemma_supports_transitive(
            buffer.capability,
            buffer.view,
            Capability::Graphics,
        );
        crate::command::lemma_counts_le_len(buffer.commands@);
        lemma_counts_push(buffer.commands@, c);
    }
    buffer.commands = Ghost(buffer.commands@.push(c));
    buffer.recorded = buffer.recorded + 1;
    buffer.begun = buffer.begun + 1;
    buffer
}

/// Pushes a subpass-advance marker while a pass is open.
fn next_subpass(cmd_buffer: CommandBuffer, contents: SubpassContents) -> (r: CommandBuffer)
    requires
        cmd_buffer.counters_ok(),
        spec_supports(cmd_buffer.view, Capability::Graphics),
        spec_begin_count(cmd_buffer.commands@) == spec_end_count(cmd_buffer.commands@) + 1,
        cmd_buffer.recorded < u64::MAX,
    ensures
        r.counters_ok(),
        spec_supports(r.view, Capability::Graphics),
        spec_begin_count(r.commands@) == spec_end_count(r.commands@) + 1,
        r.spec_tags() == cmd_buffer.spec_tags(),
        r.commands@ == cmd_buffer.commands@.push(Command::NextSubpass { contents }),
        r.begun == cmd_buffer.begun,
        r.ended == cmd_buffer.ended,
{
    let mut buffer = cmd_buffer;
    let ghost c = Command::NextSubpass { contents };
    proof {
        crate::capability::lemma_supports_transitive(
            buffer.capability,
            buffer.view,
            Capability::Graphics,
        );
        lemma_counts_push(buffer.commands@, c);
    }
    buffer.commands = Ghost(buffer.commands@.push(c));
    buffer.recorded = buffer.recorded + 1;
    buffer
}

/// Pushes the closing marker of the open render pass.
fn end_renderpass(cmd_buffer: CommandBuffer) -> (r: CommandBuffer)
    requires
        cmd_buffer.counters_ok(),
        spec_supports(cmd_buffer.view, Capability::Graphics),
        spec_begin_count(cmd_buffer.commands@) == spec_end_count(cmd_buffer.commands@) + 1,
        cmd_buffer.recorded < u64::MAX,
    ensures
        r.wf(),
        r.spec_tags() == cmd_buffer.spec_tags(),
        r.commands@ == cmd_buffer.commands@.push(Command::EndRenderPass),
        r.begun == cmd_buffer.begun,
        r.ended == cmd_buffer.ended + 1,
{
    let mut buffer = cmd_buffer;
    proof {
        crate::capability::lemma_supports_transitive(
            buffer.capability,
            buffer.view,
            Capability::Graphics,
        );
        crate::command::lemma_counts_le_len(buffer.commands@);
        lemma_counts_push(buffer.commands@, Command::EndRenderPass);
    }
    buffer.commands = Ghost(buffer.commands@.push(Command::EndRenderPass));
    buffer.recorded = buffer.recorded + 1;
    buffer.ended = buffer.ended + 1;
    buffer
}

/// A secondary command buffer recorded entirely within a subpass: it
/// offers the same draw surface as the inline encoder, and its `finish`
/// yields a subpass-scoped secondary submit, which only a
/// secondary-buffers subpass can consume.
pub struct SubpassCommandBuffer {
    /// The shared draw-recording surface.
    pub common: RenderSubpassCommon,
}

impl SubpassCommandBuffer {
    /// The recording is sound and holds only plain graphics commands, no
    /// pass markers among them.
    pub open spec fn wf(&self) -> bool {
        &&& self.common.wf()
        &&& spec_no_pass_markers(self.common.buffer.commands@)
        &&& forall|i: int|
            0 <= i < self.common.buffer.commands@.len() ==> spec_is_basic(
                #[trigger] self.common.buffer.commands@[i],
            )
        &&& self.common.buffer.level == Level::Secondary
        &&& self.common.buffer.begun == 0
        &&& self.common.buffer.ended == 0
    }

    /// A fresh subpass recording of the given capability and shot count.
    pub fn new(capability: Capability, shot: Shot) -> (r: SubpassCommandBuffer)
        requires
            spec_supports(capability, Capability::Graphics),
        ensures
            r.wf(),
            r.common.buffer.capability == capability,
            r.common.buffer.view == capability,
            r.common.buffer.shot == shot,
            r.common.buffer.commands@.len() == 0,
    {
        let buffer = CommandBuffer::new(capability, shot, Level::Secondary);
        SubpassCommandBuffer { common: RenderSubpassCommon { buffer } }
    }

    /// Ends recording, yielding a subpass-scoped secondary submit.
    pub fn finish(self) -> (r: Submit)
        requires
            self.wf(),
        ensures
            r.wf(),
            r.capability == self.common.buffer.capability,
            r.shot == self.common.buffer.shot,
            r.level == Level::Secondary,
            r.subpass_scope,
            r.buffer@ == self.common.buffer.commands@,
            forall|j: int| 0 <= j < r.buffer@.len() ==> spec_is_basic(#[trigger] r.buffer@[j]),
    {
        Submit {
            capability: self.common.buffer.capability,
            shot: self.common.buffer.shot,
            level: Level::Secondary,
            subpass_scope: true,
            buffer: Ghost(self.common.buffer.commands@),
            len: self.common.buffer.recorded,
        }
    }
}

/// Sequence-concatenation distributes over the pass-marker counts.
pub proof fn lemma_counts_concat(a: Seq<Command>, b: Seq<Command>)
    ensures
        spec_begin_count(a + b) == spec_begin_count(a) + spec_begin_count(b),
        spec_end_count(a + b) == spec_end_count(a) + spec_end_count(b),
    decreases b.len(),
{
    if b.len() == 0 {
        assert(a + b =~= a);
    } else {
        assert((a + b).drop_last() =~= a + b.drop_last());
        assert((a + b).last() == b.last());
        lemma_counts_concat(a, b.drop_last());
    }
}

/// The render-pass nesting law: one encoder lifetime — a begin, any
/// run of subpass-level commands free of begin and end markers, then an
/// end — adds exactly one `BeginRenderPass` and one `EndRenderPass` to a
/// balanced trace, and leaves it balanced again.
pub proof fn lemma_render_pass_nesting(
    before: Seq<Command>,
    opening: Command,
    body: Seq<Command>,
    after: Seq<Command>,
)
    requires
        spec_begin_count(before) == spec_end_count(before),
        opening is BeginRenderPass,
        forall|i: int|
            0 <= i < body.len() ==> !((#[trigger] body[i]) is BeginRenderPass) && !(body[i]
                is EndRenderPass),
        after == before + seq![opening] + body + seq![Command::EndRenderPass],
    ensures
        spec_begin_count(after) == spec_begin_count(before) + 1,
        spec_end_count(after) == spec_end_count(before) + 1,
        spec_begin_count(after) == spec_end_count(after),
{
    lemma_counts_concat(before + seq![opening] + body, seq![Command::EndRenderPass]);
    lemma_counts_concat(before + seq![opening], body);
    lemma_counts_concat(before, seq![opening]);
    lemma_counts_only(seq![opening]);
    lemma_counts_only(seq![Command::EndRenderPass]);
    lemma_counts_body(body);
}

/// Marker counts of a one-command trace.
proof fn lemma_counts_only(s: Seq<Command>)
    requires
        s.len() == 1,
    ensures
        spec_begin_count(s) == if s[0] is BeginRenderPass {
            1int
        } else {
            0int
        },
        spec_end_count(s) == if s[0] is EndRenderPass {
            1int
        } else {
            0int
        },
{
    assert(s.drop_last() =~= Seq::<Command>::empty());
    assert(spec_begin_count(Seq::<Command>::empty()) == 0);
    assert(spec_end_count(Seq::<Command>::empty()) == 0);
    assert(s.last() == s[0]);
}

/// A trace without begin or end markers counts zero of each.
proof fn lemma_counts_body(s: Seq<Command>)
    requires
        forall|i: int|
            0 <= i < s.len() ==> !((#[trigger] s[i]) is BeginRenderPass) && !(s[i]
                is EndRenderPass),
    ensures
        spec_begin_count(s) == 0,
        spec_end_count(s) == 0,
    decreases s.len(),
{
    if s.len() > 0 {
        lemma_counts_body(s.drop_last());
    }
}

} // verus!
