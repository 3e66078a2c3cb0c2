//! Capability-typed command recording.
//!
//! A `CommandBuffer` records commands under a capability; every recording
//! method asks that the buffer's capability support the command, so a
//! buffer never holds a command outside the set its capability allows.
//! `finish` turns the recording into an opaque `Submit` carrying the
//! capability, the shot count and the level.
//!
//! What was recorded is kept as a ghost trace of `Command` values — the
//! model's stand-in for the native buffer a backend would fill — together
//! with executable counters for the trace length and the render-pass
//! markers.
//!
//! The capability checks are discharged by the verifier, so for verified
//! callers there is no runtime "wrong capability" error by design; a
//! caller outside verification must establish the preconditions itself,
//! as a native API trusts its caller.

use vstd::prelude::*;
use crate::buffer::{Access, BufferCopy, IndexBufferView};
use crate::capability::{spec_supports, Capability};
use crate::factory::{Buffer, Image};
use crate::image::ImageLayout;
use crate::native::{ComputePipeline, ImageView};
use crate::pso::PipelineStage;
use crate::state::RefValues;

verus! {

/// How many times a finished buffer may be submitted.
#[derive(Clone, Copy, Debug, PartialEq, Eq, Structural, Hash)]
pub enum Shot {
    /// Submitted at most once.
    OneShot,
    /// Submitted any number of times.
    MultiShot,
}

/// Level of a command buffer.
#[derive(Clone, Copy, Debug, PartialEq, Eq, Structural, Hash)]
pub enum Level {
    /// Submittable to a queue.
    Primary,
    /// Only executable from inside a primary buffer.
    Secondary,
}

/// A rectangle of the render target, in pixels.
#[derive(Clone, Copy, Debug, PartialEq, Eq, Structural, Hash)]
pub struct Rect {
    /// Left edge.
    pub x: u16,
    /// Top edge.
    pub y: u16,
    /// Width.
    pub w: u16,
    /// Height.
    pub h: u16,
}

/// A viewport transform, in pixels; the depth range carries the bit
/// patterns of 32-bit IEEE floats.
#[derive(Clone, Copy, Debug, PartialEq, Eq, Structural, Hash)]
pub struct Viewport {
    /// Left edge.
    pub x: u16,
    /// Top edge.
    pub y: u16,
    /// Width.
    pub w: u16,
    /// Height.
    pub h: u16,
    /// Nearest depth, as float bits.
    pub near: u32,
    /// Farthest depth, as float bits.
    pub far: u32,
}

/// A color a render target is cleared to.
#[derive(Clone, Copy, Debug, PartialEq, Eq, Hash)]
pub enum ClearColor {
    /// Four channels, each the bits of a 32-bit IEEE float.
    Float([u32; 4]),
    /// Four signed integer channels.
    Int([i32; 4]),
    /// Four unsigned integer channels.
    Uint([u32; 4]),
}

/// A value an attachment is cleared to when its pass begins.
#[derive(Clone, Copy, Debug, PartialEq, Eq, Hash)]
pub enum ClearValue {
    /// For a color attachment.
    Color(ClearColor),
    /// For a depth-stencil attachment: depth as float bits, stencil.
    DepthStencil(u32, u32),
}

/// What commands of the following subpass are recorded through.
#[derive(Clone, Copy, Debug, PartialEq, Eq, Structural, Hash)]
pub enum SubpassContents {
    /// Commands are recorded inline on the encoder.
    Inline,
    /// Only pre-recorded secondary buffers are executed.
    SecondaryBuffers,
}

/// A barrier on a buffer: its access state before and after.
#[derive(Clone, Copy, Debug, PartialEq, Eq, Structural, Hash)]
pub struct BufferBarrier {
    /// Access before the barrier.
    pub src_access: Access,
    /// Access after the barrier.
    pub dst_access: Access,
    /// Handle of the buffer.
    pub buffer: u64,
}

/// A barrier on an image: its access and layout before and after.
#[derive(Clone, Copy, Debug, PartialEq, Eq, Structural, Hash)]
pub struct ImageBarrier {
    /// Access bits before the barrier.
    pub src_access: u16,
    /// Layout before the barrier.
    pub src_layout: ImageLayout,
    /// Access bits after the barrier.
    pub dst_access: u16,
    /// Layout after the barrier.
    pub dst_layout: ImageLayout,
    /// Handle of the image.
    pub image: u64,
}

/// The trace a nested secondary buffer contributes when executed from a
/// primary recording: its capability and its commands.
pub struct NestedTrace {
    /// Capability the nested buffer was recorded under.
    pub capability: Capability,
    /// The nested buffer's commands.
    pub commands: Seq<Command>,
}

/// One recorded command of the ghost trace: what a backend would hand to
/// the driver, as plain values.
pub enum Command {
    /// Write bytes into a buffer.
    UpdateBuffer {
        /// Destination buffer handle.
        buffer: u64,
        /// Byte offset of the write.
        offset: u64,
        /// The bytes written.
        data: Seq<u8>,
    },
    /// Copy regions between buffers.
    CopyBuffer {
        /// Source buffer handle.
        src: u64,
        /// Destination buffer handle.
        dst: u64,
        /// The regions copied.
        regions: Seq<BufferCopy>,
    },
    /// Copy between images.
    CopyImage {
        /// Source image handle.
        src: u64,
        /// Destination image handle.
        dst: u64,
    },
    /// Order earlier work against later work.
    PipelineBarrier {
        /// Stages that must finish first.
        src_stages: PipelineStage,
        /// Stages that wait.
        dst_stages: PipelineStage,
        /// Buffer state transitions.
        buffer_barriers: Seq<BufferBarrier>,
        /// Image state transitions.
        image_barriers: Seq<ImageBarrier>,
    },
    /// Run a compute grid.
    Dispatch {
        /// Work groups along x.
        x: u32,
        /// Work groups along y.
        y: u32,
        /// Work groups along z.
        z: u32,
    },
    /// Bind a compute pipeline.
    BindComputePipeline {
        /// The pipeline bound.
        pipeline: ComputePipeline,
    },
    /// Clear a color image outside a render pass.
    ClearColor {
        /// View of the cleared image.
        view: ImageView,
        /// The clear color.
        color: ClearColor,
    },
    /// Set the viewports.
    SetViewports {
        /// The viewports, first slot onward.
        viewports: Seq<Viewport>,
    },
    /// Set the scissor rectangles.
    SetScissors {
        /// The rectangles, first slot onward.
        scissors: Seq<Rect>,
    },
    /// Set stencil references and blend constants.
    SetRefValues {
        /// The values set.
        values: RefValues,
    },
    /// Bind a graphics pipeline.
    BindGraphicsPipeline {
        /// The pipeline bound.
        pipeline: crate::native::Pipeline,
    },
    /// Bind an index buffer.
    BindIndexBuffer {
        /// The binding.
        view: IndexBufferView,
    },
    /// Bind vertex buffers, one slot per entry.
    BindVertexBuffers {
        /// Buffer handles with byte offsets, one per slot.
        buffers: Seq<(u64, u64)>,
    },
    /// Bind graphics descriptor sets.
    BindGraphicsDescriptorSets {
        /// First set index bound.
        first_set: usize,
        /// Number of sets bound.
        count: usize,
    },
    /// Draw a vertex range.
    Draw {
        /// First vertex.
        start: crate::VertexCount,
        /// Number of vertices.
        count: crate::VertexCount,
        /// Instance range, or `None` for one instance.
        instances: Option<crate::InstanceParams>,
    },
    /// Draw an index range.
    DrawIndexed {
        /// First index.
        start: crate::IndexCount,
        /// Number of indices.
        count: crate::IndexCount,
        /// Offset added to every index.
        base: crate::VertexOffset,
        /// Instance range, or `None` for one instance.
        instances: Option<crate::InstanceParams>,
    },
    /// Open a render pass.
    BeginRenderPass {
        /// Handle of the render pass.
        render_pass: u64,
        /// Handle of the framebuffer rendered into.
        framebuffer: u64,
        /// The area rendered.
        area: Rect,
        /// Clear values of the attachments.
        clear_values: Seq<ClearValue>,
        /// How the first subpass records.
        contents: SubpassContents,
    },
    /// Advance to the next subpass.
    NextSubpass {
        /// How the next subpass records.
        contents: SubpassContents,
    },
    /// Close the open render pass.
    EndRenderPass,
    /// Run pre-recorded secondary buffers.
    ExecuteCommands {
        /// The traces of the buffers run, in order.
        buffers: Seq<NestedTrace>,
    },
}

/// Whether a command is a plain command, not a nesting of other buffers.
pub open spec fn spec_is_basic(c: Command) -> bool {
    !(c is ExecuteCommands)
}

/// The least capability a plain command asks of its buffer.
pub open spec fn spec_required(c: Command) -> Capability {
    match c {
        Command::UpdateBuffer { .. } => Capability::Transfer,
        Command::CopyBuffer { .. } => Capability::Transfer,
        Command::CopyImage { .. } => Capability::Transfer,
        Command::PipelineBarrier { .. } => Capability::Transfer,
        Command::Dispatch { .. } => Capability::Compute,
        Command::BindComputePipeline { .. } => Capability::Compute,
        Command::ClearColor { .. } => Capability::Graphics,
        Command::SetViewports { .. } => Capability::Graphics,
        Command::SetScissors { .. } => Capability::Graphics,
        Command::SetRefValues { .. } => Capability::Graphics,
        Command::BindGraphicsPipeline { .. } => Capability::Graphics,
        Command::BindIndexBuffer { .. } => Capability::Graphics,
        Command::BindVertexBuffers { .. } => Capability::Graphics,
        Command::BindGraphicsDescriptorSets { .. } => Capability::Graphics,
        Command::Draw { .. } => Capability::Graphics,
        Command::DrawIndexed { .. } => Capability::Graphics,
        Command::BeginRenderPass { .. } => Capability::Graphics,
        Command::NextSubpass { .. } => Capability::Graphics,
        Command::EndRenderPass => Capability::Graphics,
        Command::ExecuteCommands { .. } => Capability::Transfer,
    }
}

/// Whether a nested trace is fit for nesting: only plain commands, each
/// supported by the nested buffer's own capability, and passes balanced.
pub open spec fn spec_nested_ok(t: NestedTrace) -> bool {
    &&& spec_begin_count(t.commands) == spec_end_count(t.commands)
    &&& forall|j: int|
        0 <= j < t.commands.len() ==> spec_is_basic(#[trigger] t.commands[j]) && spec_supports(
            t.capability,
            spec_required(t.commands[j]),
        )
}

/// Whether a command is within what capability `cap` allows: a plain
/// command's required capability must be supported; an execution of
/// secondary buffers asks that each nested buffer's capability be
/// supported and its trace be fit for nesting.
pub open spec fn spec_cmd_supported(cap: Capability, c: Command) -> bool {
    match c {
        Command::ExecuteCommands { buffers } => forall|i: int|
            0 <= i < buffers.len() ==> spec_supports(
                cap,
                (#[trigger] buffers[i]).capability,
            ) && spec_nested_ok(buffers[i]),
        _ => spec_supports(cap, spec_required(c)),
    }
}

/// Number of `BeginRenderPass` commands in the trace.
pub open spec fn spec_begin_count(cmds: Seq<Command>) -> int
    decreases cmds.len(),
{
    if cmds.len() == 0 {
        0
    } else {
        spec_begin_count(cmds.drop_last()) + if cmds.last() is BeginRenderPass {
            1int
        } else {
            0int
        }
    }
}

/// Number of `EndRenderPass` commands in the trace.
pub open spec fn spec_end_count(cmds: Seq<Command>) -> int
    decreases cmds.len(),
{
    if cmds.len() == 0 {
        0
    } else {
        spec_end_count(cmds.drop_last()) + if cmds.last() is EndRenderPass {
            1int
        } else {
            0int
        }
    }
}

/// Whether the trace holds no render-pass marker at all.
pub open spec fn spec_no_pass_markers(cmds: Seq<Command>) -> bool {
    forall|i: int|
        0 <= i < cmds.len() ==> !((#[trigger] cmds[i]) is BeginRenderPass) && !(cmds[i]
            is EndRenderPass) && !(cmds[i] is NextSubpass)
}

/// Appending one command raises the pass-marker counts by exactly the
/// markers appended.
pub proof fn lemma_counts_push(cmds: Seq<Command>, c: Command)
    ensures
        spec_begin_count(cmds.push(c)) == spec_begin_count(cmds) + if c is BeginRenderPass {
            1int
        } else {
            0int
        },
        spec_end_count(cmds.push(c)) == spec_end_count(cmds) + if c is EndRenderPass {
            1int
        } else {
            0int
        },
{
    assert(cmds.push(c).drop_last() =~= cmds);
    assert(cmds.push(c).last() == c);
}

/// The pass-marker counts never pass the trace's length.
pub proof fn lemma_counts_le_len(cmds: Seq<Command>)
    ensures
        0 <= spec_begin_count(cmds) <= cmds.len(),
        0 <= spec_end_count(cmds) <= cmds.len(),
    decreases cmds.len(),
{
    if cmds.len() > 0 {
        lemma_counts_le_len(cmds.drop_last());
    }
}

/// Every command of the trace is within what `cap` allows.
pub open spec fn spec_cmds_supported(cmds: Seq<Command>, cap: Capability) -> bool {
    forall|i: int| 0 <= i < cmds.len() ==> spec_cmd_supported(cap, #[trigger] cmds[i])
}

/// A thread-safe finished command buffer, ready for submission: the
/// recorded trace with the capability, shot count and level it was
/// recorded under.  Recording methods do not exist on it; re-recording
/// needs the pool to be reset first.
pub struct Submit {
    /// Capability the commands were recorded under.
    pub capability: Capability,
    /// How many times the buffer may be submitted.
    pub shot: Shot,
    /// Level of the buffer.
    pub level: Level,
    /// Whether the buffer was recorded to run inside a subpass.
    pub subpass_scope: bool,
    /// The recorded commands.
    pub buffer: Ghost<Seq<Command>>,
    /// Number of recorded commands.
    pub len: u64,
}

impl Submit {
    /// Every recorded command is within the capability, passes are
    /// balanced, a subpass-scoped buffer holds no pass markers, and the
    /// length counter matches the trace.
    pub open spec fn wf(&self) -> bool {
        &&& spec_cmds_supported(self.buffer@, self.capability)
        &&& spec_begin_count(self.buffer@) == spec_end_count(self.buffer@)
        &&& (self.subpass_scope ==> spec_no_pass_markers(self.buffer@))
        &&& self.len == self.buffer@.len()
    }

    /// Number of recorded commands.
    pub fn command_count(&self) -> (r: u64)
        ensures
            r == self.len,
            self.wf() ==> r == self.buffer@.len(),
    {
        self.len
    }

    /// A second handle to the finished buffer, for a reusable submit
    /// appearing in several submissions.  The native buffer behind the
    /// trace is shared, not re-recorded.
    pub fn duplicate(&self) -> (r: Submit)
        ensures
            r.capability == self.capability,
            r.shot == self.shot,
            r.level == self.level,
            r.subpass_scope == self.subpass_scope,
            r.buffer@ == self.buffer@,
            r.len == self.len,
    {
        Submit {
            capability: self.capability,
            shot: self.shot,
            level: self.level,
            subpass_scope: self.subpass_scope,
            buffer: Ghost(self.buffer@),
            len: self.len,
        }
    }
}

/// A command buffer in the recording state.  `capability` is what the
/// underlying buffer really carries; `view` is what the present holder may
/// record under, lowered by `downgrade`.
pub struct CommandBuffer {
    /// Capability of the underlying buffer.
    pub capability: Capability,
    /// Capability the holder records under; at most `capability`.
    pub view: Capability,
    /// How many times the finished buffer may be submitted.
    pub shot: Shot,
    /// Level of the buffer.
    pub level: Level,
    /// The commands recorded so far.
    pub commands: Ghost<Seq<Command>>,
    /// Number of recorded commands.
    pub recorded: u64,
    /// Number of render passes opened.
    pub begun: u64,
    /// Number of render passes closed.
    pub ended: u64,
}

impl CommandBuffer {
    /// The recording is sound: the view is within the capability, every
    /// recorded command is within the capability, no pass is left open,
    /// and the counters match the trace.
    pub open spec fn wf(&self) -> bool {
        &&& self.counters_ok()
        &&& spec_begin_count(self.commands@) == spec_end_count(self.commands@)
    }

    /// Everything of `wf` except the balance of pass markers; this much
    /// holds even while an encoder has a pass open.
    pub open spec fn counters_ok(&self) -> bool {
        &&& spec_supports(self.capability, self.view)
        &&& spec_cmds_supported(self.commands@, self.capability)
        &&& self.recorded == self.commands@.len()
        &&& self.begun == spec_begin_count(self.commands@)
        &&& self.ended == spec_end_count(self.commands@)
    }

    /// Everything but the recorded commands and counters.
    pub open spec fn spec_tags(&self) -> (Capability, Capability, Shot, Level) {
        (self.capability, self.view, self.shot, self.level)
    }

    /// A fresh, empty recording of the given capability, shot and level.
    pub fn new(capability: Capability, shot: Shot, level: Level) -> (r: CommandBuffer)
        ensures
            r.wf(),
            r.capability == capability,
            r.view == capability,
            r.shot == shot,
            r.level == level,
            r.commands@.len() == 0,
    {
        proof {
            crate::capability::lemma_supports_reflexive(capability);
        }
        CommandBuffer {
            capability,
            view: capability,
            shot,
            level,
            commands: Ghost(Seq::empty()),
            recorded: 0,
            begun: 0,
            ended: 0,
        }
    }

    /// Lowers the capability the holder records under.  Used to hand a
    /// buffer to code that only needs the smaller capability without
    /// letting it record more.
    pub fn downgrade(&mut self, target: Capability)
        requires
            old(self).wf(),
            spec_supports(old(self).view, target),
        ensures
            final(self).wf(),
            final(self).view == target,
            final(self).capability == old(self).capability,
            final(self).shot == old(self).shot,
            final(self).level == old(self).level,
            final(self).commands@ == old(self).commands@,
    {
        proof {
            crate::capability::lemma_supports_transitive(self.capability, self.view, target);
        }
        self.view = target;
    }

    /// Ends recording.  The buffer is consumed; the result can be
    /// recorded to no further and carries the buffer's capability, shot
    /// and level.
    pub fn finish(self) -> (r: Submit)
        requires
            self.wf(),
        ensures
            r.wf(),
            r.capability == self.capability,
            r.shot == self.shot,
            r.level == self.level,
            !r.subpass_scope,
            r.buffer@ == self.commands@,
    {
        Submit {
            capability: self.capability,
            shot: self.shot,
            level: self.level,
            subpass_scope: false,
            buffer: Ghost(self.commands@),
            len: self.recorded,
        }
    }

    /// Appends one non-marker command on behalf of a recording method.
    /// The command must be within the view's capability.
    fn record(&mut self, Ghost(c): Ghost<Command>)
        requires
            old(self).wf(),
            old(self).recorded < u64::MAX,
            spec_is_basic(c),
            !(c is BeginRenderPass) && !(c is EndRenderPass) && !(c is NextSubpass),
            spec_supports(old(self).view, spec_required(c)),
        ensures
            final(self).wf(),
            final(self).spec_tags() == old(self).spec_tags(),
            final(self).commands@ == old(self).commands@.push(c),
            final(self).begun == old(self).begun,
            final(self).ended == old(self).ended,
    {
        proof {
            crate::capability::lemma_supports_transitive(
                self.capability,
                self.view,
                spec_required(c),
            );
            lemma_counts_push(self.commands@, c);
        }
        self.commands = Ghost(self.commands@.push(c));
        self.recorded = self.recorded + 1;
    }

    /// Records a write of bytes into a buffer.
    pub fn update_buffer(&mut self, buffer: &Buffer, offset: u64, data: &[u8])
        requires
            old(self).wf(),
            old(self).recorded < u64::MAX,
            spec_supports(old(self).view, Capability::Transfer),
        ensures
            final(self).wf(),
            final(self).spec_tags() == old(self).spec_tags(),
            final(self).commands@ == old(self).commands@.push(
                Command::UpdateBuffer { buffer: buffer.id, offset, data: data@ },
            ),
    {
        self.record(Ghost(Command::UpdateBuffer { buffer: buffer.id, offset, data: data@ }));
    }

    /// Records a copy of regions between buffers.
    pub fn copy_buffer(&mut self, src: &Buffer, dst: &Buffer, regions: &[BufferCopy])
        requires
            old(self).wf(),
            old(self).recorded < u64::MAX,
            spec_supports(old(self).view, Capability::Transfer),
        ensures
            final(self).wf(),
            final(self).spec_tags() == old(self).spec_tags(),
            final(self).commands@ == old(self).commands@.push(
                Command::CopyBuffer { src: src.id, dst: dst.id, regions: regions@ },
            ),
    {
        self.record(Ghost(Command::CopyBuffer { src: src.id, dst: dst.id, regions: regions@ }));
    }

    /// Records a copy between images.
    pub fn copy_image(&mut self, src: &Image, dst: &Image)
        requires
            old(self).wf(),
            old(self).recorded < u64::MAX,
            spec_supports(old(self).view, Capability::Transfer),
        ensures
            final(self).wf(),
            final(self).spec_tags() == old(self).spec_tags(),
            final(self).commands@ == old(self).commands@.push(
                Command::CopyImage { src: src.id, dst: dst.id },
            ),
    {
        self.record(Ghost(Command::CopyImage { src: src.id, dst: dst.id }));
    }

    /// Records a pipeline barrier: later work at `dst_stages` waits for
    /// earlier work at `src_stages`, with the given state transitions.
    /// The sole mechanism for ordering commands within one buffer.
    pub fn pipeline_barrier(
        &mut self,
        src_stages: PipelineStage,
        dst_stages: PipelineStage,
        buffer_barriers: &[BufferBarrier],
        image_barriers: &[ImageBarrier],
    )
        requires
            old(self).wf(),
            old(self).recorded < u64::MAX,
            spec_supports(old(self).view, Capability::Transfer),
        ensures
            final(self).wf(),
            final(self).spec_tags() == old(self).spec_tags(),
            final(self).commands@ == old(self).commands@.push(
                Command::PipelineBarrier {
                    src_stages,
                    dst_stages,
                    buffer_barriers: buffer_barriers@,
                    image_barriers: image_barriers@,
                },
            ),
    {
        self.record(
            Ghost(
                Command::PipelineBarrier {
                    src_stages,
                    dst_stages,
                    buffer_barriers: buffer_barriers@,
                    image_barriers: image_barriers@,
                },
            ),
        );
    }

    /// Records a compute dispatch.
    pub fn dispatch(&mut self, x: u32, y: u32, z: u32)
        requires
            old(self).wf(),
            old(self).recorded < u64::MAX,
            spec_supports(old(self).view, Capability::Compute),
        ensures
            final(self).wf(),
            final(self).spec_tags() == old(self).spec_tags(),
            final(self).commands@ == old(self).commands@.push(Command::Dispatch { x, y, z }),
    {
        self.record(Ghost(Command::Dispatch { x, y, z }));
    }

    /// Records binding a compute pipeline.
    pub fn bind_compute_pipeline(&mut self, pipeline: &ComputePipeline)
        requires
            old(self).wf(),
            old(self).recorded < u64::MAX,
            spec_supports(old(self).view, Capability::Compute),
        ensures
            final(self).wf(),
            final(self).spec_tags() == old(self).spec_tags(),
            final(self).commands@ == old(self).commands@.push(
                Command::BindComputePipeline { pipeline: *pipeline },
            ),
    {
        self.record(Ghost(Command::BindComputePipeline { pipeline: *pipeline }));
    }

    /// Records clearing a color image, outside any render pass.
    pub fn clear_color(&mut self, view: &ImageView, color: ClearColor)
        requires
            old(self).wf(),
            old(self).recorded < u64::MAX,
            spec_supports(old(self).view, Capability::Graphics),
        ensures
            final(self).wf(),
            final(self).spec_tags() == old(self).spec_tags(),
            final(self).commands@ == old(self).commands@.push(
                Command::ClearColor { view: *view, color },
            ),
    {
        self.record(Ghost(Command::ClearColor { view: *view, color }));
    }

    /// Records setting the viewports.
    pub fn set_viewports(&mut self, viewports: &[Viewport])
        requires
            old(self).wf(),
            old(self).recorded < u64::MAX,
            spec_supports(old(self).view, Capability::Graphics),
        ensures
            final(self).wf(),
            final(self).spec_tags() == old(self).spec_tags(),
            final(self).commands@ == old(self).commands@.push(
                Command::SetViewports { viewports: viewports@ },
            ),
    {
        self.record(Ghost(Command::SetViewports { viewports: viewports@ }));
    }

    /// Records setting the scissor rectangles.
    pub fn set_scissors(&mut self, scissors: &[Rect])
        requires
            old(self).wf(),
            old(self).recorded < u64::MAX,
            spec_supports(old(self).view, Capability::Graphics),
        ensures
            final(self).wf(),
            final(self).spec_tags() == old(self).spec_tags(),
            final(self).commands@ == old(self).commands@.push(
                Command::SetScissors { scissors: scissors@ },
            ),
    {
        self.record(Ghost(Command::SetScissors { scissors: scissors@ }));
    }

    /// Records setting stencil references and blend constants.
    pub fn set_ref_values(&mut self, values: RefValues)
        requires
            old(self).wf(),
            old(self).recorded < u64::MAX,
            spec_supports(old(self).view, Capability::Graphics),
        ensures
            final(self).wf(),
            final(self).spec_tags() == old(self).spec_tags(),
            final(self).commands@ == old(self).commands@.push(Command::SetRefValues { values }),
    {
        self.record(Ghost(Command::SetRefValues { values }));
    }

    /// Records running pre-recorded secondary buffers from this primary
    /// buffer.  Consumes the submits; a reusable one can be duplicated
    /// first.
    pub fn execute_commands(&mut self, submits: Vec<Submit>)
        requires
            old(self).wf(),
            old(self).recorded < u64::MAX,
            old(self).level == Level::Primary,
            forall|i: int|
                0 <= i < submits@.len() ==> {
                    let s = #[trigger] submits@[i];
                    &&& s.wf()
                    &&& s.level == Level::Secondary
                    &&& !s.subpass_scope
                    &&& spec_supports(old(self).view, s.capability)
                    &&& forall|j: int| 0 <= j < s.buffer@.len() ==> spec_is_basic(#[trigger] s.buffer@[j])
                },
        ensures
            final(self).wf(),
            final(self).spec_tags() == old(self).spec_tags(),
            final(self).commands@ == old(self).commands@.push(
                Command::ExecuteCommands {
                    buffers: submits@.map(
                        |i: int, s: Submit|
                            NestedTrace { capability: s.capability, commands: s.buffer@ },
                    ),
                },
            ),
    {
        let ghost traces = submits@.map(
            |i: int, s: Submit| NestedTrace { capability: s.capability, commands: s.buffer@ },
        );
        proof {
            let c = Command::ExecuteCommands { buffers: traces };
            lemma_counts_push(self.commands@, c);
            assert forall|i: int| 0 <= i < traces.len() implies spec_supports(
                self.capability,
                (#[trigger] traces[i]).capability,
            ) && spec_nested_ok(traces[i]) by {
                assert(traces[i].capability == submits@[i].capability);
                assert(traces[i].commands == submits@[i].buffer@);
                crate::capability::lemma_supports_transitive(
                    self.capability,
                    self.view,
                    submits@[i].capability,
                );
            }
            assert(spec_cmd_supported(self.capability, c));
        }
        self.commands = Ghost(self.commands@.push(Command::ExecuteCommands { buffers: traces }));
        self.recorded = self.recorded + 1;
    }
}

} // verus!
