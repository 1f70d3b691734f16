//! Render passes as recorded sequences of commands.

use vstd::prelude::*;
use std::ops::Range;
use crate::model::{BindGroupId, BufferId, PipelineId, TextureViewId};
use crate::pipeline::{IndexFormat, RenderPipelineDescriptor};

verus! {

/// One command of a render pass. Ranges are half open: from `first` up to,
/// not including, `end`.
#[derive(Clone, Copy, Debug, PartialEq, Eq, Structural)]
pub enum RenderCommand {
    SetPipeline { pipeline: PipelineId },
    SetBindGroup { index: u32, group: BindGroupId },
    /// Binds a whole buffer as the vertex buffer of a slot.
    SetVertexBuffer { slot: u32, buffer: BufferId },
    /// Binds a whole buffer as the index buffer.
    SetIndexBuffer { buffer: BufferId, format: IndexFormat },
    Draw { first_vertex: u32, end_vertex: u32, first_instance: u32, end_instance: u32 },
    DrawIndexed {
        first_index: u32,
        end_index: u32,
        base_vertex: i32,
        first_instance: u32,
        end_instance: u32,
    },
}

/// What happens to an attachment when a pass begins: it is cleared to a value
/// or kept. A depth value is given as the bit pattern of a single-precision
/// number, a stencil value as it is.
#[derive(Clone, Copy, Debug, PartialEq, Eq, Structural)]
pub enum LoadOp {
    Clear(u32),
    Load,
}

/// What happens to an attachment when a pass begins and when it ends.
#[derive(Clone, Copy, Debug, PartialEq, Eq, Structural)]
pub struct Operations {
    pub load: LoadOp,
    pub store: bool,
}

/// A colour attachment, cleared to a colour given as the bit patterns of four
/// double-precision numbers (red, green, blue, alpha), or kept.
#[derive(Clone, Copy, Debug, PartialEq, Eq)]
pub struct ColorAttachment {
    pub view: TextureViewId,
    pub clear: Option<[u64; 4]>,
    pub store: bool,
}

/// The depth attachment of a pass.
#[derive(Clone, Copy, Debug, PartialEq, Eq, Structural)]
pub struct DepthStencilAttachment {
    pub view: TextureViewId,
    pub depth_ops: Option<Operations>,
    pub stencil_ops: Option<Operations>,
}

/// The attachments that a render pass begins with.
#[derive(Clone, Debug, PartialEq, Eq)]
pub struct RenderPassDescriptor {
    pub label: &'static str,
    pub color_attachments: Vec<ColorAttachment>,
    pub depth_stencil_attachment: Option<DepthStencilAttachment>,
}

/// A pipeline can be used in a pass: the fragment stage writes as many
/// targets as the pass has colour attachments, and the pipeline tests depth
/// exactly when the pass has a depth attachment.
pub open spec fn pass_fits_pipeline(
    pass: RenderPassDescriptor,
    pipeline: RenderPipelineDescriptor,
) -> bool {
    &&& pass.color_attachments@.len() == (match pipeline.fragment {
        Some(fragment) => fragment.targets@.len(),
        None => 0,
    })
    &&& pass.depth_stencil_attachment is Some <==> pipeline.depth_stencil is Some
}

impl RenderPassDescriptor {
    /// Whether `pipeline` can be used in a pass that begins with `self`.
    pub fn fits(&self, pipeline: &RenderPipelineDescriptor) -> (ok: bool)
        ensures
            ok == pass_fits_pipeline(*self, *pipeline),
    {
        let targets = match &pipeline.fragment {
            Some(fragment) => fragment.targets.len(),
            None => 0,
        };
        self.color_attachments.len() == targets && self.depth_stencil_attachment.is_some()
            == pipeline.depth_stencil.is_some()
    }
}

/// A render pass under recording. Its view is the sequence of commands
/// recorded so far.
#[derive(Clone, Debug, PartialEq, Eq)]
pub struct RenderPass {
    pub commands: Vec<RenderCommand>,
}

impl View for RenderPass {
    type V = Seq<RenderCommand>;

    open spec fn view(&self) -> Seq<RenderCommand> {
        self.commands@
    }
}

impl RenderPass {
    /// A pass without commands.
    pub fn new() -> (pass: RenderPass)
        ensures
            pass@ == Seq::<RenderCommand>::empty(),
    {
        RenderPass { commands: Vec::new() }
    }

    pub fn set_pipeline(&mut self, pipeline: PipelineId)
        ensures
            final(self)@ == old(self)@.push(RenderCommand::SetPipeline { pipeline }),
    {
        self.commands.push(RenderCommand::SetPipeline { pipeline });
    }

    pub fn set_bind_group(&mut self, index: u32, group: BindGroupId)
        ensures
            final(self)@ == old(self)@.push(RenderCommand::SetBindGroup { index, group }),
    {
        self.commands.push(RenderCommand::SetBindGroup { index, group });
    }

    pub fn set_vertex_buffer(&mut self, slot: u32, buffer: BufferId)
        ensures
            final(self)@ == old(self)@.push(RenderCommand::SetVertexBuffer { slot, buffer }),
    {
        self.commands.push(RenderCommand::SetVertexBuffer { slot, buffer });
    }

    pub fn set_index_buffer(&mut self, buffer: BufferId, format: IndexFormat)
        ensures
            final(self)@ == old(self)@.push(RenderCommand::SetIndexBuffer { buffer, format }),
    {
        self.commands.push(RenderCommand::SetIndexBuffer { buffer, format });
    }

    pub fn draw(&mut self, vertices: Range<u32>, instances: Range<u32>)
        ensures
            final(self)@ == old(self)@.push(
                RenderCommand::Draw {
                    first_vertex: vertices.start,
                    end_vertex: vertices.end,
                    first_instance: instances.start,
                    end_instance: instances.end,
                },
            ),
    {
        self.commands.push(
            RenderCommand::Draw {
                first_vertex: vertices.start,
                end_vertex: vertices.end,
                first_instance: instances.start,
                end_instance: instances.end,
            },
        );
    }

    pub fn draw_indexed(&mut self, indices: Range<u32>, base_vertex: i32, instances: Range<u32>)
        ensures
            final(self)@ == old(self)@.push(
                RenderCommand::DrawIndexed {
                    first_index: indices.start,
                    end_index: indices.end,
                    base_vertex,
                    first_instance: instances.start,
                    end_instance: instances.end,
                },
            ),
    {
        self.commands.push(
            RenderCommand::DrawIndexed {
                first_index: indices.start,
                end_index: indices.end,
                base_vertex,
                first_instance: instances.start,
                end_instance: instances.end,
            },
        );
    }
}

/// A render pass as it was recorded: how it began and what it did.
#[derive(Clone, Debug, PartialEq, Eq)]
pub struct RecordedPass {
    pub descriptor: RenderPassDescriptor,
    pub commands: Vec<RenderCommand>,
}

/// The passes of one frame, in the order in which they were recorded.
#[derive(Clone, Debug, PartialEq, Eq)]
pub struct CommandEncoder {
    pub passes: Vec<RecordedPass>,
}

impl View for CommandEncoder {
    type V = Seq<RecordedPass>;

    open spec fn view(&self) -> Seq<RecordedPass> {
        self.passes@
    }
}

impl CommandEncoder {
    /// An encoder without passes.
    pub fn new() -> (encoder: CommandEncoder)
        ensures
            encoder@ == Seq::<RecordedPass>::empty(),
    {
        CommandEncoder { passes: Vec::new() }
    }

    /// Ends a pass that began with `descriptor` and appends it to the frame.
    pub fn finish_pass(&mut self, descriptor: RenderPassDescriptor, pass: RenderPass)
        ensures
            final(self)@ == old(self)@.push(RecordedPass { descriptor, commands: pass.commands }),
    {
        self.passes.push(RecordedPass { descriptor, commands: pass.commands });
    }
}

} // verus!
