//! The depth pass: a depth texture, the unit quad that samples it, and the
//! render pass that draws the quad into the depth buffer.

use vstd::prelude::*;
use crate::binding::{
    group_matches, BindGroupDescriptor, BindGroupEntry, BindGroupLayoutDescriptor,
    BindGroupLayoutEntry, BindingResource, BindingType, BufferInitDescriptor, BufferUsages,
    ShaderStages, TextureSampleType, TextureViewDimension,
};
use crate::bytes::{cast_u16_slice, cast_u32_slice, is_image_u16, is_image_u32};
use crate::model::{
    pack_vertices, packed, BindGroupId, BufferId, ModelVertex, PipelineId, TextureViewId,
};
use crate::pass::{
    pass_fits_pipeline, CommandEncoder, DepthStencilAttachment, LoadOp, Operations,
    RenderCommand, RenderPass, RenderPassDescriptor,
};
use crate::pipeline::{
    reads_model_vertices, single_sample, solid_triangles, CompareFunction, ConfigError,
    DepthBiasState, DepthStencilState, IndexFormat, MultisampleState, PipelineLayoutDescriptor,
    PrimitiveState, RenderPipelineDescriptor, SurfaceConfiguration, TextureFormat, VertexState,
};
use crate::texture::Texture;
use crate::vertex::{ONE, ZERO};

verus! {

/// A corner of the unit quad: position `(x, y, 0)`, texture coordinates
/// `(u, v)`, no normal.
pub open spec fn corner(x: u32, y: u32, u: u32, v: u32) -> ModelVertex {
    ModelVertex { position: [x, y, ZERO], tex_coords: [u, v], normal: [ZERO, ZERO, ZERO] }
}

/// The four corners of the unit quad, counter-clockwise from the origin, with
/// the texture's top row at `y = 1`.
pub open spec fn quad_vertices() -> Seq<ModelVertex> {
    seq![
        corner(ZERO, ZERO, ZERO, ONE),
        corner(ONE, ZERO, ONE, ONE),
        corner(ONE, ONE, ONE, ZERO),
        corner(ZERO, ONE, ZERO, ZERO),
    ]
}

/// The two triangles of the quad, as a fan around corner 0.
pub open spec fn quad_indices() -> Seq<u16> {
    seq![0u16, 1u16, 2u16, 0u16, 2u16, 3u16]
}

/// Some index refers to the vertex at position `vertex`.
pub open spec fn is_referenced(indices: Seq<u16>, vertex: int) -> bool {
    exists|i: int| 0 <= i < indices.len() && #[trigger] indices[i] == vertex
}

/// The indices draw two triangles, refer to corners of the quad only, and
/// leave no corner out.
pub proof fn quad_indices_cover_quad()
    ensures
        quad_indices().len() == 2 * 3,
        quad_vertices().len() == 4,
        forall|i: int|
            0 <= i < quad_indices().len() ==> (#[trigger] quad_indices()[i]) < quad_vertices().len(),
        forall|v: int|
            0 <= v < quad_vertices().len() ==> #[trigger] is_referenced(quad_indices(), v),
{
    assert(quad_indices()[0] == 0);
    assert(quad_indices()[1] == 1);
    assert(quad_indices()[2] == 2);
    assert(quad_indices()[5] == 3);
}

/// The corners of the unit quad.
pub fn depth_vertices() -> (vertices: Vec<ModelVertex>)
    ensures
        vertices@ == quad_vertices(),
{
    let none: [u32; 3] = [ZERO, ZERO, ZERO];
    let vertices = vec![
        ModelVertex { position: [ZERO, ZERO, ZERO], tex_coords: [ZERO, ONE], normal: none },
        ModelVertex { position: [ONE, ZERO, ZERO], tex_coords: [ONE, ONE], normal: none },
        ModelVertex { position: [ONE, ONE, ZERO], tex_coords: [ONE, ZERO], normal: none },
        ModelVertex { position: [ZERO, ONE, ZERO], tex_coords: [ZERO, ZERO], normal: none },
    ];
    proof {
        assert forall|i: int| 0 <= i < 4 implies vertices@[i] == quad_vertices()[i] by {
            let a = vertices@[i];
            let b = quad_vertices()[i];
            assert(a.position =~= b.position);
            assert(a.tex_coords =~= b.tex_coords);
            assert(a.normal =~= b.normal);
        }
        assert(vertices@ =~= quad_vertices());
    }
    vertices
}

/// The indices of the quad's two triangles.
pub fn depth_indices() -> (indices: Vec<u16>)
    ensures
        indices@ == quad_indices(),
{
    let indices: Vec<u16> = vec![0, 1, 2, 0, 2, 3];
    assert(indices@ =~= quad_indices());
    indices
}

/// The slot for the depth texture: binding 0, read by the fragment stage as a
/// two-dimensional depth texture with one sample per pixel.
pub open spec fn depth_texture_entry() -> BindGroupLayoutEntry {
    BindGroupLayoutEntry {
        binding: 0,
        visibility: ShaderStages { vertex: false, fragment: true, compute: false },
        ty: BindingType::Texture {
            sample_type: TextureSampleType::Depth,
            view_dimension: TextureViewDimension::D2,
            multisampled: false,
        },
        count: None,
    }
}

/// The slot for the sampler: binding 1, read by the fragment stage as a
/// filtering comparison sampler.
pub open spec fn depth_sampler_entry() -> BindGroupLayoutEntry {
    BindGroupLayoutEntry {
        binding: 1,
        visibility: ShaderStages { vertex: false, fragment: true, compute: false },
        ty: BindingType::Sampler { filtering: true, comparison: true },
        count: None,
    }
}

/// Depth test of the depth pass: passes on less-or-equal, writes depth, and
/// biases by the constant 2 and the slope scale 2 without clamp.
pub open spec fn depth_pass_depth_state() -> DepthStencilState {
    DepthStencilState {
        format: TextureFormat::Depth32Float,
        depth_write_enabled: true,
        depth_compare: CompareFunction::LessEqual,
        bias: DepthBiasState { constant: 2, slope_scale: 2, clamp: 0 },
    }
}

/// The names of the GPU objects that the application made for a depth pass.
#[derive(Clone, Copy, Debug, PartialEq, Eq, Structural)]
pub struct DepthPassHandles {
    pub view: TextureViewId,
    pub bind_group: BindGroupId,
    pub vertex_buffer: BufferId,
    pub index_buffer: BufferId,
    pub pipeline: PipelineId,
}

/// The commands of the depth pass: bind pipeline, bind group 0, the quad's
/// vertex buffer in slot 0 and its 16-bit index buffer, then draw all six
/// indices once.
pub open spec fn depth_pass_commands(handles: DepthPassHandles) -> Seq<RenderCommand> {
    seq![
        RenderCommand::SetPipeline { pipeline: handles.pipeline },
        RenderCommand::SetBindGroup { index: 0, group: handles.bind_group },
        RenderCommand::SetVertexBuffer { slot: 0, buffer: handles.vertex_buffer },
        RenderCommand::SetIndexBuffer { buffer: handles.index_buffer, format: IndexFormat::Uint16 },
        RenderCommand::DrawIndexed {
            first_index: 0,
            end_index: 6,
            base_vertex: 0,
            first_instance: 0,
            end_instance: 1,
        },
    ]
}

/// The depth attachment of the depth pass: cleared to 1, the far plane, and
/// stored; no stencil.
pub open spec fn depth_pass_attachment(view: TextureViewId) -> DepthStencilAttachment {
    DepthStencilAttachment {
        view,
        depth_ops: Some(Operations { load: LoadOp::Clear(ONE), store: true }),
        stencil_ops: None,
    }
}

/// Everything the depth pass is made of.
#[derive(Clone, Debug, PartialEq, Eq)]
pub struct DepthPass {
    pub texture: Texture,
    pub layout: BindGroupLayoutDescriptor,
    pub bind_group: BindGroupDescriptor,
    pub vertex_buffer: BufferInitDescriptor,
    pub index_buffer: BufferInitDescriptor,
    pub render_pipeline: RenderPipelineDescriptor,
}

impl DepthPass {
    /// The bind group layout has the texture slot and the sampler slot.
    pub open spec fn layout_wf(&self) -> bool {
        &&& self.layout.label@ == "Depth Pass Layout"@
        &&& self.layout.entries@ == seq![depth_texture_entry(), depth_sampler_entry()]
        &&& self.layout.wf()
    }

    /// The bind group binds the texture's view and its sampler, as the layout
    /// asks.
    pub open spec fn bind_group_wf(&self) -> bool {
        &&& self.bind_group.label@ == "depth_pass.bind_group"@
        &&& self.bind_group.entries@ == seq![
            (BindGroupEntry { binding: 0, resource: BindingResource::TextureView }),
            (BindGroupEntry { binding: 1, resource: BindingResource::Sampler }),
        ]
        &&& group_matches(self.layout.entries@, self.bind_group.entries@)
    }

    /// The buffers hold the unit quad: its packed corners as a vertex buffer,
    /// its six indices as an index buffer.
    pub open spec fn buffers_wf(&self) -> bool {
        &&& self.vertex_buffer.label@ == "depth_pass.vertex_buffer"@
        &&& self.vertex_buffer.usage == (BufferUsages {
            copy_dst: false,
            index: false,
            vertex: true,
            uniform: false,
        })
        &&& is_image_u32(self.vertex_buffer.contents@, packed(quad_vertices()))
        &&& self.index_buffer.label@ == "depth_pass.index_buffer"@
        &&& self.index_buffer.usage == (BufferUsages {
            copy_dst: false,
            index: true,
            vertex: false,
            uniform: false,
        })
        &&& is_image_u16(self.index_buffer.contents@, quad_indices())
    }

    /// The pipeline runs `main` of `depth.vert.spv` on `ModelVertex` data
    /// without a fragment stage, against the pass's one bind group layout,
    /// with the depth test and bias of the depth pass.
    pub open spec fn pipeline_wf(&self) -> bool {
        let p = self.render_pipeline;
        &&& p.label@ == "depth_pass.render_pipeline"@
        &&& p.layout.label@ == "depth_pass.pipeline_layout"@
        &&& p.layout.bind_group_layouts@.len() == 1
        &&& p.layout.bind_group_layouts@[0].label@ == self.layout.label@
        &&& p.layout.bind_group_layouts@[0].entries@ == self.layout.entries@
        &&& p.vertex.shader@ == "depth.vert.spv"@
        &&& p.vertex.entry_point@ == "main"@
        &&& reads_model_vertices(p.vertex.buffers@)
        &&& p.fragment is None
        &&& p.primitive == solid_triangles()
        &&& p.depth_stencil == Some(depth_pass_depth_state())
        &&& p.multisample == single_sample()
    }

    /// `self` is the depth pass of a surface with configuration `config`.
    pub open spec fn describes(&self, config: SurfaceConfiguration) -> bool {
        &&& self.texture.is_depth_texture(config, "depth_texture")
        &&& self.layout_wf()
        &&& self.bind_group_wf()
        &&& self.buffers_wf()
        &&& self.pipeline_wf()
    }

    fn make_layout() -> (layout: BindGroupLayoutDescriptor)
        ensures
            layout.label@ == "Depth Pass Layout"@,
            layout.entries@ == seq![depth_texture_entry(), depth_sampler_entry()],
            layout.wf(),
    {
        let entries = vec![
            BindGroupLayoutEntry {
                binding: 0,
                visibility: ShaderStages::fragment(),
                ty: BindingType::Texture {
                    sample_type: TextureSampleType::Depth,
                    view_dimension: TextureViewDimension::D2,
                    multisampled: false,
                },
                count: None,
            },
            BindGroupLayoutEntry {
                binding: 1,
                visibility: ShaderStages::fragment(),
                ty: BindingType::Sampler { filtering: true, comparison: true },
                count: None,
            },
        ];
        assert(entries@ =~= seq![depth_texture_entry(), depth_sampler_entry()]);
        BindGroupLayoutDescriptor { label: "Depth Pass Layout", entries }
    }

    /// The depth pass for a surface, or the reason why the surface can have
    /// none: a surface without rows or without columns.
    pub fn new(config: &SurfaceConfiguration) -> (made: Result<DepthPass, ConfigError>)
        ensures
            made is Ok <==> config.wf(),
            made matches Ok(pass) ==> pass.describes(*config),
            made matches Err(e) ==> e == (if config.height == 0 {
                ConfigError::ZeroHeight
            } else {
                ConfigError::ZeroWidth
            }),
    {
        let texture = match Texture::create_depth_texture(config, "depth_texture") {
            Ok(texture) => texture,
            Err(e) => {
                return Err(e);
            },
        };
        let layout = Self::make_layout();
        let group_entries = vec![
            BindGroupEntry { binding: 0, resource: BindingResource::TextureView },
            BindGroupEntry { binding: 1, resource: BindingResource::Sampler },
        ];
        assert(group_entries@ =~= seq![
            (BindGroupEntry { binding: 0, resource: BindingResource::TextureView }),
            (BindGroupEntry { binding: 1, resource: BindingResource::Sampler }),
        ]);
        let bind_group = BindGroupDescriptor {
            label: "depth_pass.bind_group",
            entries: group_entries,
        };
        let words = pack_vertices(&depth_vertices());
        let vertex_buffer = BufferInitDescriptor {
            label: "depth_pass.vertex_buffer",
            contents: cast_u32_slice(words.as_slice()),
            usage: BufferUsages { copy_dst: false, index: false, vertex: true, uniform: false },
        };
        let indices = depth_indices();
        let index_buffer = BufferInitDescriptor {
            label: "depth_pass.index_buffer",
            contents: cast_u16_slice(indices.as_slice()),
            usage: BufferUsages { copy_dst: false, index: true, vertex: false, uniform: false },
        };
        let render_pipeline = RenderPipelineDescriptor {
            label: "depth_pass.render_pipeline",
            layout: PipelineLayoutDescriptor {
                label: "depth_pass.pipeline_layout",
                bind_group_layouts: vec![Self::make_layout()],
            },
            vertex: VertexState {
                shader: "depth.vert.spv",
                entry_point: "main",
                buffers: vec![ModelVertex::desc()],
            },
            fragment: None,
            primitive: PrimitiveState::triangles(),
            depth_stencil: Some(
                DepthStencilState {
                    format: crate::texture::DEPTH_FORMAT,
                    depth_write_enabled: true,
                    depth_compare: CompareFunction::LessEqual,
                    bias: DepthBiasState { constant: 2, slope_scale: 2, clamp: 0 },
                },
            ),
            multisample: MultisampleState::single(),
        };
        Ok(DepthPass { texture, layout, bind_group, vertex_buffer, index_buffer, render_pipeline })
    }

    /// Makes the depth texture anew for a surface that changed its size. On a
    /// surface without pixels nothing changes and the reason is returned.
    pub fn resize(&mut self, config: &SurfaceConfiguration) -> (done: Result<(), ConfigError>)
        ensures
            done is Ok <==> config.wf(),
            done is Ok ==> final(self).texture.is_depth_texture(*config, "depth_texture"),
            done is Err ==> final(self).texture == old(self).texture,
            done matches Err(e) ==> e == (if config.height == 0 {
                ConfigError::ZeroHeight
            } else {
                ConfigError::ZeroWidth
            }),
            final(self).layout == old(self).layout,
            final(self).bind_group == old(self).bind_group,
            final(self).vertex_buffer == old(self).vertex_buffer,
            final(self).index_buffer == old(self).index_buffer,
            final(self).render_pipeline == old(self).render_pipeline,
    {
        match Texture::create_depth_texture(config, "depth_texture") {
            Ok(texture) => {
                self.texture = texture;
                Ok(())
            },
            Err(e) => Err(e),
        }
    }

    /// Records the depth pass: a pass without colour attachments whose depth
    /// attachment is cleared to the far plane, in which the quad is drawn.
    pub fn render(&self, encoder: &mut CommandEncoder, handles: &DepthPassHandles)
        ensures
            final(encoder)@.len() == old(encoder)@.len() + 1,
            final(encoder)@.drop_last() == old(encoder)@,
            final(encoder)@.last().descriptor.label@ == "depth_pass.render_pass"@,
            final(encoder)@.last().descriptor.color_attachments@.len() == 0,
            final(encoder)@.last().descriptor.depth_stencil_attachment == Some(
                depth_pass_attachment(handles.view),
            ),
            final(encoder)@.last().commands@ == depth_pass_commands(*handles),
            self.pipeline_wf() ==> pass_fits_pipeline(
                final(encoder)@.last().descriptor,
                self.render_pipeline,
            ),
    {
        let descriptor = RenderPassDescriptor {
            label: "depth_pass.render_pass",
            color_attachments: Vec::new(),
            depth_stencil_attachment: Some(
                DepthStencilAttachment {
                    view: handles.view,
                    depth_ops: Some(Operations { load: LoadOp::Clear(ONE), store: true }),
                    stencil_ops: None,
                },
            ),
        };
        let mut render_pass = RenderPass::new();
        render_pass.set_pipeline(handles.pipeline);
        render_pass.set_bind_group(0, handles.bind_group);
        render_pass.set_vertex_buffer(0, handles.vertex_buffer);
        render_pass.set_index_buffer(handles.index_buffer, IndexFormat::Uint16);
        let count = depth_indices().len() as u32;
        render_pass.draw_indexed(0..count, 0, 0..1);
        assert(render_pass@ =~= depth_pass_commands(*handles));
        encoder.finish_pass(descriptor, render_pass);
        assert(encoder@.drop_last() =~= old(encoder)@);
    }
}

} // verus!
