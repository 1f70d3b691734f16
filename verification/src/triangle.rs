//! A single coloured triangle, drawn with the camera and the light bound.

use vstd::prelude::*;
use crate::binding::{BindGroupLayoutDescriptor, BufferInitDescriptor, BufferUsages};
use crate::bytes::{cast_u32_slice, is_image_u32};
use crate::model::{BindGroupId, BufferId, PipelineId};
use crate::pass::{RenderCommand, RenderPass};
use crate::pipeline::{
    replaced_target, single_sample, solid_triangles, BlendState, ColorTargetState, ColorWrites,
    FragmentState, MultisampleState, PipelineLayoutDescriptor, PrimitiveState,
    RenderPipelineDescriptor, SurfaceConfiguration, VertexState,
};
use crate::vertex::{
    fetched, tightly_packed, VertexAttribute, VertexBufferLayout, VertexFormat, VertexStepMode,
    ONE, ZERO,
};

verus! {

/// A vertex of the triangle: position and colour, each component a 32-bit
/// pattern.
#[derive(Clone, Copy, Debug, PartialEq, Eq)]
pub struct Vertex {
    pub position: [u32; 3],
    pub color: [u32; 3],
}

/// The attributes of a `Vertex`: position at byte 0, colour at byte 12.
pub open spec fn vertex_attributes() -> Seq<VertexAttribute> {
    seq![
        VertexAttribute { format: VertexFormat::Float32x3, offset: 0, shader_location: 0 },
        VertexAttribute { format: VertexFormat::Float32x3, offset: 12, shader_location: 1 },
    ]
}

impl Vertex {
    /// The layout of a buffer of such vertices: 24 bytes from one vertex to
    /// the next, advanced per vertex, two attributes that tile the stride.
    pub fn desc() -> (layout: VertexBufferLayout)
        ensures
            layout.array_stride == 24,
            layout.step_mode == VertexStepMode::Vertex,
            layout.attributes@ == vertex_attributes(),
            layout.wf(),
    {
        let attributes = vec![
            VertexAttribute { format: VertexFormat::Float32x3, offset: 0, shader_location: 0 },
            VertexAttribute { format: VertexFormat::Float32x3, offset: 12, shader_location: 1 },
        ];
        proof {
            let a = attributes@;
            assert(a =~= vertex_attributes());
            reveal_with_fuel(tightly_packed, 3);
            assert(a.drop_last().drop_last().len() == 0);
            assert(tightly_packed(a, 0, 24));
        }
        VertexBufferLayout { array_stride: 24, step_mode: VertexStepMode::Vertex, attributes }
    }
}

/// The bit pattern of the single-precision number 0.5.
pub const HALF: u32 = 0x3F00_0000;

/// The bit pattern of the single-precision number -0.5.
pub const MINUS_HALF: u32 = 0xBF00_0000;

/// The corners of the triangle before it is moved: the top at (0, 0.5, 0),
/// then the lower left at (-0.5, -0.5, 0) and the lower right at
/// (0.5, -0.5, 0), counter-clockwise.
pub open spec fn base_positions() -> [[u32; 3]; 3] {
    [[ZERO, HALF, ZERO], [MINUS_HALF, MINUS_HALF, ZERO], [HALF, MINUS_HALF, ZERO]]
}

/// The corners of the triangle before it is moved. A triangle elsewhere has
/// the same number added to every coordinate of every corner.
pub fn base_corners() -> (positions: [[u32; 3]; 3])
    ensures
        positions == base_positions(),
        positions[0]@ == seq![ZERO, HALF, ZERO],
        positions[1]@ == seq![MINUS_HALF, MINUS_HALF, ZERO],
        positions[2]@ == seq![HALF, MINUS_HALF, ZERO],
{
    let positions: [[u32; 3]; 3] = [
        [ZERO, HALF, ZERO],
        [MINUS_HALF, MINUS_HALF, ZERO],
        [HALF, MINUS_HALF, ZERO],
    ];
    proof {
        assert(positions[0] =~= base_positions()[0]);
        assert(positions[1] =~= base_positions()[1]);
        assert(positions[2] =~= base_positions()[2]);
        assert(positions =~= base_positions());
        assert(positions[0]@ =~= seq![ZERO, HALF, ZERO]);
        assert(positions[1]@ =~= seq![MINUS_HALF, MINUS_HALF, ZERO]);
        assert(positions[2]@ =~= seq![HALF, MINUS_HALF, ZERO]);
    }
    positions
}

/// The words of the triangle's vertex buffer: each corner's position followed
/// by its colour; the first corner red, the second green, the third blue.
pub open spec fn triangle_words(positions: [[u32; 3]; 3]) -> Seq<u32> {
    positions[0]@ + seq![ONE, ZERO, ZERO] + positions[1]@ + seq![ZERO, ONE, ZERO] + positions[2]@
        + seq![ZERO, ZERO, ONE]
}

/// The colour of corner `i`: red, green, blue.
pub open spec fn corner_color(i: int) -> Seq<u32> {
    if i == 0 {
        seq![ONE, ZERO, ZERO]
    } else if i == 1 {
        seq![ZERO, ONE, ZERO]
    } else {
        seq![ZERO, ZERO, ONE]
    }
}

/// What the buffer holds is what the vertex stage reads: fetching the
/// attributes of corner `i` through the layout of `Vertex::desc` gives its
/// position and its colour unchanged.
pub proof fn triangle_round_trip(positions: [[u32; 3]; 3], i: int)
    requires
        0 <= i < 3,
    ensures
        fetched(triangle_words(positions), 24, vertex_attributes()[0], i) == positions[i]@,
        fetched(triangle_words(positions), 24, vertex_attributes()[1], i) == corner_color(i),
{
    let buffer = triangle_words(positions);
    assert(buffer.len() == 18);
    assert((i * 24 + 0) / 4 == 6 * i);
    assert((i * 24 + 12) / 4 == 6 * i + 3);
    assert(fetched(buffer, 24, vertex_attributes()[0], i) =~= positions[i]@);
    assert(fetched(buffer, 24, vertex_attributes()[1], i) =~= corner_color(i));
}

/// The names of the GPU objects that the application made for a triangle.
#[derive(Clone, Copy, Debug, PartialEq, Eq, Structural)]
pub struct TriangleHandles {
    pub pipeline: PipelineId,
    pub vertex_buffer: BufferId,
}

/// The commands that draw the triangle: bind pipeline, the vertex buffer in
/// slot 0, the camera at index 0 and the light at index 1, then draw three
/// vertices once.
pub open spec fn triangle_commands(
    handles: TriangleHandles,
    camera: BindGroupId,
    light: BindGroupId,
) -> Seq<RenderCommand> {
    seq![
        RenderCommand::SetPipeline { pipeline: handles.pipeline },
        RenderCommand::SetVertexBuffer { slot: 0, buffer: handles.vertex_buffer },
        RenderCommand::SetBindGroup { index: 0, group: camera },
        RenderCommand::SetBindGroup { index: 1, group: light },
        RenderCommand::Draw { first_vertex: 0, end_vertex: 3, first_instance: 0, end_instance: 1 },
    ]
}

/// Everything the triangle is made of.
#[derive(Clone, Debug, PartialEq, Eq)]
pub struct Triangle {
    pub pipeline: RenderPipelineDescriptor,
    pub vertex_buffer: BufferInitDescriptor,
}

impl Triangle {
    /// `self` is the triangle with corners at `positions`, drawn onto a
    /// surface of format `config.format` by the given shaders, with the
    /// camera's layout at bind group index 0 and the light's at index 1.
    pub open spec fn describes(
        &self,
        positions: [[u32; 3]; 3],
        config: SurfaceConfiguration,
        vert_shader: &str,
        frag_shader: &str,
        camera_bind_layout: BindGroupLayoutDescriptor,
        light_bind_layout: BindGroupLayoutDescriptor,
    ) -> bool {
        let p = self.pipeline;
        &&& p.label@ == "triangle pipeline"@
        &&& p.layout.label@ == "triangle pipeline layout"@
        &&& p.layout.bind_group_layouts@ == seq![camera_bind_layout, light_bind_layout]
        &&& p.vertex.shader@ == vert_shader@
        &&& p.vertex.entry_point@ == "main"@
        &&& p.vertex.buffers@.len() == 1
        &&& p.vertex.buffers@[0].array_stride == 24
        &&& p.vertex.buffers@[0].step_mode == VertexStepMode::Vertex
        &&& p.vertex.buffers@[0].attributes@ == vertex_attributes()
        &&& p.vertex.buffers@[0].wf()
        &&& p.fragment matches Some(fragment) && {
            &&& fragment.shader@ == frag_shader@
            &&& fragment.entry_point@ == "main"@
            &&& fragment.targets@ == seq![replaced_target(config.format)]
        }
        &&& p.primitive == solid_triangles()
        &&& p.depth_stencil is None
        &&& p.multisample == single_sample()
        &&& self.vertex_buffer.label@ == "Vertex Buffer"@
        &&& self.vertex_buffer.usage == (BufferUsages {
            copy_dst: false,
            index: false,
            vertex: true,
            uniform: false,
        })
        &&& is_image_u32(self.vertex_buffer.contents@, triangle_words(positions))
    }

    /// The triangle with corners at `positions`.
    pub fn new(
        positions: [[u32; 3]; 3],
        config: &SurfaceConfiguration,
        vert_shader: &'static str,
        frag_shader: &'static str,
        camera_bind_layout: BindGroupLayoutDescriptor,
        light_bind_layout: BindGroupLayoutDescriptor,
    ) -> (triangle: Triangle)
        ensures
            triangle.describes(
                positions,
                *config,
                vert_shader,
                frag_shader,
                camera_bind_layout,
                light_bind_layout,
            ),
    {
        let layouts = vec![camera_bind_layout, light_bind_layout];
        assert(layouts@ =~= seq![camera_bind_layout, light_bind_layout]);
        let target = ColorTargetState {
            format: config.format,
            blend: Some(BlendState::replace()),
            write_mask: ColorWrites { red: true, green: true, blue: true, alpha: true },
        };
        let targets = vec![target];
        assert(targets@ =~= seq![replaced_target(config.format)]);
        let pipeline = RenderPipelineDescriptor {
            label: "triangle pipeline",
            layout: PipelineLayoutDescriptor {
                label: "triangle pipeline layout",
                bind_group_layouts: layouts,
            },
            vertex: VertexState {
                shader: vert_shader,
                entry_point: "main",
                buffers: vec![Vertex::desc()],
            },
            fragment: Some(
                FragmentState { shader: frag_shader, entry_point: "main", targets },
            ),
            primitive: PrimitiveState::triangles(),
            depth_stencil: None,
            multisample: MultisampleState::single(),
        };
        let a = positions[0];
        let b = positions[1];
        let c = positions[2];
        let words = vec![
            a[0],
            a[1],
            a[2],
            ONE,
            ZERO,
            ZERO,
            b[0],
            b[1],
            b[2],
            ZERO,
            ONE,
            ZERO,
            c[0],
            c[1],
            c[2],
            ZERO,
            ZERO,
            ONE,
        ];
        assert(words@ =~= triangle_words(positions));
        let vertex_buffer = BufferInitDescriptor {
            label: "Vertex Buffer",
            contents: cast_u32_slice(words.as_slice()),
            usage: BufferUsages { copy_dst: false, index: false, vertex: true, uniform: false },
        };
        Triangle { pipeline, vertex_buffer }
    }

    /// Records the commands that draw the triangle.
    pub fn render(
        &self,
        render_pass: &mut RenderPass,
        handles: &TriangleHandles,
        camera_bind_group: BindGroupId,
        dir_light_bind_group: BindGroupId,
    )
        ensures
            final(render_pass)@ == old(render_pass)@ + triangle_commands(
                *handles,
                camera_bind_group,
                dir_light_bind_group,
            ),
    {
        render_pass.set_pipeline(handles.pipeline);
        render_pass.set_vertex_buffer(0, handles.vertex_buffer);
        render_pass.set_bind_group(0, camera_bind_group);
        render_pass.set_bind_group(1, dir_light_bind_group);
        render_pass.draw(0..3, 0..1);
        assert(render_pass@ =~= old(render_pass)@ + triangle_commands(
            *handles,
            camera_bind_group,
            dir_light_bind_group,
        ));
    }
}

} // verus!
