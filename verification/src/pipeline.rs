//! Render pipeline state, and the one pipeline that draws opaque textured meshes.

use vstd::prelude::*;
use crate::binding::BindGroupLayoutDescriptor;
use crate::model::{model_vertex_attributes, ModelVertex};
use crate::vertex::{VertexBufferLayout, VertexStepMode};

verus! {

/// The texture formats that a surface or a depth buffer of this renderer has.
#[derive(Clone, Copy, Debug, PartialEq, Eq, Structural)]
pub enum TextureFormat {
    Rgba8Unorm,
    Rgba8UnormSrgb,
    Bgra8Unorm,
    Bgra8UnormSrgb,
    Depth32Float,
}

/// The part of a surface's configuration that the renderer depends on.
#[derive(Clone, Copy, Debug, PartialEq, Eq, Structural)]
pub struct SurfaceConfiguration {
    pub format: TextureFormat,
    pub width: u32,
    pub height: u32,
}

/// A configuration that no resource can be made for.
#[derive(Clone, Copy, Debug, PartialEq, Eq, Structural)]
pub enum ConfigError {
    /// The surface has no columns.
    ZeroWidth,
    /// The surface has no rows, so that it has no aspect ratio.
    ZeroHeight,
}

impl SurfaceConfiguration {
    /// A surface has at least one pixel.
    pub open spec fn wf(&self) -> bool {
        self.width > 0 && self.height > 0
    }

    /// Accepts a configuration with at least one pixel. A missing height is
    /// reported before a missing width.
    pub fn validate(&self) -> (checked: Result<(), ConfigError>)
        ensures
            checked is Ok <==> self.wf(),
            checked == Err::<(), ConfigError>(ConfigError::ZeroHeight) <==> self.height == 0,
            checked == Err::<(), ConfigError>(ConfigError::ZeroWidth) <==> self.height != 0
                && self.width == 0,
    {
        if self.height == 0 {
            Err(ConfigError::ZeroHeight)
        } else if self.width == 0 {
            Err(ConfigError::ZeroWidth)
        } else {
            Ok(())
        }
    }
}

#[derive(Clone, Copy, Debug, PartialEq, Eq, Structural)]
pub enum BlendFactor {
    Zero,
    One,
    Src,
    OneMinusSrc,
    SrcAlpha,
    OneMinusSrcAlpha,
    Dst,
    OneMinusDst,
    DstAlpha,
    OneMinusDstAlpha,
}

#[derive(Clone, Copy, Debug, PartialEq, Eq, Structural)]
pub enum BlendOperation {
    Add,
    Subtract,
    ReverseSubtract,
    Min,
    Max,
}

/// The blend equation of one channel group.
#[derive(Clone, Copy, Debug, PartialEq, Eq, Structural)]
pub struct BlendComponent {
    pub src_factor: BlendFactor,
    pub dst_factor: BlendFactor,
    pub operation: BlendOperation,
}

/// The blend equations of colour and alpha.
#[derive(Clone, Copy, Debug, PartialEq, Eq, Structural)]
pub struct BlendState {
    pub color: BlendComponent,
    pub alpha: BlendComponent,
}

/// The equation that overwrites the target with the source: one times the
/// source plus zero times the target.
pub open spec fn replace_component() -> BlendComponent {
    BlendComponent {
        src_factor: BlendFactor::One,
        dst_factor: BlendFactor::Zero,
        operation: BlendOperation::Add,
    }
}

impl BlendState {
    /// No blending: colour and alpha of the target are replaced.
    pub fn replace() -> (blend: BlendState)
        ensures
            blend == (BlendState { color: replace_component(), alpha: replace_component() }),
    {
        let component = BlendComponent {
            src_factor: BlendFactor::One,
            dst_factor: BlendFactor::Zero,
            operation: BlendOperation::Add,
        };
        BlendState { color: component, alpha: component }
    }
}

/// The channels that a pipeline writes.
#[derive(Clone, Copy, Debug, PartialEq, Eq, Structural)]
pub struct ColorWrites {
    pub red: bool,
    pub green: bool,
    pub blue: bool,
    pub alpha: bool,
}

/// One colour target of the fragment stage.
#[derive(Clone, Copy, Debug, PartialEq, Eq, Structural)]
pub struct ColorTargetState {
    pub format: TextureFormat,
    pub blend: Option<BlendState>,
    pub write_mask: ColorWrites,
}

#[derive(Clone, Copy, Debug, PartialEq, Eq, Structural)]
pub enum PrimitiveTopology {
    PointList,
    LineList,
    LineStrip,
    TriangleList,
    TriangleStrip,
}

#[derive(Clone, Copy, Debug, PartialEq, Eq, Structural)]
pub enum FrontFace {
    Ccw,
    Cw,
}

#[derive(Clone, Copy, Debug, PartialEq, Eq, Structural)]
pub enum Face {
    Front,
    Back,
}

#[derive(Clone, Copy, Debug, PartialEq, Eq, Structural)]
pub enum PolygonMode {
    Fill,
    Line,
    Point,
}

#[derive(Clone, Copy, Debug, PartialEq, Eq, Structural)]
pub enum IndexFormat {
    Uint16,
    Uint32,
}

/// Primitive assembly and rasterization.
#[derive(Clone, Copy, Debug, PartialEq, Eq, Structural)]
pub struct PrimitiveState {
    pub topology: PrimitiveTopology,
    pub strip_index_format: Option<IndexFormat>,
    pub front_face: FrontFace,
    pub cull_mode: Option<Face>,
    pub polygon_mode: PolygonMode,
    pub clamp_depth: bool,
    pub conservative: bool,
}

/// Filled triangle lists whose counter-clockwise side is the front, without
/// their back faces.
pub open spec fn solid_triangles() -> PrimitiveState {
    PrimitiveState {
        topology: PrimitiveTopology::TriangleList,
        strip_index_format: None,
        front_face: FrontFace::Ccw,
        cull_mode: Some(Face::Back),
        polygon_mode: PolygonMode::Fill,
        clamp_depth: false,
        conservative: false,
    }
}

impl PrimitiveState {
    /// The primitive state shared by every pipeline of this renderer.
    pub fn triangles() -> (state: PrimitiveState)
        ensures
            state == solid_triangles(),
    {
        PrimitiveState {
            topology: PrimitiveTopology::TriangleList,
            strip_index_format: None,
            front_face: FrontFace::Ccw,
            cull_mode: Some(Face::Back),
            polygon_mode: PolygonMode::Fill,
            clamp_depth: false,
            conservative: false,
        }
    }
}

#[derive(Clone, Copy, Debug, PartialEq, Eq, Structural)]
pub enum CompareFunction {
    Never,
    Less,
    Equal,
    LessEqual,
    Greater,
    NotEqual,
    GreaterEqual,
    Always,
}

/// Depth bias. Slope scale and clamp are whole numbers here; the GPU takes
/// them as single-precision numbers of the same value.
#[derive(Clone, Copy, Debug, PartialEq, Eq, Structural)]
pub struct DepthBiasState {
    pub constant: i32,
    pub slope_scale: i32,
    pub clamp: i32,
}

/// Depth test and depth write of a pipeline. The stencil test is always off.
#[derive(Clone, Copy, Debug, PartialEq, Eq, Structural)]
pub struct DepthStencilState {
    pub format: TextureFormat,
    pub depth_write_enabled: bool,
    pub depth_compare: CompareFunction,
    pub bias: DepthBiasState,
}

/// Samples per pixel and which of them are written.
#[derive(Clone, Copy, Debug, PartialEq, Eq, Structural)]
pub struct MultisampleState {
    pub count: u32,
    pub mask: u64,
    pub alpha_to_coverage_enabled: bool,
}

/// One sample per pixel, every sample written.
pub open spec fn single_sample() -> MultisampleState {
    MultisampleState { count: 1, mask: 0xFFFF_FFFF_FFFF_FFFF, alpha_to_coverage_enabled: false }
}

impl MultisampleState {
    /// No multisampling.
    pub fn single() -> (state: MultisampleState)
        ensures
            state == single_sample(),
    {
        MultisampleState { count: 1, mask: u64::MAX, alpha_to_coverage_enabled: false }
    }
}

/// The bind group layouts of a pipeline; the position of a layout is the index
/// at which a group made against it is set.
#[derive(Clone, Debug, PartialEq, Eq)]
pub struct PipelineLayoutDescriptor {
    pub label: &'static str,
    pub bind_group_layouts: Vec<BindGroupLayoutDescriptor>,
}

/// The vertex stage: the file of the compiled shader, its entry point and the
/// buffers it reads.
#[derive(Clone, Debug, PartialEq, Eq)]
pub struct VertexState {
    pub shader: &'static str,
    pub entry_point: &'static str,
    pub buffers: Vec<VertexBufferLayout>,
}

/// The fragment stage: the file of the compiled shader, its entry point and
/// the targets it writes.
#[derive(Clone, Debug, PartialEq, Eq)]
pub struct FragmentState {
    pub shader: &'static str,
    pub entry_point: &'static str,
    pub targets: Vec<ColorTargetState>,
}

/// Everything a render pipeline is created from.
#[derive(Clone, Debug, PartialEq, Eq)]
pub struct RenderPipelineDescriptor {
    pub label: &'static str,
    pub layout: PipelineLayoutDescriptor,
    pub vertex: VertexState,
    pub fragment: Option<FragmentState>,
    pub primitive: PrimitiveState,
    pub depth_stencil: Option<DepthStencilState>,
    pub multisample: MultisampleState,
}

/// The vertex stage reads one buffer of interleaved `ModelVertex` values.
pub open spec fn reads_model_vertices(buffers: Seq<VertexBufferLayout>) -> bool {
    &&& buffers.len() == 1
    &&& buffers[0].array_stride == 32
    &&& buffers[0].step_mode == VertexStepMode::Vertex
    &&& buffers[0].attributes@ == model_vertex_attributes()
    &&& buffers[0].wf()
}

/// A target of the given format that is overwritten in all four channels.
pub open spec fn replaced_target(format: TextureFormat) -> ColorTargetState {
    ColorTargetState {
        format,
        blend: Some(BlendState { color: replace_component(), alpha: replace_component() }),
        write_mask: ColorWrites { red: true, green: true, blue: true, alpha: true },
    }
}

/// The pipeline that draws opaque textured meshes onto the surface.
///
/// The vertex stage runs `main` of `opaque.vert.spv` on one buffer of
/// `ModelVertex`; the fragment stage runs `main` of `opaque.frag.spv` and
/// replaces the surface's pixels in all channels. Triangles are filled, with
/// counter-clockwise front and without back faces. There is no depth test and
/// no multisampling. The bind group layouts are those given, in their order.
pub fn opaque_render_pipeline(
    config: &SurfaceConfiguration,
    layouts: Vec<BindGroupLayoutDescriptor>,
) -> (pipeline: RenderPipelineDescriptor)
    ensures
        pipeline.label@ == "Render Pipeline"@,
        pipeline.layout.label@ == "Render Pipeline Layout"@,
        pipeline.layout.bind_group_layouts == layouts,
        pipeline.vertex.shader@ == "opaque.vert.spv"@,
        pipeline.vertex.entry_point@ == "main"@,
        reads_model_vertices(pipeline.vertex.buffers@),
        pipeline.fragment matches Some(fragment) && {
            &&& fragment.shader@ == "opaque.frag.spv"@
            &&& fragment.entry_point@ == "main"@
            &&& fragment.targets@ == seq![replaced_target(config.format)]
        },
        pipeline.primitive == solid_triangles(),
        pipeline.depth_stencil is None,
        pipeline.multisample == single_sample(),
{
    let target = ColorTargetState {
        format: config.format,
        blend: Some(BlendState::replace()),
        write_mask: ColorWrites { red: true, green: true, blue: true, alpha: true },
    };
    RenderPipelineDescriptor {
        label: "Render Pipeline",
        layout: PipelineLayoutDescriptor {
            label: "Render Pipeline Layout",
            bind_group_layouts: layouts,
        },
        vertex: VertexState {
            shader: "opaque.vert.spv",
            entry_point: "main",
            buffers: vec![ModelVertex::desc()],
        },
        fragment: Some(
            FragmentState {
                shader: "opaque.frag.spv",
                entry_point: "main",
                targets: vec![target],
            },
        ),
        primitive: PrimitiveState::triangles(),
        depth_stencil: None,
        multisample: MultisampleState::single(),
    }
}

} // verus!
