use render_core::binding::{
    BindGroupDescriptor, BindGroupEntry, BindGroupLayoutDescriptor, BindGroupLayoutEntry,
    BindingResource, BindingType, BufferBindingType, ShaderStages, TextureSampleType,
    TextureViewDimension,
};
use render_core::depthpass::{DepthPass, DepthPassHandles};
use render_core::model::{BindGroupId, BufferId, ModelVertex, PipelineId, TextureViewId};
use render_core::pass::{
    CommandEncoder, DepthStencilAttachment, LoadOp, Operations, RenderCommand, RenderPass,
    RenderPassDescriptor,
};
use render_core::pipeline::{
    opaque_render_pipeline, BlendComponent, BlendFactor, BlendOperation, BlendState,
    ColorTargetState, ColorWrites, CompareFunction, ConfigError, DepthBiasState,
    DepthStencilState, Face, FrontFace, IndexFormat, MultisampleState, PolygonMode,
    PrimitiveState, PrimitiveTopology, SurfaceConfiguration, TextureFormat,
};
use render_core::texture::{Texture, TextureUsages, DEPTH_FORMAT};
use render_core::triangle::{base_corners, Triangle, TriangleHandles, Vertex, HALF, MINUS_HALF};
use render_core::vertex::{VertexAttribute, VertexFormat, VertexStepMode};

fn surface(width: u32, height: u32) -> SurfaceConfiguration {
    SurfaceConfiguration { format: TextureFormat::Bgra8UnormSrgb, width, height }
}

fn uniform_entry() -> BindGroupLayoutEntry {
    BindGroupLayoutEntry {
        binding: 0,
        visibility: ShaderStages { vertex: true, fragment: true, compute: false },
        ty: BindingType::Buffer {
            ty: BufferBindingType::Uniform,
            has_dynamic_offset: false,
            min_binding_size: None,
        },
        count: None,
    }
}

fn solid() -> PrimitiveState {
    PrimitiveState {
        topology: PrimitiveTopology::TriangleList,
        strip_index_format: None,
        front_face: FrontFace::Ccw,
        cull_mode: Some(Face::Back),
        polygon_mode: PolygonMode::Fill,
        clamp_depth: false,
        conservative: false,
    }
}

fn replace() -> BlendState {
    let component = BlendComponent {
        src_factor: BlendFactor::One,
        dst_factor: BlendFactor::Zero,
        operation: BlendOperation::Add,
    };
    BlendState { color: component, alpha: component }
}

#[test]
fn shader_stage_sets() {
    assert_eq!(
        ShaderStages::vertex_fragment(),
        ShaderStages { vertex: true, fragment: true, compute: false }
    );
    assert_eq!(ShaderStages::fragment(), ShaderStages { vertex: false, fragment: true, compute: false });
}

#[test]
fn uniform_layout_has_one_slot_for_both_stages() {
    let layout = BindGroupLayoutDescriptor::uniform("some layout");
    assert_eq!(layout.label, "some layout");
    assert_eq!(layout.entries, vec![uniform_entry()]);
    assert!(layout.is_wf());
    let group = BindGroupDescriptor::uniform("some group");
    assert_eq!(group.label, "some group");
    assert_eq!(group.entries, vec![BindGroupEntry { binding: 0, resource: BindingResource::Buffer }]);
    assert!(layout.accepts(&group));
}

#[test]
fn layout_with_a_repeated_binding_is_not_well_formed() {
    let mut layout = BindGroupLayoutDescriptor::uniform("twice");
    layout.entries.push(BindGroupLayoutEntry { binding: 1, ..uniform_entry() });
    assert!(layout.is_wf());
    layout.entries.push(BindGroupLayoutEntry { binding: 0, ..uniform_entry() });
    assert!(!layout.is_wf());
    let none = BindGroupLayoutDescriptor { label: "none", entries: vec![] };
    assert!(none.is_wf());
}

#[test]
fn layout_accepts_only_groups_that_fill_it() {
    let layout = Texture::bind_group_layout();
    let group = |entries: Vec<BindGroupEntry>| BindGroupDescriptor { label: "g", entries };
    let view = BindGroupEntry { binding: 0, resource: BindingResource::TextureView };
    let sampler = BindGroupEntry { binding: 1, resource: BindingResource::Sampler };
    assert!(layout.accepts(&group(vec![view, sampler])));
    assert!(!layout.accepts(&group(vec![view])));
    assert!(!layout.accepts(&group(vec![sampler, view])));
    assert!(!layout.accepts(&group(vec![view, BindGroupEntry { binding: 2, ..sampler }])));
    assert!(!layout.accepts(&group(vec![
        view,
        BindGroupEntry { binding: 1, resource: BindingResource::Buffer }
    ])));
    assert!(!layout.accepts(&group(vec![
        BindGroupEntry { binding: 0, resource: BindingResource::Sampler },
        sampler
    ])));
    assert!(!layout.accepts(&group(vec![view, sampler, sampler])));
    assert!(!BindGroupLayoutDescriptor::uniform("u").accepts(&group(vec![view])));
}

#[test]
fn material_layout_is_texture_and_sampler() {
    let layout = Texture::bind_group_layout();
    assert_eq!(layout.label, "texture_bind_group_layout");
    assert_eq!(
        layout.entries,
        vec![
            BindGroupLayoutEntry {
                binding: 0,
                visibility: ShaderStages { vertex: false, fragment: true, compute: false },
                ty: BindingType::Texture {
                    sample_type: TextureSampleType::Float { filterable: true },
                    view_dimension: TextureViewDimension::D2,
                    multisampled: false,
                },
                count: None,
            },
            BindGroupLayoutEntry {
                binding: 1,
                visibility: ShaderStages { vertex: false, fragment: true, compute: false },
                ty: BindingType::Sampler { filtering: true, comparison: false },
                count: None,
            },
        ]
    );
}

#[test]
fn surface_without_pixels_is_rejected() {
    assert_eq!(surface(800, 600).validate(), Ok(()));
    assert_eq!(surface(1, 1).validate(), Ok(()));
    assert_eq!(surface(800, 0).validate(), Err(ConfigError::ZeroHeight));
    assert_eq!(surface(0, 600).validate(), Err(ConfigError::ZeroWidth));
    assert_eq!(surface(0, 0).validate(), Err(ConfigError::ZeroHeight));
}

#[test]
fn depth_texture_is_sized_to_the_surface() {
    let texture = Texture::create_depth_texture(&surface(800, 600), "depth_texture").unwrap();
    assert_eq!(
        texture,
        Texture {
            label: "depth_texture",
            width: 800,
            height: 600,
            format: TextureFormat::Depth32Float,
            usage: TextureUsages { copy_dst: false, texture_binding: true, render_attachment: true },
            compare: Some(CompareFunction::LessEqual),
        }
    );
    assert_eq!(DEPTH_FORMAT, TextureFormat::Depth32Float);
    assert_eq!(
        Texture::create_depth_texture(&surface(0, 600), "d"),
        Err(ConfigError::ZeroWidth)
    );
    assert_eq!(
        Texture::create_depth_texture(&surface(5, 0), "d"),
        Err(ConfigError::ZeroHeight)
    );
}

#[test]
fn opaque_pipeline_state() {
    let layouts = vec![
        Texture::bind_group_layout(),
        BindGroupLayoutDescriptor::uniform("camera_bind_group_layout"),
        BindGroupLayoutDescriptor::uniform("light_bind_group_layout"),
    ];
    let pipeline = opaque_render_pipeline(&surface(800, 600), layouts.clone());
    assert_eq!(pipeline.label, "Render Pipeline");
    assert_eq!(pipeline.layout.label, "Render Pipeline Layout");
    assert_eq!(pipeline.layout.bind_group_layouts, layouts);
    assert_eq!(pipeline.vertex.shader, "opaque.vert.spv");
    assert_eq!(pipeline.vertex.entry_point, "main");
    assert_eq!(pipeline.vertex.buffers, vec![ModelVertex::desc()]);
    let fragment = pipeline.fragment.unwrap();
    assert_eq!(fragment.shader, "opaque.frag.spv");
    assert_eq!(fragment.entry_point, "main");
    assert_eq!(
        fragment.targets,
        vec![ColorTargetState {
            format: TextureFormat::Bgra8UnormSrgb,
            blend: Some(replace()),
            write_mask: ColorWrites { red: true, green: true, blue: true, alpha: true },
        }]
    );
    assert_eq!(pipeline.primitive, solid());
    assert_eq!(pipeline.depth_stencil, None);
    assert_eq!(
        pipeline.multisample,
        MultisampleState { count: 1, mask: !0, alpha_to_coverage_enabled: false }
    );
}

#[test]
fn opaque_pipeline_takes_the_surface_format() {
    let config = SurfaceConfiguration { format: TextureFormat::Rgba8Unorm, width: 1, height: 1 };
    let pipeline = opaque_render_pipeline(&config, vec![]);
    assert_eq!(pipeline.fragment.unwrap().targets[0].format, TextureFormat::Rgba8Unorm);
    assert!(pipeline.layout.bind_group_layouts.is_empty());
}

#[test]
fn state_constructors() {
    assert_eq!(BlendState::replace(), replace());
    assert_eq!(PrimitiveState::triangles(), solid());
    assert_eq!(
        MultisampleState::single(),
        MultisampleState { count: 1, mask: u64::MAX, alpha_to_coverage_enabled: false }
    );
}

#[test]
fn depth_pass_description() {
    let pass = DepthPass::new(&surface(800, 600)).unwrap();
    assert_eq!(pass.texture.label, "depth_texture");
    assert_eq!((pass.texture.width, pass.texture.height), (800, 600));
    assert_eq!(pass.texture.format, TextureFormat::Depth32Float);
    assert_eq!(pass.texture.compare, Some(CompareFunction::LessEqual));
    assert_eq!(pass.layout.label, "Depth Pass Layout");
    assert_eq!(
        pass.layout.entries,
        vec![
            BindGroupLayoutEntry {
                binding: 0,
                visibility: ShaderStages { vertex: false, fragment: true, compute: false },
                ty: BindingType::Texture {
                    sample_type: TextureSampleType::Depth,
                    view_dimension: TextureViewDimension::D2,
                    multisampled: false,
                },
                count: None,
            },
            BindGroupLayoutEntry {
                binding: 1,
                visibility: ShaderStages { vertex: false, fragment: true, compute: false },
                ty: BindingType::Sampler { filtering: true, comparison: true },
                count: None,
            },
        ]
    );
    assert_eq!(pass.bind_group.label, "depth_pass.bind_group");
    assert_eq!(
        pass.bind_group.entries,
        vec![
            BindGroupEntry { binding: 0, resource: BindingResource::TextureView },
            BindGroupEntry { binding: 1, resource: BindingResource::Sampler },
        ]
    );
    assert!(pass.layout.is_wf());
    assert!(pass.layout.accepts(&pass.bind_group));
    let pipeline = &pass.render_pipeline;
    assert_eq!(pipeline.label, "depth_pass.render_pipeline");
    assert_eq!(pipeline.layout.label, "depth_pass.pipeline_layout");
    assert_eq!(pipeline.layout.bind_group_layouts, vec![pass.layout.clone()]);
    assert_eq!(pipeline.vertex.shader, "depth.vert.spv");
    assert_eq!(pipeline.vertex.entry_point, "main");
    assert_eq!(pipeline.vertex.buffers, vec![ModelVertex::desc()]);
    assert_eq!(pipeline.fragment, None);
    assert_eq!(pipeline.primitive, solid());
    assert_eq!(
        pipeline.depth_stencil,
        Some(DepthStencilState {
            format: TextureFormat::Depth32Float,
            depth_write_enabled: true,
            depth_compare: CompareFunction::LessEqual,
            bias: DepthBiasState { constant: 2, slope_scale: 2, clamp: 0 },
        })
    );
    assert_eq!(
        pipeline.multisample,
        MultisampleState { count: 1, mask: !0, alpha_to_coverage_enabled: false }
    );
}

#[test]
fn depth_pass_needs_a_surface_with_pixels() {
    assert_eq!(DepthPass::new(&surface(800, 0)), Err(ConfigError::ZeroHeight));
    assert_eq!(DepthPass::new(&surface(0, 600)), Err(ConfigError::ZeroWidth));
    assert_eq!(DepthPass::new(&surface(0, 0)), Err(ConfigError::ZeroHeight));
    assert!(DepthPass::new(&surface(1, 1)).is_ok());
}

#[test]
fn depth_pass_resize_makes_the_texture_anew() {
    let mut pass = DepthPass::new(&surface(800, 600)).unwrap();
    let before = pass.clone();
    assert_eq!(pass.resize(&surface(1024, 768)), Ok(()));
    assert_eq!((pass.texture.width, pass.texture.height), (1024, 768));
    assert_eq!(pass.texture.format, TextureFormat::Depth32Float);
    assert_eq!(pass.layout, before.layout);
    assert_eq!(pass.bind_group, before.bind_group);
    assert_eq!(pass.vertex_buffer, before.vertex_buffer);
    assert_eq!(pass.index_buffer, before.index_buffer);
    assert_eq!(pass.render_pipeline, before.render_pipeline);
    let resized = pass.clone();
    assert_eq!(pass.resize(&surface(1024, 0)), Err(ConfigError::ZeroHeight));
    assert_eq!(pass, resized);
    assert_eq!(pass.resize(&surface(0, 768)), Err(ConfigError::ZeroWidth));
    assert_eq!(pass, resized);
}

#[test]
fn depth_pass_render_records_one_pass() {
    let pass = DepthPass::new(&surface(800, 600)).unwrap();
    let handles = DepthPassHandles {
        view: TextureViewId(1),
        bind_group: BindGroupId(2),
        vertex_buffer: BufferId(3),
        index_buffer: BufferId(4),
        pipeline: PipelineId(5),
    };
    let mut encoder = CommandEncoder::new();
    assert!(encoder.passes.is_empty());
    pass.render(&mut encoder, &handles);
    assert_eq!(encoder.passes.len(), 1);
    let recorded = &encoder.passes[0];
    assert_eq!(
        recorded.descriptor,
        RenderPassDescriptor {
            label: "depth_pass.render_pass",
            color_attachments: vec![],
            depth_stencil_attachment: Some(DepthStencilAttachment {
                view: TextureViewId(1),
                depth_ops: Some(Operations { load: LoadOp::Clear(1f32.to_bits()), store: true }),
                stencil_ops: None,
            }),
        }
    );
    assert_eq!(
        recorded.commands,
        vec![
            RenderCommand::SetPipeline { pipeline: PipelineId(5) },
            RenderCommand::SetBindGroup { index: 0, group: BindGroupId(2) },
            RenderCommand::SetVertexBuffer { slot: 0, buffer: BufferId(3) },
            RenderCommand::SetIndexBuffer { buffer: BufferId(4), format: IndexFormat::Uint16 },
            RenderCommand::DrawIndexed {
                first_index: 0,
                end_index: 6,
                base_vertex: 0,
                first_instance: 0,
                end_instance: 1,
            },
        ]
    );
    assert!(recorded.descriptor.fits(&pass.render_pipeline));
    assert!(!recorded.descriptor.fits(&opaque_render_pipeline(&surface(800, 600), vec![])));
    pass.render(&mut encoder, &handles);
    assert_eq!(encoder.passes.len(), 2);
    assert_eq!(encoder.passes[0], encoder.passes[1]);
}

#[test]
fn pipelines_fit_the_passes_they_are_used_in() {
    let opaque = opaque_render_pipeline(&surface(800, 600), vec![]);
    let depth = DepthPass::new(&surface(800, 600)).unwrap().render_pipeline;
    let view = TextureViewId(0);
    let colour = render_core::pass::ColorAttachment { view, clear: None, store: true };
    let attachment = DepthStencilAttachment { view, depth_ops: None, stencil_ops: None };
    let pass = |colours: usize, with_depth: bool| RenderPassDescriptor {
        label: "p",
        color_attachments: vec![colour; colours],
        depth_stencil_attachment: if with_depth { Some(attachment) } else { None },
    };
    assert!(pass(1, false).fits(&opaque));
    assert!(!pass(0, false).fits(&opaque));
    assert!(!pass(2, false).fits(&opaque));
    assert!(!pass(1, true).fits(&opaque));
    assert!(pass(0, true).fits(&depth));
    assert!(!pass(0, false).fits(&depth));
    assert!(!pass(1, true).fits(&depth));
}

#[test]
fn render_pass_records_in_order() {
    let mut pass = RenderPass::new();
    assert!(pass.commands.is_empty());
    pass.set_pipeline(PipelineId(9));
    pass.set_bind_group(3, BindGroupId(8));
    pass.set_vertex_buffer(1, BufferId(7));
    pass.set_index_buffer(BufferId(6), IndexFormat::Uint32);
    pass.draw(2..5, 1..4);
    pass.draw_indexed(10..20, -3, 0..2);
    assert_eq!(
        pass.commands,
        vec![
            RenderCommand::SetPipeline { pipeline: PipelineId(9) },
            RenderCommand::SetBindGroup { index: 3, group: BindGroupId(8) },
            RenderCommand::SetVertexBuffer { slot: 1, buffer: BufferId(7) },
            RenderCommand::SetIndexBuffer { buffer: BufferId(6), format: IndexFormat::Uint32 },
            RenderCommand::Draw { first_vertex: 2, end_vertex: 5, first_instance: 1, end_instance: 4 },
            RenderCommand::DrawIndexed {
                first_index: 10,
                end_index: 20,
                base_vertex: -3,
                first_instance: 0,
                end_instance: 2,
            },
        ]
    );
}

#[test]
fn triangle_vertex_layout_is_position_and_colour() {
    let layout = Vertex::desc();
    assert_eq!(layout.array_stride, 24);
    assert_eq!(layout.step_mode, VertexStepMode::Vertex);
    assert_eq!(
        layout.attributes,
        vec![
            VertexAttribute { format: VertexFormat::Float32x3, offset: 0, shader_location: 0 },
            VertexAttribute { format: VertexFormat::Float32x3, offset: 12, shader_location: 1 },
        ]
    );
}

#[test]
fn triangle_description() {
    let camera = BindGroupLayoutDescriptor::uniform("camera_bind_group_layout");
    let light = BindGroupLayoutDescriptor::uniform("light_bind_group_layout");
    let bits = |x: f32, y: f32, z: f32| [x.to_bits(), y.to_bits(), z.to_bits()];
    let positions = [bits(0.0, 0.5, 0.0), bits(-0.5, -0.5, 0.0), bits(0.5, -0.5, 0.0)];
    let triangle = Triangle::new(
        positions,
        &surface(800, 600),
        "triangle.vert.spv",
        "triangle.frag.spv",
        camera.clone(),
        light.clone(),
    );
    let pipeline = &triangle.pipeline;
    assert_eq!(pipeline.label, "triangle pipeline");
    assert_eq!(pipeline.layout.label, "triangle pipeline layout");
    assert_eq!(pipeline.layout.bind_group_layouts, vec![camera, light]);
    assert_eq!(pipeline.vertex.shader, "triangle.vert.spv");
    assert_eq!(pipeline.vertex.entry_point, "main");
    assert_eq!(pipeline.vertex.buffers, vec![Vertex::desc()]);
    let fragment = pipeline.fragment.clone().unwrap();
    assert_eq!(fragment.shader, "triangle.frag.spv");
    assert_eq!(fragment.entry_point, "main");
    assert_eq!(
        fragment.targets,
        vec![ColorTargetState {
            format: TextureFormat::Bgra8UnormSrgb,
            blend: Some(replace()),
            write_mask: ColorWrites { red: true, green: true, blue: true, alpha: true },
        }]
    );
    assert_eq!(pipeline.primitive, solid());
    assert_eq!(pipeline.depth_stencil, None);
    assert_eq!(triangle.vertex_buffer.label, "Vertex Buffer");
    let words: Vec<u32> = [
        [0.0f32, 0.5, 0.0, 1.0, 0.0, 0.0],
        [-0.5, -0.5, 0.0, 0.0, 1.0, 0.0],
        [0.5, -0.5, 0.0, 0.0, 0.0, 1.0],
    ]
    .iter()
    .flatten()
    .map(|x| x.to_bits())
    .collect();
    let mut bytes = Vec::new();
    for w in &words {
        bytes.extend_from_slice(&w.to_ne_bytes());
    }
    assert_eq!(triangle.vertex_buffer.contents, bytes);
    assert_eq!(triangle.vertex_buffer.contents.len(), 3 * 24);
}

#[test]
fn triangle_render_appends_its_commands() {
    let triangle = Triangle::new(
        [[0; 3]; 3],
        &surface(8, 8),
        "v",
        "f",
        BindGroupLayoutDescriptor::uniform("c"),
        BindGroupLayoutDescriptor::uniform("l"),
    );
    let handles = TriangleHandles { pipeline: PipelineId(1), vertex_buffer: BufferId(2) };
    let mut pass = RenderPass::new();
    pass.set_pipeline(PipelineId(0));
    triangle.render(&mut pass, &handles, BindGroupId(3), BindGroupId(4));
    assert_eq!(
        pass.commands,
        vec![
            RenderCommand::SetPipeline { pipeline: PipelineId(0) },
            RenderCommand::SetPipeline { pipeline: PipelineId(1) },
            RenderCommand::SetVertexBuffer { slot: 0, buffer: BufferId(2) },
            RenderCommand::SetBindGroup { index: 0, group: BindGroupId(3) },
            RenderCommand::SetBindGroup { index: 1, group: BindGroupId(4) },
            RenderCommand::Draw { first_vertex: 0, end_vertex: 3, first_instance: 0, end_instance: 1 },
        ]
    );
}

#[test]
fn triangle_round_trips_through_its_vertex_layout() {
    let bits = |x: f32, y: f32, z: f32| [x.to_bits(), y.to_bits(), z.to_bits()];
    let positions = [bits(0.0, 0.5, 0.0), bits(-0.5, -0.5, 0.0), bits(0.5, -0.5, 0.0)];
    let triangle = Triangle::new(
        positions,
        &surface(800, 600),
        "v",
        "f",
        BindGroupLayoutDescriptor::uniform("c"),
        BindGroupLayoutDescriptor::uniform("l"),
    );
    let words: Vec<u32> = triangle
        .vertex_buffer
        .contents
        .chunks(4)
        .map(|b| u32::from_ne_bytes([b[0], b[1], b[2], b[3]]))
        .collect();
    let layout = Vertex::desc();
    let colours = [bits(1.0, 0.0, 0.0), bits(0.0, 1.0, 0.0), bits(0.0, 0.0, 1.0)];
    for i in 0..3 {
        assert_eq!(
            render_core::vertex::fetch_attribute(&words, &layout, i, 0),
            Some(positions[i].to_vec())
        );
        assert_eq!(
            render_core::vertex::fetch_attribute(&words, &layout, i, 1),
            Some(colours[i].to_vec())
        );
    }
    assert_eq!(render_core::vertex::fetch_attribute(&words, &layout, 3, 0), None);
}

#[test]
fn triangle_base_corners() {
    assert_eq!(f32::from_bits(HALF), 0.5);
    assert_eq!(f32::from_bits(MINUS_HALF), -0.5);
    let corners = base_corners().map(|corner| corner.map(f32::from_bits));
    assert_eq!(corners, [[0.0, 0.5, 0.0], [-0.5, -0.5, 0.0], [0.5, -0.5, 0.0]]);
}
