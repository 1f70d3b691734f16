use render_core::binding::BufferUsages;
use render_core::depthpass::{depth_indices, depth_vertices, DepthPass};
use render_core::model::{pack_vertices, Mesh, Model, ModelVertex, BindGroupId, BufferId};
use render_core::pipeline::{SurfaceConfiguration, TextureFormat};
use render_core::vertex::{
    fetch_attribute, VertexAttribute, VertexBufferLayout, VertexFormat, VertexStepMode, ONE, ZERO,
};

fn surface(width: u32, height: u32) -> SurfaceConfiguration {
    SurfaceConfiguration { format: TextureFormat::Bgra8UnormSrgb, width, height }
}

fn ne_bytes_u16(values: &[u16]) -> Vec<u8> {
    let mut out = Vec::new();
    for v in values {
        out.extend_from_slice(&v.to_ne_bytes());
    }
    out
}

fn ne_bytes_u32(values: &[u32]) -> Vec<u8> {
    let mut out = Vec::new();
    for v in values {
        out.extend_from_slice(&v.to_ne_bytes());
    }
    out
}

#[test]
fn pattern_constants_are_zero_and_one() {
    assert_eq!(f32::from_bits(ZERO), 0.0);
    assert_eq!(f32::from_bits(ONE), 1.0);
}

#[test]
fn vertex_format_sizes() {
    assert_eq!(VertexFormat::Float32.size(), 4);
    assert_eq!(VertexFormat::Float32x2.size(), 8);
    assert_eq!(VertexFormat::Float32x3.size(), 12);
    assert_eq!(VertexFormat::Float32x4.size(), 16);
    assert_eq!(VertexFormat::Float32.components(), 1);
    assert_eq!(VertexFormat::Float32x2.components(), 2);
    assert_eq!(VertexFormat::Float32x3.components(), 3);
    assert_eq!(VertexFormat::Float32x4.components(), 4);
}

#[test]
fn model_vertex_layout_is_position_uv_normal() {
    let layout = ModelVertex::desc();
    assert_eq!(layout.array_stride, 32);
    assert_eq!(layout.step_mode, VertexStepMode::Vertex);
    assert_eq!(
        layout.attributes,
        vec![
            VertexAttribute { format: VertexFormat::Float32x3, offset: 0, shader_location: 0 },
            VertexAttribute { format: VertexFormat::Float32x2, offset: 12, shader_location: 1 },
            VertexAttribute { format: VertexFormat::Float32x3, offset: 20, shader_location: 2 },
        ]
    );
    let total: u64 = layout.attributes.iter().map(|a| a.format.size()).sum();
    assert_eq!(total, layout.array_stride);
}

#[test]
fn quad_has_four_corners_and_two_triangles() {
    let vertices = depth_vertices();
    let indices = depth_indices();
    assert_eq!(indices, vec![0, 1, 2, 0, 2, 3]);
    assert_eq!(vertices.len(), 4);
    let position = |x: f32, y: f32| [x.to_bits(), y.to_bits(), 0f32.to_bits()];
    let uv = |u: f32, v: f32| [u.to_bits(), v.to_bits()];
    let none = [0f32.to_bits(); 3];
    assert_eq!(
        vertices,
        vec![
            ModelVertex { position: position(0.0, 0.0), tex_coords: uv(0.0, 1.0), normal: none },
            ModelVertex { position: position(1.0, 0.0), tex_coords: uv(1.0, 1.0), normal: none },
            ModelVertex { position: position(1.0, 1.0), tex_coords: uv(1.0, 0.0), normal: none },
            ModelVertex { position: position(0.0, 1.0), tex_coords: uv(0.0, 0.0), normal: none },
        ]
    );
}

#[test]
fn quad_indices_reference_exactly_the_four_corners() {
    let indices = depth_indices();
    let count = depth_vertices().len();
    for index in &indices {
        assert!((*index as usize) < count);
    }
    for corner in 0..count {
        assert!(indices.iter().any(|i| *i as usize == corner));
    }
}

#[test]
fn pack_vertices_interleaves_eight_words_per_vertex() {
    let vertices = vec![
        ModelVertex { position: [1, 2, 3], tex_coords: [4, 5], normal: [6, 7, 8] },
        ModelVertex { position: [11, 12, 13], tex_coords: [14, 15], normal: [16, 17, 18] },
    ];
    assert_eq!(
        pack_vertices(&vertices),
        vec![1, 2, 3, 4, 5, 6, 7, 8, 11, 12, 13, 14, 15, 16, 17, 18]
    );
    assert_eq!(pack_vertices(&Vec::new()), Vec::<u32>::new());
}

#[test]
fn quad_round_trips_through_the_vertex_layout() {
    let vertices = depth_vertices();
    let buffer = pack_vertices(&vertices);
    let layout = ModelVertex::desc();
    for (i, v) in vertices.iter().enumerate() {
        assert_eq!(fetch_attribute(&buffer, &layout, i, 0), Some(v.position.to_vec()));
        assert_eq!(fetch_attribute(&buffer, &layout, i, 1), Some(v.tex_coords.to_vec()));
        assert_eq!(fetch_attribute(&buffer, &layout, i, 2), Some(v.normal.to_vec()));
    }
}

#[test]
fn fetch_attribute_refuses_what_is_not_there() {
    let buffer = pack_vertices(&depth_vertices());
    let layout = ModelVertex::desc();
    assert_eq!(fetch_attribute(&buffer, &layout, 0, 3), None);
    assert_eq!(fetch_attribute(&buffer, &layout, 4, 0), None);
    assert_eq!(fetch_attribute(&buffer, &layout, 3, 2), Some(vec![0, 0, 0]));
    assert_eq!(fetch_attribute(&buffer, &layout, usize::MAX, 0), None);
    let odd = VertexBufferLayout {
        array_stride: 6,
        step_mode: VertexStepMode::Vertex,
        attributes: vec![VertexAttribute {
            format: VertexFormat::Float32,
            offset: 0,
            shader_location: 0,
        }],
    };
    assert_eq!(fetch_attribute(&buffer, &odd, 0, 0), None);
    let shifted = VertexBufferLayout {
        array_stride: 8,
        step_mode: VertexStepMode::Vertex,
        attributes: vec![VertexAttribute {
            format: VertexFormat::Float32,
            offset: 2,
            shader_location: 0,
        }],
    };
    assert_eq!(fetch_attribute(&buffer, &shifted, 0, 0), None);
}

#[test]
fn fetch_attribute_reads_at_stride_and_offset() {
    let buffer: Vec<u32> = (100..112).collect();
    let layout = VertexBufferLayout {
        array_stride: 16,
        step_mode: VertexStepMode::Vertex,
        attributes: vec![
            VertexAttribute { format: VertexFormat::Float32x2, offset: 0, shader_location: 0 },
            VertexAttribute { format: VertexFormat::Float32x2, offset: 8, shader_location: 1 },
        ],
    };
    assert_eq!(fetch_attribute(&buffer, &layout, 1, 1), Some(vec![106, 107]));
    assert_eq!(fetch_attribute(&buffer, &layout, 2, 1), Some(vec![110, 111]));
    assert_eq!(fetch_attribute(&buffer, &layout, 3, 0), None);
}

#[test]
fn depth_pass_buffers_hold_the_quad_in_memory_order() {
    let pass = DepthPass::new(&surface(800, 600)).unwrap();
    assert_eq!(pass.index_buffer.label, "depth_pass.index_buffer");
    assert_eq!(pass.index_buffer.contents, ne_bytes_u16(&[0, 1, 2, 0, 2, 3]));
    assert_eq!(
        pass.index_buffer.usage,
        BufferUsages { copy_dst: false, index: true, vertex: false, uniform: false }
    );
    assert_eq!(pass.vertex_buffer.label, "depth_pass.vertex_buffer");
    assert_eq!(pass.vertex_buffer.contents, ne_bytes_u32(&pack_vertices(&depth_vertices())));
    assert_eq!(pass.vertex_buffer.contents.len(), 4 * 32);
    assert_eq!(
        pass.vertex_buffer.usage,
        BufferUsages { copy_dst: false, index: false, vertex: true, uniform: false }
    );
}

#[test]
fn depth_pass_index_bytes_read_back_as_the_indices() {
    let pass = DepthPass::new(&surface(4, 4)).unwrap();
    let bytes = &pass.index_buffer.contents;
    let read: Vec<u16> =
        bytes.chunks(2).map(|pair| u16::from_ne_bytes([pair[0], pair[1]])).collect();
    assert_eq!(read, vec![0, 1, 2, 0, 2, 3]);
}

#[test]
fn model_is_well_formed_when_materials_exist() {
    let mesh = |material: usize| Mesh {
        vertex_buffer: BufferId(1),
        index_buffer: BufferId(2),
        num_elements: 36,
        material,
    };
    let good = Model { meshes: vec![mesh(0), mesh(1)], materials: vec![BindGroupId(7), BindGroupId(8)] };
    assert!(good.is_wf());
    let bad = Model { meshes: vec![mesh(0), mesh(2)], materials: vec![BindGroupId(7), BindGroupId(8)] };
    assert!(!bad.is_wf());
    let empty = Model { meshes: vec![], materials: vec![] };
    assert!(empty.is_wf());
}
