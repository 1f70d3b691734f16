//! Meshes and models as plain data, and the interleaved vertex they are made of.

use vstd::prelude::*;
use crate::vertex::{
    fetched, tightly_packed, VertexAttribute, VertexBufferLayout, VertexFormat, VertexStepMode,
};

verus! {

/// The name under which the application holds a GPU buffer.
#[derive(Clone, Copy, Debug, PartialEq, Eq, Structural)]
pub struct BufferId(pub u32);

/// The name under which the application holds a bind group.
#[derive(Clone, Copy, Debug, PartialEq, Eq, Structural)]
pub struct BindGroupId(pub u32);

/// The name under which the application holds a render pipeline.
#[derive(Clone, Copy, Debug, PartialEq, Eq, Structural)]
pub struct PipelineId(pub u32);

/// The name under which the application holds a texture view.
#[derive(Clone, Copy, Debug, PartialEq, Eq, Structural)]
pub struct TextureViewId(pub u32);

/// A vertex of a textured mesh: position, texture coordinates and normal, each
/// component a 32-bit pattern.
#[derive(Clone, Copy, Debug, PartialEq, Eq)]
pub struct ModelVertex {
    pub position: [u32; 3],
    pub tex_coords: [u32; 2],
    pub normal: [u32; 3],
}

/// The attributes of a `ModelVertex`: position at byte 0, texture coordinates
/// at byte 12, normal at byte 20.
pub open spec fn model_vertex_attributes() -> Seq<VertexAttribute> {
    seq![
        VertexAttribute { format: VertexFormat::Float32x3, offset: 0, shader_location: 0 },
        VertexAttribute { format: VertexFormat::Float32x2, offset: 12, shader_location: 1 },
        VertexAttribute { format: VertexFormat::Float32x3, offset: 20, shader_location: 2 },
    ]
}

impl ModelVertex {
    /// The eight words of the vertex in buffer order.
    pub open spec fn spec_words(self) -> Seq<u32> {
        self.position@ + self.tex_coords@ + self.normal@
    }

    /// The layout of a buffer of such vertices: 32 bytes from one vertex to
    /// the next, advanced per vertex, three attributes that tile the stride.
    pub fn desc() -> (layout: VertexBufferLayout)
        ensures
            layout.array_stride == 32,
            layout.step_mode == VertexStepMode::Vertex,
            layout.attributes@ == model_vertex_attributes(),
            layout.wf(),
    {
        let attributes = vec![
            VertexAttribute { format: VertexFormat::Float32x3, offset: 0, shader_location: 0 },
            VertexAttribute { format: VertexFormat::Float32x2, offset: 12, shader_location: 1 },
            VertexAttribute { format: VertexFormat::Float32x3, offset: 20, shader_location: 2 },
        ];
        proof {
            let a = attributes@;
            assert(a =~= model_vertex_attributes());
            reveal_with_fuel(tightly_packed, 4);
            assert(a.drop_last().drop_last().drop_last().len() == 0);
            assert(tightly_packed(a, 0, 32));
        }
        VertexBufferLayout { array_stride: 32, step_mode: VertexStepMode::Vertex, attributes }
    }
}

/// The words of all vertices in turn, eight per vertex.
pub open spec fn packed(vertices: Seq<ModelVertex>) -> Seq<u32> {
    Seq::new(8 * vertices.len(), |i: int| vertices[i / 8].spec_words()[i % 8])
}

/// Packs vertices into the words of a vertex buffer.
pub fn pack_vertices(vertices: &Vec<ModelVertex>) -> (words: Vec<u32>)
    ensures
        words@ == packed(vertices@),
{
    let mut words: Vec<u32> = Vec::new();
    let n = vertices.len();
    let mut i: usize = 0;
    while i < n
        invariant
            n == vertices@.len(),
            i <= n,
            words@ == packed(vertices@.subrange(0, i as int)),
        decreases n - i,
    {
        let v = vertices[i];
        let ghost before = words@;
        words.push(v.position[0]);
        words.push(v.position[1]);
        words.push(v.position[2]);
        words.push(v.tex_coords[0]);
        words.push(v.tex_coords[1]);
        words.push(v.normal[0]);
        words.push(v.normal[1]);
        words.push(v.normal[2]);
        proof {
            let done = vertices@.subrange(0, i as int);
            let next = vertices@.subrange(0, i as int + 1);
            assert(words@.len() == 8 * next.len());
            assert forall|k: int| 0 <= k < words@.len() implies words@[k] == packed(next)[k] by {
                if k < 8 * i {
                    assert(words@[k] == before[k]);
                    assert(done[k / 8] == next[k / 8]);
                } else {
                    assert(k / 8 == i as int);
                    assert(next[i as int] == v);
                    assert(v.spec_words() =~= seq![
                        v.position[0],
                        v.position[1],
                        v.position[2],
                        v.tex_coords[0],
                        v.tex_coords[1],
                        v.normal[0],
                        v.normal[1],
                        v.normal[2],
                    ]);
                }
            }
            assert(words@ =~= packed(next));
        }
        i += 1;
    }
    assert(vertices@.subrange(0, n as int) =~= vertices@);
    words
}

/// What is packed is what the vertex stage reads: fetching the attributes of
/// vertex `i` from the packed words through the layout of `ModelVertex::desc`
/// gives its position, texture coordinates and normal unchanged.
pub proof fn packed_round_trip(vertices: Seq<ModelVertex>, i: int)
    requires
        0 <= i < vertices.len(),
    ensures
        fetched(packed(vertices), 32, model_vertex_attributes()[0], i) == vertices[i].position@,
        fetched(packed(vertices), 32, model_vertex_attributes()[1], i) == vertices[i].tex_coords@,
        fetched(packed(vertices), 32, model_vertex_attributes()[2], i) == vertices[i].normal@,
{
    let buffer = packed(vertices);
    let v = vertices[i];
    let w = v.spec_words();
    assert((i * 32 + 0) / 4 == 8 * i);
    assert((i * 32 + 12) / 4 == 8 * i + 3);
    assert((i * 32 + 20) / 4 == 8 * i + 5);
    assert forall|k: int| 0 <= k < 8 implies buffer[8 * i + k] == w[k] by {
        assert((8 * i + k) / 8 == i && (8 * i + k) % 8 == k);
    }
    assert(fetched(buffer, 32, model_vertex_attributes()[0], i) =~= v.position@) by {
        assert forall|k: int| 0 <= k < 3 implies buffer[8 * i + k] == v.position@[k] by {
            assert(buffer[8 * i + k] == w[k]);
        }
    }
    assert(fetched(buffer, 32, model_vertex_attributes()[1], i) =~= v.tex_coords@) by {
        assert forall|k: int| 0 <= k < 2 implies buffer[8 * i + 3 + k] == v.tex_coords@[k] by {
            assert(buffer[8 * i + (3 + k)] == w[3 + k]);
        }
    }
    assert(fetched(buffer, 32, model_vertex_attributes()[2], i) =~= v.normal@) by {
        assert forall|k: int| 0 <= k < 3 implies buffer[8 * i + 5 + k] == v.normal@[k] by {
            assert(buffer[8 * i + (5 + k)] == w[5 + k]);
        }
    }
}

/// A mesh: its buffers, the number of indices to draw, and the material it
/// refers to by position in its model's list of materials.
#[derive(Clone, Copy, Debug, PartialEq, Eq, Structural)]
pub struct Mesh {
    pub vertex_buffer: BufferId,
    pub index_buffer: BufferId,
    pub num_elements: u32,
    pub material: usize,
}

/// A model: its meshes, and the bind group of each of its materials.
#[derive(Clone, Debug, PartialEq, Eq)]
pub struct Model {
    pub meshes: Vec<Mesh>,
    pub materials: Vec<BindGroupId>,
}

impl Model {
    /// Every mesh refers to a material that the model has.
    pub open spec fn wf(&self) -> bool {
        forall|i: int|
            0 <= i < self.meshes@.len() ==> (#[trigger] self.meshes@[i]).material
                < self.materials@.len()
    }

    /// Whether every mesh refers to a material that the model has.
    pub fn is_wf(&self) -> (ok: bool)
        ensures
            ok == self.wf(),
    {
        let n = self.meshes.len();
        let mut i: usize = 0;
        while i < n
            invariant
                n == self.meshes@.len(),
                i <= n,
                forall|k: int|
                    0 <= k < i ==> (#[trigger] self.meshes@[k]).material < self.materials@.len(),
            decreases n - i,
        {
            if self.meshes[i].material >= self.materials.len() {
                return false;
            }
            i += 1;
        }
        true
    }
}

} // verus!
