//! Vertex buffer layouts and the packing of vertices into 32-bit words.

use vstd::prelude::*;

verus! {

/// The bit pattern of the single-precision number 0.
pub const ZERO: u32 = 0;

/// The bit pattern of the single-precision number 1.
pub const ONE: u32 = 0x3F80_0000;

/// The format of a vertex attribute made of 32-bit components.
#[derive(Clone, Copy, Debug, PartialEq, Eq, Structural)]
pub enum VertexFormat {
    Float32,
    Float32x2,
    Float32x3,
    Float32x4,
}

impl VertexFormat {
    /// The number of 32-bit components.
    pub open spec fn spec_components(self) -> nat {
        match self {
            VertexFormat::Float32 => 1,
            VertexFormat::Float32x2 => 2,
            VertexFormat::Float32x3 => 3,
            VertexFormat::Float32x4 => 4,
        }
    }

    /// The size in bytes.
    pub open spec fn spec_size(self) -> nat {
        4 * self.spec_components()
    }

    /// The number of 32-bit components.
    pub fn components(self) -> (n: usize)
        ensures
            n == self.spec_components(),
    {
        match self {
            VertexFormat::Float32 => 1,
            VertexFormat::Float32x2 => 2,
            VertexFormat::Float32x3 => 3,
            VertexFormat::Float32x4 => 4,
        }
    }

    /// The size in bytes.
    pub fn size(self) -> (n: u64)
        ensures
            n == self.spec_size(),
    {
        match self {
            VertexFormat::Float32 => 4,
            VertexFormat::Float32x2 => 8,
            VertexFormat::Float32x3 => 12,
            VertexFormat::Float32x4 => 16,
        }
    }
}

/// Whether a buffer advances once per vertex or once per instance.
#[derive(Clone, Copy, Debug, PartialEq, Eq, Structural)]
pub enum VertexStepMode {
    Vertex,
    Instance,
}

/// One input of the vertex stage: where it starts within a vertex, which
/// shader location reads it, and its format.
#[derive(Clone, Copy, Debug, PartialEq, Eq, Structural)]
pub struct VertexAttribute {
    pub format: VertexFormat,
    pub offset: u64,
    pub shader_location: u32,
}

/// How vertices lie in a vertex buffer.
#[derive(Clone, Debug, PartialEq, Eq)]
pub struct VertexBufferLayout {
    pub array_stride: u64,
    pub step_mode: VertexStepMode,
    pub attributes: Vec<VertexAttribute>,
}

/// The attributes follow one another without gap or overlap, starting at
/// `start` and ending at `end`, and attribute `i` is read at shader location
/// `i`.
pub open spec fn tightly_packed(attributes: Seq<VertexAttribute>, start: int, end: int) -> bool
    decreases attributes.len(),
{
    if attributes.len() == 0 {
        start == end
    } else {
        &&& attributes.last().offset + attributes.last().format.spec_size() == end
        &&& attributes.last().shader_location == attributes.len() - 1
        &&& tightly_packed(attributes.drop_last(), start, attributes.last().offset as int)
    }
}

impl VertexBufferLayout {
    /// The attributes tile the stride exactly, in order of shader location.
    pub open spec fn wf(&self) -> bool {
        tightly_packed(self.attributes@, 0, self.array_stride as int)
    }
}

/// The words that the vertex stage reads for one attribute of one vertex from
/// a buffer of 32-bit words laid out with the given stride.
pub open spec fn fetched(
    buffer: Seq<u32>,
    array_stride: u64,
    attribute: VertexAttribute,
    vertex: int,
) -> Seq<u32> {
    let first = (vertex * array_stride + attribute.offset) / 4;
    buffer.subrange(first, first + attribute.format.spec_components())
}

/// Reads one attribute of one vertex from a buffer of 32-bit words, as the
/// vertex stage does: at byte `vertex * array_stride + offset`, as many
/// components as the format has. `None` when the attribute or the vertex does
/// not exist, when stride or offset is not a whole number of words, or when
/// the read would leave the buffer.
pub fn fetch_attribute(
    buffer: &Vec<u32>,
    layout: &VertexBufferLayout,
    vertex: usize,
    attribute: usize,
) -> (words: Option<Vec<u32>>)
    ensures
        words is Some <==> {
            &&& attribute < layout.attributes@.len()
            &&& layout.array_stride % 4 == 0
            &&& layout.attributes@[attribute as int].offset % 4 == 0
            &&& (vertex * layout.array_stride + layout.attributes@[attribute as int].offset) / 4
                + layout.attributes@[attribute as int].format.spec_components() <= buffer@.len()
        },
        words matches Some(w) ==> w@ == fetched(
            buffer@,
            layout.array_stride,
            layout.attributes@[attribute as int],
            vertex as int,
        ),
{
    if attribute >= layout.attributes.len() {
        return None;
    }
    let a = layout.attributes[attribute];
    if layout.array_stride % 4 != 0 || a.offset % 4 != 0 {
        return None;
    }
    let n = a.format.components();
    assert(vertex as u128 * layout.array_stride as u128 <= 0xFFFF_FFFF_FFFF_FFFF
        * 0xFFFF_FFFF_FFFF_FFFF) by (nonlinear_arith)
        requires
            vertex as u128 <= 0xFFFF_FFFF_FFFF_FFFF,
            layout.array_stride as u128 <= 0xFFFF_FFFF_FFFF_FFFF,
    ;
    let first: u128 = (vertex as u128 * layout.array_stride as u128 + a.offset as u128) / 4;
    let len = buffer.len();
    if first + n as u128 > len as u128 {
        return None;
    }
    let start = first as usize;
    let mut out: Vec<u32> = Vec::new();
    let mut k: usize = 0;
    while k < n
        invariant
            n == a.format.spec_components(),
            k <= n,
            len == buffer@.len(),
            start + n <= len,
            out@ == buffer@.subrange(start as int, start + k),
        decreases n - k,
    {
        out.push(buffer[start + k]);
        assert(out@ =~= buffer@.subrange(start as int, start + k + 1));
        k += 1;
    }
    Some(out)
}

} // verus!
