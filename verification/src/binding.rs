//! Bind group layouts and the bind groups made against them.

use vstd::prelude::*;

verus! {

/// The shader stages from which a binding can be read.
#[derive(Clone, Copy, Debug, PartialEq, Eq, Structural)]
pub struct ShaderStages {
    pub vertex: bool,
    pub fragment: bool,
    pub compute: bool,
}

impl ShaderStages {
    /// Visible to the vertex and the fragment stage of a render pipeline.
    pub fn vertex_fragment() -> (stages: ShaderStages)
        ensures
            stages == (ShaderStages { vertex: true, fragment: true, compute: false }),
    {
        ShaderStages { vertex: true, fragment: true, compute: false }
    }

    /// Visible to the fragment stage only.
    pub fn fragment() -> (stages: ShaderStages)
        ensures
            stages == (ShaderStages { vertex: false, fragment: true, compute: false }),
    {
        ShaderStages { vertex: false, fragment: true, compute: false }
    }
}

#[derive(Clone, Copy, Debug, PartialEq, Eq, Structural)]
pub enum BufferBindingType {
    Uniform,
    Storage { read_only: bool },
}

#[derive(Clone, Copy, Debug, PartialEq, Eq, Structural)]
pub enum TextureSampleType {
    Float { filterable: bool },
    Depth,
    Sint,
    Uint,
}

#[derive(Clone, Copy, Debug, PartialEq, Eq, Structural)]
pub enum TextureViewDimension {
    D1,
    D2,
    D2Array,
    Cube,
    CubeArray,
    D3,
}

/// What a slot of a bind group layout accepts.
#[derive(Clone, Copy, Debug, PartialEq, Eq)]
pub enum BindingType {
    Buffer { ty: BufferBindingType, has_dynamic_offset: bool, min_binding_size: Option<u64> },
    Sampler { filtering: bool, comparison: bool },
    Texture {
        sample_type: TextureSampleType,
        view_dimension: TextureViewDimension,
        multisampled: bool,
    },
}

/// One slot of a bind group layout.
#[derive(Clone, Copy, Debug, PartialEq, Eq)]
pub struct BindGroupLayoutEntry {
    pub binding: u32,
    pub visibility: ShaderStages,
    pub ty: BindingType,
    pub count: Option<u32>,
}

/// A bind group layout: its label and its slots, in order.
#[derive(Clone, Debug, PartialEq, Eq)]
pub struct BindGroupLayoutDescriptor {
    pub label: &'static str,
    pub entries: Vec<BindGroupLayoutEntry>,
}

/// The kind of resource bound to a slot. A buffer is always bound whole.
#[derive(Clone, Copy, Debug, PartialEq, Eq, Structural)]
pub enum BindingResource {
    Buffer,
    Sampler,
    TextureView,
}

/// One slot of a bind group.
#[derive(Clone, Copy, Debug, PartialEq, Eq, Structural)]
pub struct BindGroupEntry {
    pub binding: u32,
    pub resource: BindingResource,
}

/// A bind group: its label and what it binds, in order.
#[derive(Clone, Debug, PartialEq, Eq)]
pub struct BindGroupDescriptor {
    pub label: &'static str,
    pub entries: Vec<BindGroupEntry>,
}

/// How a buffer may be used.
#[derive(Clone, Copy, Debug, PartialEq, Eq, Structural)]
pub struct BufferUsages {
    pub copy_dst: bool,
    pub index: bool,
    pub vertex: bool,
    pub uniform: bool,
}

/// A buffer together with the bytes it is created with.
#[derive(Clone, Debug, PartialEq, Eq)]
pub struct BufferInitDescriptor {
    pub label: &'static str,
    pub contents: Vec<u8>,
    pub usage: BufferUsages,
}

/// The layout slot for a uniform block that both render stages read: binding
/// 0, a whole uniform buffer without dynamic offset.
pub open spec fn uniform_entry() -> BindGroupLayoutEntry {
    BindGroupLayoutEntry {
        binding: 0,
        visibility: ShaderStages { vertex: true, fragment: true, compute: false },
        ty: BindingType::Buffer {
            ty: BufferBindingType::Uniform,
            has_dynamic_offset: false,
            min_binding_size: None,
        },
        count: None,
    }
}

/// A resource of kind `resource` may be bound where the layout asks for `ty`.
pub open spec fn resource_fits(ty: BindingType, resource: BindingResource) -> bool {
    match ty {
        BindingType::Buffer { .. } => resource == BindingResource::Buffer,
        BindingType::Sampler { .. } => resource == BindingResource::Sampler,
        BindingType::Texture { .. } => resource == BindingResource::TextureView,
    }
}

/// No binding number occurs twice.
pub open spec fn distinct_bindings(entries: Seq<BindGroupLayoutEntry>) -> bool {
    forall|i: int, j: int|
        0 <= i < j < entries.len() ==> (#[trigger] entries[i]).binding != (
        #[trigger] entries[j]).binding
}

/// The group fills every slot of the layout, in the layout's order, with a
/// resource of the kind that the slot accepts.
pub open spec fn group_matches(
    layout: Seq<BindGroupLayoutEntry>,
    group: Seq<BindGroupEntry>,
) -> bool {
    &&& layout.len() == group.len()
    &&& forall|i: int|
        0 <= i < layout.len() ==> (#[trigger] group[i]).binding == layout[i].binding
            && resource_fits(layout[i].ty, group[i].resource)
}

impl BindGroupLayoutDescriptor {
    /// The layout of a bind group that holds one uniform block.
    pub fn uniform(label: &'static str) -> (layout: BindGroupLayoutDescriptor)
        ensures
            layout.label == label,
            layout.entries@ == seq![uniform_entry()],
            layout.wf(),
    {
        let entry = BindGroupLayoutEntry {
            binding: 0,
            visibility: ShaderStages::vertex_fragment(),
            ty: BindingType::Buffer {
                ty: BufferBindingType::Uniform,
                has_dynamic_offset: false,
                min_binding_size: None,
            },
            count: None,
        };
        BindGroupLayoutDescriptor { label, entries: vec![entry] }
    }

    /// A layout is well formed when its binding numbers are distinct.
    pub open spec fn wf(&self) -> bool {
        distinct_bindings(self.entries@)
    }

    /// Whether the binding numbers are distinct.
    pub fn is_wf(&self) -> (ok: bool)
        ensures
            ok == self.wf(),
    {
        let n = self.entries.len();
        let mut j: usize = 0;
        while j < n
            invariant
                n == self.entries@.len(),
                j <= n,
                distinct_bindings(self.entries@.subrange(0, j as int)),
            decreases n - j,
        {
            let mut i: usize = 0;
            while i < j
                invariant
                    n == self.entries@.len(),
                    i <= j < n,
                    forall|k: int|
                        0 <= k < i ==> (#[trigger] self.entries@[k]).binding
                            != self.entries@[j as int].binding,
                decreases j - i,
            {
                if self.entries[i].binding == self.entries[j].binding {
                    return false;
                }
                i += 1;
            }
            proof {
                let before = self.entries@.subrange(0, j as int);
                let after = self.entries@.subrange(0, j as int + 1);
                assert forall|a: int, b: int| 0 <= a < b < after.len() implies (
                #[trigger] after[a]).binding != (#[trigger] after[b]).binding by {
                    if b < j {
                        assert(before[a] == after[a] && before[b] == after[b]);
                    } else {
                        assert(after[a] == self.entries@[a]);
                    }
                }
            }
            j += 1;
        }
        assert(self.entries@.subrange(0, n as int) =~= self.entries@);
        true
    }

    /// Whether `group` fills this layout slot by slot.
    pub fn accepts(&self, group: &BindGroupDescriptor) -> (ok: bool)
        ensures
            ok == group_matches(self.entries@, group.entries@),
    {
        let n = self.entries.len();
        if group.entries.len() != n {
            return false;
        }
        let mut i: usize = 0;
        while i < n
            invariant
                n == self.entries@.len(),
                n == group.entries@.len(),
                i <= n,
                forall|k: int|
                    0 <= k < i ==> (#[trigger] group.entries@[k]).binding
                        == self.entries@[k].binding && resource_fits(
                        self.entries@[k].ty,
                        group.entries@[k].resource,
                    ),
            decreases n - i,
        {
            let slot = self.entries[i];
            let bound = group.entries[i];
            let fits = match slot.ty {
                BindingType::Buffer { .. } => matches!(bound.resource, BindingResource::Buffer),
                BindingType::Sampler { .. } => matches!(bound.resource, BindingResource::Sampler),
                BindingType::Texture { .. } => matches!(
                    bound.resource,
                    BindingResource::TextureView
                ),
            };
            if bound.binding != slot.binding || !fits {
                return false;
            }
            i += 1;
        }
        true
    }
}

impl BindGroupDescriptor {
    /// The bind group that binds one whole buffer at binding 0.
    pub fn uniform(label: &'static str) -> (group: BindGroupDescriptor)
        ensures
            group.label == label,
            group.entries@ == seq![
                (BindGroupEntry { binding: 0, resource: BindingResource::Buffer }),
            ],
            group_matches(seq![uniform_entry()], group.entries@),
    {
        let entry = BindGroupEntry { binding: 0, resource: BindingResource::Buffer };
        BindGroupDescriptor { label, entries: vec![entry] }
    }
}

} // verus!
