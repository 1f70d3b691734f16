//! Textures that are sized to the surface.

use vstd::prelude::*;
use crate::binding::{
    BindGroupLayoutDescriptor, BindGroupLayoutEntry, BindingType, ShaderStages, TextureSampleType,
    TextureViewDimension,
};
use crate::pipeline::{CompareFunction, ConfigError, SurfaceConfiguration, TextureFormat};

verus! {

/// How a texture may be used.
#[derive(Clone, Copy, Debug, PartialEq, Eq, Structural)]
pub struct TextureUsages {
    pub copy_dst: bool,
    pub texture_binding: bool,
    pub render_attachment: bool,
}

/// A two-dimensional texture with one layer, one mip level and one sample per
/// pixel, and the comparison of the sampler that reads it.
#[derive(Clone, Copy, Debug, PartialEq, Eq)]
pub struct Texture {
    pub label: &'static str,
    pub width: u32,
    pub height: u32,
    pub format: TextureFormat,
    pub usage: TextureUsages,
    pub compare: Option<CompareFunction>,
}

/// The format of every depth buffer.
pub const DEPTH_FORMAT: TextureFormat = TextureFormat::Depth32Float;

/// The slot for a material's colour texture: binding 0, read by the fragment
/// stage as a two-dimensional filterable texture with one sample per pixel.
pub open spec fn color_texture_entry() -> BindGroupLayoutEntry {
    BindGroupLayoutEntry {
        binding: 0,
        visibility: ShaderStages { vertex: false, fragment: true, compute: false },
        ty: BindingType::Texture {
            sample_type: TextureSampleType::Float { filterable: true },
            view_dimension: TextureViewDimension::D2,
            multisampled: false,
        },
        count: None,
    }
}

/// The slot for a material's sampler: binding 1, read by the fragment stage
/// as a filtering sampler that does not compare.
pub open spec fn color_sampler_entry() -> BindGroupLayoutEntry {
    BindGroupLayoutEntry {
        binding: 1,
        visibility: ShaderStages { vertex: false, fragment: true, compute: false },
        ty: BindingType::Sampler { filtering: true, comparison: false },
        count: None,
    }
}

impl Texture {
    /// The layout of a material's bind group: its colour texture and the
    /// sampler that reads it.
    pub fn bind_group_layout() -> (layout: BindGroupLayoutDescriptor)
        ensures
            layout.label@ == "texture_bind_group_layout"@,
            layout.entries@ == seq![color_texture_entry(), color_sampler_entry()],
            layout.wf(),
    {
        let entries = vec![
            BindGroupLayoutEntry {
                binding: 0,
                visibility: ShaderStages::fragment(),
                ty: BindingType::Texture {
                    sample_type: TextureSampleType::Float { filterable: true },
                    view_dimension: TextureViewDimension::D2,
                    multisampled: false,
                },
                count: None,
            },
            BindGroupLayoutEntry {
                binding: 1,
                visibility: ShaderStages::fragment(),
                ty: BindingType::Sampler { filtering: true, comparison: false },
                count: None,
            },
        ];
        assert(entries@ =~= seq![color_texture_entry(), color_sampler_entry()]);
        BindGroupLayoutDescriptor { label: "texture_bind_group_layout", entries }
    }

    /// `self` is the depth texture of a surface with configuration `config`:
    /// as large as the surface, in the depth format, usable as the depth
    /// attachment of a pass and as a sampled texture, read through a sampler
    /// that compares with less-or-equal.
    pub open spec fn is_depth_texture(&self, config: SurfaceConfiguration, label: &str) -> bool {
        &&& self.label@ == label@
        &&& self.width == config.width
        &&& self.height == config.height
        &&& self.format == TextureFormat::Depth32Float
        &&& self.usage == (TextureUsages {
            copy_dst: false,
            texture_binding: true,
            render_attachment: true,
        })
        &&& self.compare == Some(CompareFunction::LessEqual)
    }

    /// The depth texture for a surface, or the reason why the surface can have
    /// none: a surface without rows or without columns.
    pub fn create_depth_texture(config: &SurfaceConfiguration, label: &'static str) -> (made:
        Result<Texture, ConfigError>)
        ensures
            made is Ok <==> config.wf(),
            made matches Ok(texture) ==> texture.is_depth_texture(*config, label),
            made matches Err(e) ==> e == (if config.height == 0 {
                ConfigError::ZeroHeight
            } else {
                ConfigError::ZeroWidth
            }),
    {
        match config.validate() {
            Err(e) => Err(e),
            Ok(()) => Ok(
                Texture {
                    label,
                    width: config.width,
                    height: config.height,
                    format: DEPTH_FORMAT,
                    usage: TextureUsages {
                        copy_dst: false,
                        texture_binding: true,
                        render_attachment: true,
                    },
                    compare: Some(CompareFunction::LessEqual),
                },
            ),
        }
    }
}

} // verus!
