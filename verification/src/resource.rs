//! Handles of the resources that live on the graphics device, and the set of
//! them that a draw call reads and writes.

use vstd::prelude::*;
use crate::matrix::Matrix4;

verus! {

/// The color surface of a window. The windowing subsystem owns it; the
/// renderer only refers to it.
#[derive(Clone, Copy, Debug, PartialEq, Eq)]
pub struct ColorTarget {
    pub id: u64,
}

/// The depth and stencil surface of a window. The windowing subsystem owns
/// it; the renderer only refers to it.
#[derive(Clone, Copy, Debug, PartialEq, Eq)]
pub struct DepthTarget {
    pub id: u64,
}

/// A texture that was built and uploaded elsewhere.
#[derive(Clone, Copy, Debug, PartialEq, Eq)]
pub struct Texture {
    pub id: u64,
}

/// A vertex buffer on the device: which one, and how many vertices it holds.
#[derive(Clone, Copy, Debug, PartialEq, Eq)]
pub struct BufferHandle {
    pub id: u64,
    pub len: usize,
}

/// How a texture is sampled between texels.
#[derive(Clone, Copy, Debug, PartialEq, Eq)]
pub enum FilterMethod {
    Scale,
    Mipmap,
    Bilinear,
    Trilinear,
    Anisotropic(u8),
}

/// What a texture coordinate outside the unit square refers to.
#[derive(Clone, Copy, Debug, PartialEq, Eq)]
pub enum WrapMode {
    Tile,
    Mirror,
    Clamp,
    Border,
}

/// A sampler: filtering and wrapping.
#[derive(Clone, Copy, Debug, PartialEq, Eq)]
pub struct Sampler {
    pub filter: FilterMethod,
    pub wrap: WrapMode,
}

/// A texture seen through a range of its mipmap levels, together with the
/// sampler that reads it.
#[derive(Clone, Copy, Debug, PartialEq, Eq)]
pub struct TextureBinding {
    pub texture: Texture,
    pub min_level: u8,
    pub max_level: u8,
    pub sampler: Sampler,
}

impl TextureBinding {
    /// The binding that the renderer makes for a texture: the base level
    /// alone, unfiltered, tiled.
    pub open spec fn of(texture: Texture) -> TextureBinding {
        TextureBinding {
            texture,
            min_level: 0,
            max_level: 0,
            sampler: Sampler { filter: FilterMethod::Scale, wrap: WrapMode::Tile },
        }
    }

    /// Binds `texture` at its base level with an unfiltered, tiling sampler.
    pub fn new(texture: Texture) -> (binding: TextureBinding)
        ensures
            binding == TextureBinding::of(texture),
    {
        TextureBinding {
            texture,
            min_level: 0,
            max_level: 0,
            sampler: Sampler { filter: FilterMethod::Scale, wrap: WrapMode::Tile },
        }
    }
}

/// Everything a draw call reads and writes besides the pipeline itself.
#[derive(Clone, Copy, Debug, PartialEq, Eq)]
pub struct BoundResources {
    /// The vertex buffer input.
    pub vbuf: BufferHandle,
    /// The projection matrix uniform.
    pub projection: Matrix4,
    /// The view matrix uniform.
    pub view: Matrix4,
    /// The texture with its sampler.
    pub texture: TextureBinding,
    /// The color target.
    pub out_color: ColorTarget,
    /// The depth and stencil target.
    pub out_depth: DepthTarget,
}

} // verus!
