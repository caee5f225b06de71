//! Small identifiers and enumerations shared by the modules.

use crate::float_bits::{FloatBits, ONE_BITS};
use vstd::prelude::*;

verus! {

/// The number of a frame.
#[derive(Clone, Copy, Debug, PartialEq, Eq, Structural)]
pub struct FrameId(pub u64);

impl FrameId {
    /// The number of the first frame.
    pub fn first() -> (r: Self)
        ensures
            r.0 == 1,
    {
        FrameId(1)
    }

    pub fn as_u64(&self) -> (r: u64)
        ensures
            r == self.0,
    {
        self.0
    }
}

/// The place of a render task in its graph.
#[derive(Clone, Copy, Debug, PartialEq, Eq, Structural)]
pub struct RenderTaskId {
    pub index: u32,
}

/// The index that no task has.
pub const INVALID_TASK_INDEX: u32 = 0xFFFF_FFFF;

impl RenderTaskId {
    /// The identifier that stands for "no task".
    pub open spec fn spec_invalid() -> Self {
        RenderTaskId { index: INVALID_TASK_INDEX }
    }

    #[verifier::when_used_as_spec(spec_invalid)]
    pub fn invalid() -> (r: Self)
        ensures
            r == Self::spec_invalid(),
    {
        RenderTaskId { index: INVALID_TASK_INDEX }
    }
}

/// The pixel formats that the renderer asks of a device.
#[derive(Clone, Copy, Debug, PartialEq, Eq, Structural)]
pub enum ImageFormat {
    R8,
    R16,
    BGRA8,
    RGBAF32,
    RG8,
    RG16,
    RGBAI32,
    RGBA8,
}

/// The greatest width and height of a render task.
pub const MAX_RENDER_TASK_SIZE: i32 = 16384;

/// The greatest width and height of a surface that a filter draws to.
pub const MAX_SURFACE_SIZE: i64 = 4096;

/// The greatest number of nodes in a filter graph.
pub const SVGFE_GRAPH_MAX: usize = 256;

/// A texture of the texture cache.
#[derive(Clone, Copy, Debug, PartialEq, Eq, Structural)]
pub struct CacheTextureId(pub u32);

/// The number that no texture of the cache has.
pub const INVALID_CACHE_TEXTURE: u32 = 0xFFFF_FFFF;

/// How the channels of a texture are swapped when it is read.
#[derive(Clone, Copy, Debug, PartialEq, Eq, Structural)]
pub enum Swizzle {
    Rgba,
    Bgra,
}

/// An image that the embedder owns.
#[derive(Clone, Copy, Debug, PartialEq, Eq, Structural)]
pub struct TextureSourceExternal {
    /// Its place among the images that are resolved late.
    pub index: u32,
    /// Its coordinates run from zero to one, not to its size.
    pub normalized_uvs: bool,
}

/// Where a draw call reads texels from.
#[derive(Clone, Copy, Debug, PartialEq, Eq, Structural)]
pub enum TextureSource {
    /// Nothing is read.
    Invalid,
    /// A texture of the texture cache.
    TextureCache(CacheTextureId, Swizzle),
    /// An image that the embedder owns.
    External(TextureSourceExternal),
    /// The texture with the dither matrix.
    Dither,
    /// A texture that holds nothing but opaque white.
    Dummy,
}

impl TextureSource {
    pub open spec fn spec_uses_normalized_uvs(self) -> bool {
        self matches TextureSource::External(image) && image.normalized_uvs
    }

    /// The coordinates in the texture run from zero to one.
    pub fn uses_normalized_uvs(&self) -> (r: bool)
        ensures
            r == self.spec_uses_normalized_uvs(),
    {
        match self {
            TextureSource::External(image) => image.normalized_uvs,
            _ => false,
        }
    }
}

/// A pass of a frame.
#[derive(Clone, Copy, Debug, PartialEq, Eq, Structural)]
pub struct PassId(pub usize);

/// The number of the last pass that there can be.
pub const MAX_PASS: usize = usize::MAX - 1;

/// A node of the tree of coordinate systems.
#[derive(Clone, Copy, Debug, PartialEq, Eq, Structural)]
pub struct SpatialNodeIndex(pub u32);

/// A transform in the frame's table of transforms; the first is the identity.
#[derive(Clone, Copy, Debug, PartialEq, Eq, Structural)]
pub struct GpuTransformId {
    pub index: u32,
    /// The transform maps axis-aligned rectangles to axis-aligned rectangles.
    pub axis_aligned: bool,
}

impl GpuTransformId {
    pub open spec fn spec_identity() -> Self {
        GpuTransformId { index: 0, axis_aligned: true }
    }

    #[verifier::when_used_as_spec(spec_identity)]
    pub fn identity() -> (r: Self)
        ensures
            r == Self::spec_identity(),
    {
        GpuTransformId { index: 0, axis_aligned: true }
    }
}

/// A command buffer of the frame.
#[derive(Clone, Copy, Debug, PartialEq, Eq, Structural)]
pub struct CommandBufferIndex(pub u32);

/// The four edges of a quad, each with its own answer.
#[derive(Clone, Copy, Debug, PartialEq, Eq, Structural)]
pub struct EdgeMask {
    pub left: bool,
    pub top: bool,
    pub right: bool,
    pub bottom: bool,
}

impl EdgeMask {
    pub open spec fn spec_empty() -> Self {
        EdgeMask { left: false, top: false, right: false, bottom: false }
    }

    #[verifier::when_used_as_spec(spec_empty)]
    pub fn empty() -> (r: Self)
        ensures
            r == Self::spec_empty(),
    {
        EdgeMask { left: false, top: false, right: false, bottom: false }
    }
}

/// How a quad is drawn.
#[derive(Clone, Copy, Debug, PartialEq, Eq, Structural)]
pub struct QuadFlags {
    pub is_opaque: bool,
    pub apply_render_task_clip: bool,
    pub use_aa_segments: bool,
    pub is_mask: bool,
}

impl QuadFlags {
    pub open spec fn spec_empty() -> Self {
        QuadFlags {
            is_opaque: false,
            apply_render_task_clip: false,
            use_aa_segments: false,
            is_mask: false,
        }
    }

    #[verifier::when_used_as_spec(spec_empty)]
    pub fn empty() -> (r: Self)
        ensures
            r == Self::spec_empty(),
    {
        QuadFlags {
            is_opaque: false,
            apply_render_task_clip: false,
            use_aa_segments: false,
            is_mask: false,
        }
    }
}

/// What a quad is filled with.
#[derive(Clone, Copy, Debug, PartialEq, Eq, Structural)]
pub enum PatternKind {
    ColorOrTexture,
    TextureExternal,
    TextureExternalBT709,
    TextureRect,
    Repeat,
    Gradient,
    BoxShadow,
    BoxShadowSuperellipse,
    Yuv,
    YuvTextureExternal,
    YuvTextureExternalBT709,
    YuvTextureRect,
    Backdrop,
    Blend,
    MixBlend,
    Mask,
}

/// Two numbers that a pattern's shader reads.
#[derive(Clone, Copy, Debug, PartialEq, Eq, Structural)]
pub struct PatternShaderInput(pub i32, pub i32);

/// The two kinds of render target.
#[derive(Clone, Copy, Debug, PartialEq, Eq, Structural)]
pub enum RenderTargetKind {
    Color,
    Alpha,
}

/// What a blur reads outside of its source.
#[derive(Clone, Copy, Debug, PartialEq, Eq, Structural)]
pub enum BlurEdgeMode {
    Duplicate,
    Mirror,
}

/// The space in which the quad of a clip is placed.
#[derive(Clone, Copy, Debug, PartialEq, Eq, Structural)]
pub enum ClipSpace {
    Device,
    Primitive,
}

#[derive(Clone, Copy, Debug, PartialEq, Eq, Structural)]
pub enum LineStyle {
    Solid,
    Dotted,
    Dashed,
    Wavy,
}

#[derive(Clone, Copy, Debug, PartialEq, Eq, Structural)]
pub enum LineOrientation {
    Vertical,
    Horizontal,
}

/// A color as the bits of its four channels.
#[derive(Clone, Copy, Debug, PartialEq, Eq, Structural)]
pub struct ColorF {
    pub r: FloatBits,
    pub g: FloatBits,
    pub b: FloatBits,
    pub a: FloatBits,
}

impl ColorF {
    pub open spec fn spec_transparent() -> Self {
        ColorF { r: FloatBits(0), g: FloatBits(0), b: FloatBits(0), a: FloatBits(0) }
    }

    #[verifier::when_used_as_spec(spec_transparent)]
    pub fn transparent() -> (r: Self)
        ensures
            r == Self::spec_transparent(),
    {
        ColorF { r: FloatBits(0), g: FloatBits(0), b: FloatBits(0), a: FloatBits(0) }
    }

    pub open spec fn spec_white() -> Self {
        ColorF {
            r: FloatBits(ONE_BITS),
            g: FloatBits(ONE_BITS),
            b: FloatBits(ONE_BITS),
            a: FloatBits(ONE_BITS),
        }
    }

    #[verifier::when_used_as_spec(spec_white)]
    pub fn white() -> (r: Self)
        ensures
            r == Self::spec_white(),
    {
        ColorF {
            r: FloatBits(ONE_BITS),
            g: FloatBits(ONE_BITS),
            b: FloatBits(ONE_BITS),
            a: FloatBits(ONE_BITS),
        }
    }
}

/// A point whose coordinates are only carried through.
#[derive(Clone, Copy, Debug, PartialEq, Eq, Structural)]
pub struct FloatPoint {
    pub x: FloatBits,
    pub y: FloatBits,
}

} // verus!
