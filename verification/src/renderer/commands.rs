//! What the renderer asks of the device.

use crate::internal_types::{ColorF, RenderTargetKind};
use crate::renderer::textures::{Binding, SourceTexture, TextureId};
use crate::renderer::ImageBufferKind;
use vstd::prelude::*;

verus! {

/// A rectangle of pixels, whose height may be negative for one that is upside down.
#[derive(Clone, Copy, Debug, PartialEq, Eq, Structural)]
pub struct IntRect {
    pub x: i32,
    pub y: i32,
    pub width: i32,
    pub height: i32,
}

/// Some of the instances of a frame.
#[derive(Clone, Copy, Debug, PartialEq, Eq, Structural)]
pub struct InstanceRange {
    pub first: usize,
    pub count: usize,
}

impl InstanceRange {
    pub open spec fn spec_is_empty(self) -> bool {
        self.count == 0
    }

    pub fn is_empty(&self) -> (r: bool)
        ensures
            r == self.spec_is_empty(),
    {
        self.count == 0
    }
}

/// The layout of the instances of a draw call.
#[derive(Clone, Copy, Debug, PartialEq, Eq, Structural)]
pub enum VertexArrayKind {
    Primitive,
    Blur,
    Clip,
}

/// Where a shader reads from.
#[derive(Clone, Copy, Debug, PartialEq, Eq, Structural)]
pub enum TextureSampler {
    Color0,
    Color1,
    Color2,
    CacheA8,
    CacheRGBA8,
    ResourceCache,
    ClipScrollNodes,
    RenderTasks,
    Dither,
    /// The alpha targets of the first pass, which every later pass can read.
    SharedCacheA8,
}

impl TextureSampler {
    pub open spec fn spec_color(n: int) -> Self {
        if n == 0 {
            TextureSampler::Color0
        } else if n == 1 {
            TextureSampler::Color1
        } else {
            TextureSampler::Color2
        }
    }

    /// One of the three color samplers.
    pub fn color(n: usize) -> (r: Self)
        requires
            n < 3,
        ensures
            r == Self::spec_color(n as int),
    {
        match n {
            0 => TextureSampler::Color0,
            1 => TextureSampler::Color1,
            _ => TextureSampler::Color2,
        }
    }

    pub open spec fn spec_slot(self) -> usize {
        match self {
            TextureSampler::Color0 => 0,
            TextureSampler::Color1 => 1,
            TextureSampler::Color2 => 2,
            TextureSampler::CacheA8 => 3,
            TextureSampler::CacheRGBA8 => 4,
            TextureSampler::ResourceCache => 5,
            TextureSampler::ClipScrollNodes => 6,
            TextureSampler::RenderTasks => 7,
            TextureSampler::Dither => 8,
            TextureSampler::SharedCacheA8 => 9,
        }
    }

    /// The texture unit of the sampler.
    pub fn slot(self) -> (r: usize)
        ensures
            r == self.spec_slot(),
    {
        match self {
            TextureSampler::Color0 => 0,
            TextureSampler::Color1 => 1,
            TextureSampler::Color2 => 2,
            TextureSampler::CacheA8 => 3,
            TextureSampler::CacheRGBA8 => 4,
            TextureSampler::ResourceCache => 5,
            TextureSampler::ClipScrollNodes => 6,
            TextureSampler::RenderTasks => 7,
            TextureSampler::Dither => 8,
            TextureSampler::SharedCacheA8 => 9,
        }
    }
}

/// No two samplers share a texture unit.
pub proof fn samplers_have_their_own_slots(a: TextureSampler, b: TextureSampler)
    requires
        a.spec_slot() == b.spec_slot(),
    ensures
        a == b,
{
}

/// How a rectangle looks after its transform.
#[derive(Clone, Copy, Debug, PartialEq, Eq, Structural)]
pub enum TransformedRectKind {
    AxisAligned,
    Complex,
}

/// The primitives that are drawn by a shader of their own.
#[derive(Clone, Copy, Debug, PartialEq, Eq, Structural)]
pub enum PrimShader {
    Rectangle,
    RectangleClip,
    TextRun,
    TextRunSubpixelBackgroundPass1,
    Image(ImageBufferKind),
    /// By place in the list of YUV shaders.
    YuvImage(usize),
    BorderCorner,
    BorderEdge,
    Gradient,
    AngleGradient,
    RadialGradient,
    Line,
}

/// A shader of the renderer.
#[derive(Clone, Copy, Debug, PartialEq, Eq, Structural)]
pub enum Shader {
    CsTextRun,
    CsLine,
    CsBlurA8,
    CsBlurRgba8,
    BrushMaskCorner,
    BrushMaskRoundedRect,
    /// An image, for the opaque pass or the one with blending.
    BrushImage { target: RenderTargetKind, alpha: bool },
    CsClipRectangle,
    CsClipImage,
    CsClipBorder,
    Prim { prim: PrimShader, transform: TransformedRectKind },
    PsBlend,
    PsHwComposite,
    PsSplitComposite,
    PsComposite,
}

/// What is measured on the device under one label.
#[derive(Clone, Copy, Debug, PartialEq, Eq, Structural)]
pub enum GpuTag {
    BrushMask,
    BrushImage,
    CacheClip,
    CacheTextRun,
    CacheLine,
    SetupTarget,
    SetupData,
    PrimRect,
    PrimLine,
    PrimImage,
    PrimYuvImage,
    PrimBlend,
    PrimHwComposite,
    PrimSplitComposite,
    PrimComposite,
    PrimTextRun,
    PrimGradient,
    PrimAngleGradient,
    PrimRadialGradient,
    PrimBorderCorner,
    PrimBorderEdge,
    Blur,
}

impl GpuTag {
    pub open spec fn spec_label(self) -> Seq<char> {
        match self {
            GpuTag::BrushMask => "B_Mask"@,
            GpuTag::BrushImage => "B_Image"@,
            GpuTag::CacheClip => "C_Clip"@,
            GpuTag::CacheTextRun => "C_TextRun"@,
            GpuTag::CacheLine => "C_Line"@,
            GpuTag::SetupTarget => "target"@,
            GpuTag::SetupData => "data init"@,
            GpuTag::PrimRect => "Rect"@,
            GpuTag::PrimLine => "Line"@,
            GpuTag::PrimImage => "Image"@,
            GpuTag::PrimYuvImage => "YuvImage"@,
            GpuTag::PrimBlend => "Blend"@,
            GpuTag::PrimHwComposite => "HwComposite"@,
            GpuTag::PrimSplitComposite => "SplitComposite"@,
            GpuTag::PrimComposite => "Composite"@,
            GpuTag::PrimTextRun => "TextRun"@,
            GpuTag::PrimGradient => "Gradient"@,
            GpuTag::PrimAngleGradient => "AngleGradient"@,
            GpuTag::PrimRadialGradient => "RadialGradient"@,
            GpuTag::PrimBorderCorner => "BorderCorner"@,
            GpuTag::PrimBorderEdge => "BorderEdge"@,
            GpuTag::Blur => "Blur"@,
        }
    }

    pub fn label(&self) -> (r: &'static str)
        ensures
            r@ == self.spec_label(),
    {
        match self {
            GpuTag::BrushMask => "B_Mask",
            GpuTag::BrushImage => "B_Image",
            GpuTag::CacheClip => "C_Clip",
            GpuTag::CacheTextRun => "C_TextRun",
            GpuTag::CacheLine => "C_Line",
            GpuTag::SetupTarget => "target",
            GpuTag::SetupData => "data init",
            GpuTag::PrimRect => "Rect",
            GpuTag::PrimLine => "Line",
            GpuTag::PrimImage => "Image",
            GpuTag::PrimYuvImage => "YuvImage",
            GpuTag::PrimBlend => "Blend",
            GpuTag::PrimHwComposite => "HwComposite",
            GpuTag::PrimSplitComposite => "SplitComposite",
            GpuTag::PrimComposite => "Composite",
            GpuTag::PrimTextRun => "TextRun",
            GpuTag::PrimGradient => "Gradient",
            GpuTag::PrimAngleGradient => "AngleGradient",
            GpuTag::PrimRadialGradient => "RadialGradient",
            GpuTag::PrimBorderCorner => "BorderCorner",
            GpuTag::PrimBorderEdge => "BorderEdge",
            GpuTag::Blur => "Blur",
        }
    }
}

/// The pass whose pixels are counted.
#[derive(Clone, Copy, Debug, PartialEq, Eq, Structural)]
pub enum GpuSampler {
    AlphaTargets,
    OpaquePass,
    TransparentPass,
}

/// How new pixels are combined with those that are there.
#[derive(Clone, Copy, Debug, PartialEq, Eq, Structural)]
pub enum BlendFunc {
    PremultipliedAlpha,
    PremultipliedDestOut,
    SubpixelConstantTextColor(ColorF),
    SubpixelPass0,
    SubpixelPass1,
    SubpixelWithBgColorPass0,
    SubpixelWithBgColorPass1,
    SubpixelWithBgColorPass2,
    Max,
    Multiply,
}

/// A projection from pixels to the space of the device, over a width and a height. The
/// screen has its first row at the bottom.
#[derive(Clone, Copy, Debug, PartialEq, Eq, Structural)]
pub struct OrthoProjection {
    pub width: u32,
    pub height: u32,
    pub is_screen: bool,
}

/// One layer of a texture.
#[derive(Clone, Copy, Debug, PartialEq, Eq, Structural)]
pub struct TextureLayer {
    pub texture: TextureId,
    pub layer: i32,
}

/// What is drawn to or read from; nothing stands for the screen.
pub type DrawTarget = Option<TextureLayer>;

/// The colors of the debugging aids.
#[derive(Clone, Copy, Debug, PartialEq, Eq, Structural)]
pub enum DebugColor {
    Black,
    Grey,
    Salmon,
    Green,
    Red,
    Blue,
}

/// One request to the device.
#[derive(Clone, Copy, Debug, PartialEq, Eq, Structural)]
pub enum DrawCommand {
    Marker(GpuTag),
    AddSampler(GpuSampler),
    DoneSampler,
    BindDrawTarget { target: DrawTarget, width: u32, height: u32 },
    BindReadTarget { target: DrawTarget },
    /// The depth test is on or off.
    Depth(bool),
    /// Depth is written or not.
    DepthWrite(bool),
    /// Pixels at the same depth are drawn too.
    DepthFuncLessEqual,
    Stencil(bool),
    Scissor(bool),
    SetBlend(bool),
    SetBlendFunc(BlendFunc),
    /// Clears to a color and, where asked for, to the farthest depth.
    ClearTarget { color: Option<ColorF>, depth: bool },
    ClearTargetRect { color: Option<ColorF>, depth: bool, rect: IntRect },
    BindShader { shader: Shader, projection: OrthoProjection, mode: i32 },
    BindTexture { sampler: TextureSampler, binding: Binding },
    BindVao(VertexArrayKind),
    UploadInstances(InstanceRange),
    /// Draws a quad for each of the instances that were uploaded.
    DrawInstanced { count: usize },
    /// Draws the instances that were uploaded once more, in another pass.
    DrawAgain { count: usize },
    /// Draws a single quad.
    DrawOne,
    Blit { src: IntRect, dest: IntRect },
    DebugRect { rect: IntRect, debug_color: DebugColor },
    /// Makes a frame buffer for a texture of the embedder.
    CreateFbo { texture: u32 },
    BindExternalDrawTarget { texture: u32 },
    DeleteFbo { texture: u32 },
    UnlockOutput { pipeline: u64 },
    /// Storage for the render targets of a pass.
    InitTargets {
        targets: TextureId,
        kind: RenderTargetKind,
        width: u32,
        height: u32,
        layers: i32,
    },
}

/// A texture for each color sampler.
#[derive(Clone, Copy, Debug, PartialEq, Eq, Structural)]
pub struct BatchTextures {
    pub color0: SourceTexture,
    pub color1: SourceTexture,
    pub color2: SourceTexture,
}

impl BatchTextures {
    pub open spec fn spec_no_texture() -> Self {
        BatchTextures {
            color0: SourceTexture::Invalid,
            color1: SourceTexture::Invalid,
            color2: SourceTexture::Invalid,
        }
    }

    #[verifier::when_used_as_spec(spec_no_texture)]
    pub fn no_texture() -> (r: Self)
        ensures
            r == Self::spec_no_texture(),
    {
        BatchTextures {
            color0: SourceTexture::Invalid,
            color1: SourceTexture::Invalid,
            color2: SourceTexture::Invalid,
        }
    }

    pub open spec fn spec_color(texture: SourceTexture) -> Self {
        BatchTextures { color0: texture, ..BatchTextures::spec_no_texture() }
    }

    /// Only the first color sampler reads something.
    #[verifier::when_used_as_spec(spec_color)]
    pub fn color(texture: SourceTexture) -> (r: Self)
        ensures
            r == Self::spec_color(texture),
    {
        BatchTextures {
            color0: texture,
            color1: SourceTexture::Invalid,
            color2: SourceTexture::Invalid,
        }
    }
}

} // verus!
