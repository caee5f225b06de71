//! The set of all shaders, and which of them draws a batch.

use crate::internal_types::PatternKind;
use crate::renderer::shade::composite::{
    add_shader, composite_plan, CompositeFeatures, CompositeSurfaceFormat, CompositorShaders,
};
use crate::renderer::shade::loader::{
    is_available, shaders_add_up, LazilyCompiledShader, PendingShadersToPrecache, ShaderDesc,
    ShaderFeatures, ShaderHandle, ShaderKind, ShaderLoader, ShaderPrecacheFlags, ShaderStep,
    VertexArrayKind,
};
use crate::renderer::shade::{
    buffer_feature, get_feature, get_shader_feature_flags, has_platform_support,
    short_lists_are_sorted, spec_feature_flags, DeviceCapabilities, GlType, ImageBufferKind, ShaderError, ShaderFeature,
    ShaderFeatureFlags, ShaderName, TextureExternalVersion, IMAGE_BUFFER_KINDS,
};
use vstd::prelude::*;

verus! {

/// What the embedder allows the shaders to use.
#[derive(Clone, Copy, Debug, PartialEq, Eq, Structural)]
pub struct ShaderOptions {
    pub allow_dual_source_blending: bool,
    pub allow_advanced_blend_equation: bool,
    pub enable_dithering: bool,
}

/// The shaders that are there once. Some of them only on some devices.
#[derive(Clone, Copy, Debug, PartialEq, Eq, Structural)]
pub enum ShaderSlot {
    CsBlurRgba8,
    CsSvgFilterNode,
    PsMask,
    PsMaskFast,
    PsMaskSuperellipse,
    CsScaleTexture2D,
    CsScaleTextureRect,
    CsScaleTextureExternal,
    CsScaleTextureExternalBT709,
    PsQuadTextured,
    PsQuadTexturedExternal,
    PsQuadTexturedExternalBT709,
    PsQuadTexturedRect,
    PsQuadRepeat,
    PsQuadGradient,
    PsQuadBoxShadow,
    PsQuadBoxShadowSuperellipse,
    PsQuadYuv,
    PsQuadYuvExternal,
    PsQuadYuvExternalBT709,
    PsQuadYuvRect,
    PsQuadBackdrop,
    PsQuadBlend,
    PsQuadMixBlend,
    PsSplitComposite,
    PsClear,
    PsCopy,
    CsLineDecoration,
    CsBorderSegment,
    CsBorderSolid,
    CsBorderSegmentSuperellipse,
    CsBorderSolidSuperellipse,
}

/// The number of shaders that are there once.
pub const SHADER_SLOTS: usize = 32;

/// How many of them are made before the shaders for text.
pub const SLOTS_BEFORE_TEXT: usize = 9;

impl ShaderSlot {
    /// The place in the order in which the shaders are made.
    pub open spec fn spec_index(self) -> int {
        match self {
            ShaderSlot::CsBlurRgba8 => 0,
            ShaderSlot::CsSvgFilterNode => 1,
            ShaderSlot::PsMask => 2,
            ShaderSlot::PsMaskFast => 3,
            ShaderSlot::PsMaskSuperellipse => 4,
            ShaderSlot::CsScaleTexture2D => 5,
            ShaderSlot::CsScaleTextureRect => 6,
            ShaderSlot::CsScaleTextureExternal => 7,
            ShaderSlot::CsScaleTextureExternalBT709 => 8,
            ShaderSlot::PsQuadTextured => 9,
            ShaderSlot::PsQuadTexturedExternal => 10,
            ShaderSlot::PsQuadTexturedExternalBT709 => 11,
            ShaderSlot::PsQuadTexturedRect => 12,
            ShaderSlot::PsQuadRepeat => 13,
            ShaderSlot::PsQuadGradient => 14,
            ShaderSlot::PsQuadBoxShadow => 15,
            ShaderSlot::PsQuadBoxShadowSuperellipse => 16,
            ShaderSlot::PsQuadYuv => 17,
            ShaderSlot::PsQuadYuvExternal => 18,
            ShaderSlot::PsQuadYuvExternalBT709 => 19,
            ShaderSlot::PsQuadYuvRect => 20,
            ShaderSlot::PsQuadBackdrop => 21,
            ShaderSlot::PsQuadBlend => 22,
            ShaderSlot::PsQuadMixBlend => 23,
            ShaderSlot::PsSplitComposite => 24,
            ShaderSlot::PsClear => 25,
            ShaderSlot::PsCopy => 26,
            ShaderSlot::CsLineDecoration => 27,
            ShaderSlot::CsBorderSegment => 28,
            ShaderSlot::CsBorderSolid => 29,
            ShaderSlot::CsBorderSegmentSuperellipse => 30,
            ShaderSlot::CsBorderSolidSuperellipse => 31,
        }
    }

    pub fn index(self) -> (r: usize)
        ensures
            r == self.spec_index(),
            r < SHADER_SLOTS,
    {
        match self {
            ShaderSlot::CsBlurRgba8 => 0,
            ShaderSlot::CsSvgFilterNode => 1,
            ShaderSlot::PsMask => 2,
            ShaderSlot::PsMaskFast => 3,
            ShaderSlot::PsMaskSuperellipse => 4,
            ShaderSlot::CsScaleTexture2D => 5,
            ShaderSlot::CsScaleTextureRect => 6,
            ShaderSlot::CsScaleTextureExternal => 7,
            ShaderSlot::CsScaleTextureExternalBT709 => 8,
            ShaderSlot::PsQuadTextured => 9,
            ShaderSlot::PsQuadTexturedExternal => 10,
            ShaderSlot::PsQuadTexturedExternalBT709 => 11,
            ShaderSlot::PsQuadTexturedRect => 12,
            ShaderSlot::PsQuadRepeat => 13,
            ShaderSlot::PsQuadGradient => 14,
            ShaderSlot::PsQuadBoxShadow => 15,
            ShaderSlot::PsQuadBoxShadowSuperellipse => 16,
            ShaderSlot::PsQuadYuv => 17,
            ShaderSlot::PsQuadYuvExternal => 18,
            ShaderSlot::PsQuadYuvExternalBT709 => 19,
            ShaderSlot::PsQuadYuvRect => 20,
            ShaderSlot::PsQuadBackdrop => 21,
            ShaderSlot::PsQuadBlend => 22,
            ShaderSlot::PsQuadMixBlend => 23,
            ShaderSlot::PsSplitComposite => 24,
            ShaderSlot::PsClear => 25,
            ShaderSlot::PsCopy => 26,
            ShaderSlot::CsLineDecoration => 27,
            ShaderSlot::CsBorderSegment => 28,
            ShaderSlot::CsBorderSolid => 29,
            ShaderSlot::CsBorderSegmentSuperellipse => 30,
            ShaderSlot::CsBorderSolidSuperellipse => 31,
        }
    }

    /// The shader at a place.
    pub open spec fn spec_at(index: int) -> Self {
        if index == 0 {
            ShaderSlot::CsBlurRgba8
        } else if index == 1 {
            ShaderSlot::CsSvgFilterNode
        } else if index == 2 {
            ShaderSlot::PsMask
        } else if index == 3 {
            ShaderSlot::PsMaskFast
        } else if index == 4 {
            ShaderSlot::PsMaskSuperellipse
        } else if index == 5 {
            ShaderSlot::CsScaleTexture2D
        } else if index == 6 {
            ShaderSlot::CsScaleTextureRect
        } else if index == 7 {
            ShaderSlot::CsScaleTextureExternal
        } else if index == 8 {
            ShaderSlot::CsScaleTextureExternalBT709
        } else if index == 9 {
            ShaderSlot::PsQuadTextured
        } else if index == 10 {
            ShaderSlot::PsQuadTexturedExternal
        } else if index == 11 {
            ShaderSlot::PsQuadTexturedExternalBT709
        } else if index == 12 {
            ShaderSlot::PsQuadTexturedRect
        } else if index == 13 {
            ShaderSlot::PsQuadRepeat
        } else if index == 14 {
            ShaderSlot::PsQuadGradient
        } else if index == 15 {
            ShaderSlot::PsQuadBoxShadow
        } else if index == 16 {
            ShaderSlot::PsQuadBoxShadowSuperellipse
        } else if index == 17 {
            ShaderSlot::PsQuadYuv
        } else if index == 18 {
            ShaderSlot::PsQuadYuvExternal
        } else if index == 19 {
            ShaderSlot::PsQuadYuvExternalBT709
        } else if index == 20 {
            ShaderSlot::PsQuadYuvRect
        } else if index == 21 {
            ShaderSlot::PsQuadBackdrop
        } else if index == 22 {
            ShaderSlot::PsQuadBlend
        } else if index == 23 {
            ShaderSlot::PsQuadMixBlend
        } else if index == 24 {
            ShaderSlot::PsSplitComposite
        } else if index == 25 {
            ShaderSlot::PsClear
        } else if index == 26 {
            ShaderSlot::PsCopy
        } else if index == 27 {
            ShaderSlot::CsLineDecoration
        } else if index == 28 {
            ShaderSlot::CsBorderSegment
        } else if index == 29 {
            ShaderSlot::CsBorderSolid
        } else if index == 30 {
            ShaderSlot::CsBorderSegmentSuperellipse
        } else {
            ShaderSlot::CsBorderSolidSuperellipse
        }
    }

    pub fn at(index: usize) -> (r: Self)
        requires
            index < SHADER_SLOTS,
        ensures
            r == Self::spec_at(index as int),
            r.spec_index() == index,
    {
        if index == 0 {
            ShaderSlot::CsBlurRgba8
        } else if index == 1 {
            ShaderSlot::CsSvgFilterNode
        } else if index == 2 {
            ShaderSlot::PsMask
        } else if index == 3 {
            ShaderSlot::PsMaskFast
        } else if index == 4 {
            ShaderSlot::PsMaskSuperellipse
        } else if index == 5 {
            ShaderSlot::CsScaleTexture2D
        } else if index == 6 {
            ShaderSlot::CsScaleTextureRect
        } else if index == 7 {
            ShaderSlot::CsScaleTextureExternal
        } else if index == 8 {
            ShaderSlot::CsScaleTextureExternalBT709
        } else if index == 9 {
            ShaderSlot::PsQuadTextured
        } else if index == 10 {
            ShaderSlot::PsQuadTexturedExternal
        } else if index == 11 {
            ShaderSlot::PsQuadTexturedExternalBT709
        } else if index == 12 {
            ShaderSlot::PsQuadTexturedRect
        } else if index == 13 {
            ShaderSlot::PsQuadRepeat
        } else if index == 14 {
            ShaderSlot::PsQuadGradient
        } else if index == 15 {
            ShaderSlot::PsQuadBoxShadow
        } else if index == 16 {
            ShaderSlot::PsQuadBoxShadowSuperellipse
        } else if index == 17 {
            ShaderSlot::PsQuadYuv
        } else if index == 18 {
            ShaderSlot::PsQuadYuvExternal
        } else if index == 19 {
            ShaderSlot::PsQuadYuvExternalBT709
        } else if index == 20 {
            ShaderSlot::PsQuadYuvRect
        } else if index == 21 {
            ShaderSlot::PsQuadBackdrop
        } else if index == 22 {
            ShaderSlot::PsQuadBlend
        } else if index == 23 {
            ShaderSlot::PsQuadMixBlend
        } else if index == 24 {
            ShaderSlot::PsSplitComposite
        } else if index == 25 {
            ShaderSlot::PsClear
        } else if index == 26 {
            ShaderSlot::PsCopy
        } else if index == 27 {
            ShaderSlot::CsLineDecoration
        } else if index == 28 {
            ShaderSlot::CsBorderSegment
        } else if index == 29 {
            ShaderSlot::CsBorderSolid
        } else if index == 30 {
            ShaderSlot::CsBorderSegmentSuperellipse
        } else {
            ShaderSlot::CsBorderSolidSuperellipse
        }
    }

    /// The shader is there on the device.
    pub open spec fn is_wanted(self, device: DeviceCapabilities) -> bool {
        match self {
            ShaderSlot::CsScaleTexture2D => device.supports(ImageBufferKind::Texture2D),
            ShaderSlot::CsScaleTextureRect => device.supports(ImageBufferKind::TextureRect),
            ShaderSlot::PsQuadTexturedRect => device.supports(ImageBufferKind::TextureRect),
            ShaderSlot::PsQuadYuvRect => device.supports(ImageBufferKind::TextureRect),
            ShaderSlot::CsScaleTextureExternal => device.supports(ImageBufferKind::TextureExternal),
            ShaderSlot::CsScaleTextureExternalBT709 => device.supports(ImageBufferKind::TextureExternalBT709),
            ShaderSlot::PsQuadTexturedExternalBT709 => device.supports(ImageBufferKind::TextureExternalBT709),
            ShaderSlot::PsQuadYuvExternalBT709 => device.supports(ImageBufferKind::TextureExternalBT709),
            ShaderSlot::PsQuadTexturedExternal => device.supports(ImageBufferKind::TextureExternal)
                && device.external_version() == TextureExternalVersion::ESSL3,
            ShaderSlot::PsQuadYuvExternal => device.supports(ImageBufferKind::TextureExternal)
                && device.external_version() == TextureExternalVersion::ESSL3,
            _ => true,
        }
    }

    fn wanted(self, device: &DeviceCapabilities) -> (r: bool)
        ensures
            r == self.is_wanted(*device),
    {
        match self {
            ShaderSlot::CsScaleTexture2D => has_platform_support(ImageBufferKind::Texture2D, device),
            ShaderSlot::CsScaleTextureRect
            | ShaderSlot::PsQuadTexturedRect
            | ShaderSlot::PsQuadYuvRect => has_platform_support(ImageBufferKind::TextureRect, device),
            ShaderSlot::CsScaleTextureExternal => has_platform_support(ImageBufferKind::TextureExternal, device),
            ShaderSlot::CsScaleTextureExternalBT709
            | ShaderSlot::PsQuadTexturedExternalBT709
            | ShaderSlot::PsQuadYuvExternalBT709 => has_platform_support(ImageBufferKind::TextureExternalBT709, device),
            ShaderSlot::PsQuadTexturedExternal
            | ShaderSlot::PsQuadYuvExternal => {
                has_platform_support(ImageBufferKind::TextureExternal, device)
                    && device.texture_external_version() == TextureExternalVersion::ESSL3
            },
            _ => true,
        }
    }

    /// What the shader is made from.
    pub open spec fn desc(self, device: DeviceCapabilities, options: ShaderOptions) -> ShaderDesc {
        ShaderDesc {
            kind: self.spec_kind(),
            name: self.spec_name(),
            features: self.spec_features(device, options),
        }
    }

    pub open spec fn spec_kind(self) -> ShaderKind {
        match self {
            ShaderSlot::CsBlurRgba8 => ShaderKind::Cache(VertexArrayKind::Blur),
            ShaderSlot::CsSvgFilterNode => ShaderKind::Cache(VertexArrayKind::SvgFilterNode),
            ShaderSlot::PsMask => ShaderKind::Cache(VertexArrayKind::Mask),
            ShaderSlot::PsMaskFast => ShaderKind::Cache(VertexArrayKind::Mask),
            ShaderSlot::PsMaskSuperellipse => ShaderKind::Cache(VertexArrayKind::Mask),
            ShaderSlot::CsScaleTexture2D => ShaderKind::Cache(VertexArrayKind::Scale),
            ShaderSlot::CsScaleTextureRect => ShaderKind::Cache(VertexArrayKind::Scale),
            ShaderSlot::CsScaleTextureExternal => ShaderKind::Cache(VertexArrayKind::Scale),
            ShaderSlot::CsScaleTextureExternalBT709 => ShaderKind::Cache(VertexArrayKind::Scale),
            ShaderSlot::PsQuadTextured => ShaderKind::Primitive,
            ShaderSlot::PsQuadTexturedExternal => ShaderKind::Primitive,
            ShaderSlot::PsQuadTexturedExternalBT709 => ShaderKind::Primitive,
            ShaderSlot::PsQuadTexturedRect => ShaderKind::Primitive,
            ShaderSlot::PsQuadRepeat => ShaderKind::Primitive,
            ShaderSlot::PsQuadGradient => ShaderKind::Primitive,
            ShaderSlot::PsQuadBoxShadow => ShaderKind::Primitive,
            ShaderSlot::PsQuadBoxShadowSuperellipse => ShaderKind::Primitive,
            ShaderSlot::PsQuadYuv => ShaderKind::Primitive,
            ShaderSlot::PsQuadYuvExternal => ShaderKind::Primitive,
            ShaderSlot::PsQuadYuvExternalBT709 => ShaderKind::Primitive,
            ShaderSlot::PsQuadYuvRect => ShaderKind::Primitive,
            ShaderSlot::PsQuadBackdrop => ShaderKind::Primitive,
            ShaderSlot::PsQuadBlend => ShaderKind::Primitive,
            ShaderSlot::PsQuadMixBlend => ShaderKind::Primitive,
            ShaderSlot::PsSplitComposite => ShaderKind::Primitive,
            ShaderSlot::PsClear => ShaderKind::Clear,
            ShaderSlot::PsCopy => ShaderKind::Copy,
            ShaderSlot::CsLineDecoration => ShaderKind::Cache(VertexArrayKind::LineDecoration),
            ShaderSlot::CsBorderSegment => ShaderKind::Cache(VertexArrayKind::Border),
            ShaderSlot::CsBorderSolid => ShaderKind::Cache(VertexArrayKind::Border),
            ShaderSlot::CsBorderSegmentSuperellipse => ShaderKind::Cache(VertexArrayKind::Border),
            ShaderSlot::CsBorderSolidSuperellipse => ShaderKind::Cache(VertexArrayKind::Border),
        }
    }

    fn kind(self) -> (r: ShaderKind)
        ensures
            r == self.spec_kind(),
    {
        match self {
            ShaderSlot::CsBlurRgba8 => ShaderKind::Cache(VertexArrayKind::Blur),
            ShaderSlot::CsSvgFilterNode => ShaderKind::Cache(VertexArrayKind::SvgFilterNode),
            ShaderSlot::PsMask
            | ShaderSlot::PsMaskFast
            | ShaderSlot::PsMaskSuperellipse => {
                ShaderKind::Cache(VertexArrayKind::Mask)
            },
            ShaderSlot::CsScaleTexture2D
            | ShaderSlot::CsScaleTextureRect
            | ShaderSlot::CsScaleTextureExternal
            | ShaderSlot::CsScaleTextureExternalBT709 => {
                ShaderKind::Cache(VertexArrayKind::Scale)
            },
            ShaderSlot::PsQuadTextured
            | ShaderSlot::PsQuadTexturedExternal
            | ShaderSlot::PsQuadTexturedExternalBT709
            | ShaderSlot::PsQuadTexturedRect
            | ShaderSlot::PsQuadRepeat
            | ShaderSlot::PsQuadGradient
            | ShaderSlot::PsQuadBoxShadow
            | ShaderSlot::PsQuadBoxShadowSuperellipse
            | ShaderSlot::PsQuadYuv
            | ShaderSlot::PsQuadYuvExternal
            | ShaderSlot::PsQuadYuvExternalBT709
            | ShaderSlot::PsQuadYuvRect
            | ShaderSlot::PsQuadBackdrop
            | ShaderSlot::PsQuadBlend
            | ShaderSlot::PsQuadMixBlend
            | ShaderSlot::PsSplitComposite => {
                ShaderKind::Primitive
            },
            ShaderSlot::PsClear => ShaderKind::Clear,
            ShaderSlot::PsCopy => ShaderKind::Copy,
            ShaderSlot::CsLineDecoration => ShaderKind::Cache(VertexArrayKind::LineDecoration),
            ShaderSlot::CsBorderSegment
            | ShaderSlot::CsBorderSolid
            | ShaderSlot::CsBorderSegmentSuperellipse
            | ShaderSlot::CsBorderSolidSuperellipse => {
                ShaderKind::Cache(VertexArrayKind::Border)
            },
        }
    }

    pub open spec fn spec_name(self) -> ShaderName {
        match self {
            ShaderSlot::CsBlurRgba8 => ShaderName::CsBlur,
            ShaderSlot::CsSvgFilterNode => ShaderName::CsSvgFilterNode,
            ShaderSlot::PsMask => ShaderName::PsQuadMask,
            ShaderSlot::PsMaskFast => ShaderName::PsQuadMask,
            ShaderSlot::PsMaskSuperellipse => ShaderName::PsQuadMask,
            ShaderSlot::CsScaleTexture2D => ShaderName::CsScale,
            ShaderSlot::CsScaleTextureRect => ShaderName::CsScale,
            ShaderSlot::CsScaleTextureExternal => ShaderName::CsScale,
            ShaderSlot::CsScaleTextureExternalBT709 => ShaderName::CsScale,
            ShaderSlot::PsQuadTextured => ShaderName::PsQuadTextured,
            ShaderSlot::PsQuadTexturedExternal => ShaderName::PsQuadTextured,
            ShaderSlot::PsQuadTexturedExternalBT709 => ShaderName::PsQuadTextured,
            ShaderSlot::PsQuadTexturedRect => ShaderName::PsQuadTextured,
            ShaderSlot::PsQuadRepeat => ShaderName::PsQuadRepeat,
            ShaderSlot::PsQuadGradient => ShaderName::PsQuadGradient,
            ShaderSlot::PsQuadBoxShadow => ShaderName::PsQuadBoxShadow,
            ShaderSlot::PsQuadBoxShadowSuperellipse => ShaderName::PsQuadBoxShadow,
            ShaderSlot::PsQuadYuv => ShaderName::PsQuadYuv,
            ShaderSlot::PsQuadYuvExternal => ShaderName::PsQuadYuv,
            ShaderSlot::PsQuadYuvExternalBT709 => ShaderName::PsQuadYuv,
            ShaderSlot::PsQuadYuvRect => ShaderName::PsQuadYuv,
            ShaderSlot::PsQuadBackdrop => ShaderName::PsQuadBackdrop,
            ShaderSlot::PsQuadBlend => ShaderName::PsQuadBlend,
            ShaderSlot::PsQuadMixBlend => ShaderName::PsQuadMixBlend,
            ShaderSlot::PsSplitComposite => ShaderName::PsSplitComposite,
            ShaderSlot::PsClear => ShaderName::PsClear,
            ShaderSlot::PsCopy => ShaderName::PsCopy,
            ShaderSlot::CsLineDecoration => ShaderName::CsLineDecoration,
            ShaderSlot::CsBorderSegment => ShaderName::CsBorderSegment,
            ShaderSlot::CsBorderSegmentSuperellipse => ShaderName::CsBorderSegment,
            ShaderSlot::CsBorderSolid => ShaderName::CsBorderSolid,
            ShaderSlot::CsBorderSolidSuperellipse => ShaderName::CsBorderSolid,
        }
    }

    fn name(self) -> (r: ShaderName)
        ensures
            r == self.spec_name(),
    {
        match self {
            ShaderSlot::CsBlurRgba8 => ShaderName::CsBlur,
            ShaderSlot::CsSvgFilterNode => ShaderName::CsSvgFilterNode,
            ShaderSlot::PsMask
            | ShaderSlot::PsMaskFast
            | ShaderSlot::PsMaskSuperellipse => {
                ShaderName::PsQuadMask
            },
            ShaderSlot::CsScaleTexture2D
            | ShaderSlot::CsScaleTextureRect
            | ShaderSlot::CsScaleTextureExternal
            | ShaderSlot::CsScaleTextureExternalBT709 => {
                ShaderName::CsScale
            },
            ShaderSlot::PsQuadTextured
            | ShaderSlot::PsQuadTexturedExternal
            | ShaderSlot::PsQuadTexturedExternalBT709
            | ShaderSlot::PsQuadTexturedRect => {
                ShaderName::PsQuadTextured
            },
            ShaderSlot::PsQuadRepeat => ShaderName::PsQuadRepeat,
            ShaderSlot::PsQuadGradient => ShaderName::PsQuadGradient,
            ShaderSlot::PsQuadBoxShadow
            | ShaderSlot::PsQuadBoxShadowSuperellipse => {
                ShaderName::PsQuadBoxShadow
            },
            ShaderSlot::PsQuadYuv
            | ShaderSlot::PsQuadYuvExternal
            | ShaderSlot::PsQuadYuvExternalBT709
            | ShaderSlot::PsQuadYuvRect => {
                ShaderName::PsQuadYuv
            },
            ShaderSlot::PsQuadBackdrop => ShaderName::PsQuadBackdrop,
            ShaderSlot::PsQuadBlend => ShaderName::PsQuadBlend,
            ShaderSlot::PsQuadMixBlend => ShaderName::PsQuadMixBlend,
            ShaderSlot::PsSplitComposite => ShaderName::PsSplitComposite,
            ShaderSlot::PsClear => ShaderName::PsClear,
            ShaderSlot::PsCopy => ShaderName::PsCopy,
            ShaderSlot::CsLineDecoration => ShaderName::CsLineDecoration,
            ShaderSlot::CsBorderSegment
            | ShaderSlot::CsBorderSegmentSuperellipse => {
                ShaderName::CsBorderSegment
            },
            ShaderSlot::CsBorderSolid
            | ShaderSlot::CsBorderSolidSuperellipse => {
                ShaderName::CsBorderSolid
            },
        }
    }

    pub open spec fn spec_features(self, device: DeviceCapabilities, options: ShaderOptions) -> Seq<
        ShaderFeature,
    > {
        match self {
            ShaderSlot::CsBlurRgba8 => seq![ShaderFeature::ColorTarget],
            ShaderSlot::PsMaskFast => seq![ShaderFeature::FastPath],
            ShaderSlot::PsMaskSuperellipse => seq![ShaderFeature::Superellipse],
            ShaderSlot::PsQuadBoxShadowSuperellipse => seq![ShaderFeature::Superellipse],
            ShaderSlot::CsBorderSegmentSuperellipse => seq![ShaderFeature::Superellipse],
            ShaderSlot::CsBorderSolidSuperellipse => seq![ShaderFeature::Superellipse],
            ShaderSlot::CsScaleTexture2D => seq![buffer_feature(ImageBufferKind::Texture2D, device.external_version())],
            ShaderSlot::CsScaleTextureRect => seq![buffer_feature(ImageBufferKind::TextureRect, device.external_version())],
            ShaderSlot::CsScaleTextureExternal => seq![buffer_feature(ImageBufferKind::TextureExternal, device.external_version())],
            ShaderSlot::CsScaleTextureExternalBT709 => seq![buffer_feature(ImageBufferKind::TextureExternalBT709, device.external_version())],
            ShaderSlot::PsQuadTextured => seq![ShaderFeature::Texture2D],
            ShaderSlot::PsQuadYuv => seq![ShaderFeature::Texture2D],
            ShaderSlot::PsQuadBackdrop => seq![ShaderFeature::Texture2D],
            ShaderSlot::PsQuadBlend => seq![ShaderFeature::Texture2D],
            ShaderSlot::PsQuadMixBlend => seq![ShaderFeature::Texture2D],
            ShaderSlot::PsQuadTexturedExternal => seq![ShaderFeature::TextureExternal],
            ShaderSlot::PsQuadYuvExternal => seq![ShaderFeature::TextureExternal],
            ShaderSlot::PsQuadTexturedExternalBT709 => seq![ShaderFeature::TextureExternalBT709],
            ShaderSlot::PsQuadYuvExternalBT709 => seq![ShaderFeature::TextureExternalBT709],
            ShaderSlot::PsQuadTexturedRect => seq![ShaderFeature::TextureRect],
            ShaderSlot::PsQuadYuvRect => seq![ShaderFeature::TextureRect],
            ShaderSlot::PsQuadGradient => if options.enable_dithering {
                seq![ShaderFeature::Dithering]
            } else {
                Seq::empty()
            },
            _ => Seq::empty(),
        }
    }

    fn features(self, device: &DeviceCapabilities, options: &ShaderOptions) -> (r: Vec<ShaderFeature>)
        ensures
            r@ == self.spec_features(*device, *options),
    {
        let r: Vec<ShaderFeature> = match self {
            ShaderSlot::CsBlurRgba8 => vec![ShaderFeature::ColorTarget],
            ShaderSlot::PsMaskFast => vec![ShaderFeature::FastPath],
            ShaderSlot::PsMaskSuperellipse
            | ShaderSlot::PsQuadBoxShadowSuperellipse
            | ShaderSlot::CsBorderSegmentSuperellipse
            | ShaderSlot::CsBorderSolidSuperellipse => vec![ShaderFeature::Superellipse],
            ShaderSlot::CsScaleTexture2D => vec![get_feature(ImageBufferKind::Texture2D, device.texture_external_version())],
            ShaderSlot::CsScaleTextureRect => vec![get_feature(ImageBufferKind::TextureRect, device.texture_external_version())],
            ShaderSlot::CsScaleTextureExternal => vec![get_feature(ImageBufferKind::TextureExternal, device.texture_external_version())],
            ShaderSlot::CsScaleTextureExternalBT709 => vec![get_feature(ImageBufferKind::TextureExternalBT709, device.texture_external_version())],
            ShaderSlot::PsQuadTextured
            | ShaderSlot::PsQuadYuv
            | ShaderSlot::PsQuadBackdrop
            | ShaderSlot::PsQuadBlend
            | ShaderSlot::PsQuadMixBlend => vec![ShaderFeature::Texture2D],
            ShaderSlot::PsQuadTexturedExternal
            | ShaderSlot::PsQuadYuvExternal => vec![ShaderFeature::TextureExternal],
            ShaderSlot::PsQuadTexturedExternalBT709
            | ShaderSlot::PsQuadYuvExternalBT709 => vec![ShaderFeature::TextureExternalBT709],
            ShaderSlot::PsQuadTexturedRect
            | ShaderSlot::PsQuadYuvRect => vec![ShaderFeature::TextureRect],
            ShaderSlot::PsQuadGradient => {
                if options.enable_dithering {
                    vec![ShaderFeature::Dithering]
                } else {
                    Vec::new()
                }
            },
            _ => Vec::new(),
        };
        assert(r@ =~= self.spec_features(*device, *options));
        r
    }
}

/// The pixels of a glyph, and whether it was transformed before it was rasterized.
#[derive(Clone, Copy, Debug, PartialEq, Eq, Structural)]
pub enum GlyphFormat {
    Alpha,
    TransformedAlpha,
    Subpixel,
    TransformedSubpixel,
    Bitmap,
    ColorBitmap,
}

/// The shaders that draw text.
#[derive(Clone, Copy, Debug, PartialEq, Eq, Structural)]
pub struct TextShader {
    pub simple: ShaderHandle,
    pub glyph_transform: ShaderHandle,
    pub debug_overdraw: ShaderHandle,
}

pub open spec fn text_desc(features: Seq<ShaderFeature>, more: Seq<ShaderFeature>) -> ShaderDesc {
    ShaderDesc { kind: ShaderKind::Text, name: ShaderName::PsTextRun, features: features + more }
}

pub open spec fn simple_desc(features: Seq<ShaderFeature>) -> ShaderDesc {
    text_desc(features, seq![ShaderFeature::AlphaPass, ShaderFeature::Texture2D])
}

pub open spec fn glyph_transform_desc(features: Seq<ShaderFeature>) -> ShaderDesc {
    text_desc(
        features,
        seq![ShaderFeature::GlyphTransform, ShaderFeature::AlphaPass, ShaderFeature::Texture2D],
    )
}

pub open spec fn overdraw_desc(features: Seq<ShaderFeature>) -> ShaderDesc {
    text_desc(features, seq![ShaderFeature::DebugOverdraw, ShaderFeature::Texture2D])
}

/// The shaders for text, in the order in which they are made.
pub open spec fn text_plan(features: Seq<ShaderFeature>) -> Seq<ShaderDesc> {
    seq![simple_desc(features), glyph_transform_desc(features), overdraw_desc(features)]
}

fn copy_features(features: &Vec<ShaderFeature>) -> (r: Vec<ShaderFeature>)
    ensures
        r@ == features@,
{
    let mut r: Vec<ShaderFeature> = Vec::new();
    let mut i: usize = 0;
    while i < features.len()
        invariant
            i <= features@.len(),
            r@ == features@.take(i as int),
        decreases features@.len() - i,
    {
        r.push(features[i]);
        i = i + 1;
        assert(r@ =~= features@.take(i as int));
    }
    assert(features@.take(i as int) =~= features@);
    r
}

/// All the shaders are in the list of those that there are.
pub open spec fn all_available(plan: Seq<ShaderDesc>, list: ShaderFeatures) -> bool {
    forall|i: int| 0 <= i < plan.len() ==> is_available(#[trigger] plan[i], list)
}

impl TextShader {
    /// The three shaders are the right ones.
    pub open spec fn fits(self, features: Seq<ShaderFeature>, loader: ShaderLoader) -> bool {
        &&& loader.has(self.simple, simple_desc(features))
        &&& loader.has(self.glyph_transform, glyph_transform_desc(features))
        &&& loader.has(self.debug_overdraw, overdraw_desc(features))
    }

    pub fn new(
        features: &Vec<ShaderFeature>,
        shader_list: &ShaderFeatures,
        loader: &mut ShaderLoader,
    ) -> (r: Result<Self, ShaderError>)
        requires
            all_available(text_plan(features@), *shader_list),
        ensures
            r matches Ok(text) && text.fits(features@, *final(loader)),
            final(loader).adds(*old(loader), text_plan(features@)),
    {
        let ghost plan = text_plan(features@);
        assert(is_available(plan[0], *shader_list));
        assert(is_available(plan[1], *shader_list));
        assert(is_available(plan[2], *shader_list));
        let mut simple_features = copy_features(features);
        simple_features.push(ShaderFeature::AlphaPass);
        simple_features.push(ShaderFeature::Texture2D);
        assert(simple_features@ =~= simple_desc(features@).features);
        let simple = match add_shader(
            loader,
            ShaderKind::Text,
            ShaderName::PsTextRun,
            simple_features,
            shader_list,
        ) {
            Ok(handle) => handle,
            Err(e) => {
                return Err(e);
            },
        };
        let ghost first = *loader;
        let mut transform_features = copy_features(features);
        transform_features.push(ShaderFeature::GlyphTransform);
        transform_features.push(ShaderFeature::AlphaPass);
        transform_features.push(ShaderFeature::Texture2D);
        assert(transform_features@ =~= glyph_transform_desc(features@).features);
        let glyph_transform = match add_shader(
            loader,
            ShaderKind::Text,
            ShaderName::PsTextRun,
            transform_features,
            shader_list,
        ) {
            Ok(handle) => handle,
            Err(e) => {
                return Err(e);
            },
        };
        let ghost second = *loader;
        let mut overdraw_features = copy_features(features);
        overdraw_features.push(ShaderFeature::DebugOverdraw);
        overdraw_features.push(ShaderFeature::Texture2D);
        assert(overdraw_features@ =~= overdraw_desc(features@).features);
        let debug_overdraw = match add_shader(
            loader,
            ShaderKind::Text,
            ShaderName::PsTextRun,
            overdraw_features,
            shader_list,
        ) {
            Ok(handle) => handle,
            Err(e) => {
                return Err(e);
            },
        };
        proof {
            shaders_add_up(*old(loader), first, second, seq![plan[0]], seq![plan[1]]);
            shaders_add_up(
                *old(loader),
                second,
                *loader,
                seq![plan[0]] + seq![plan[1]],
                seq![plan[2]],
            );
            assert(seq![plan[0]] + seq![plan[1]] + seq![plan[2]] =~= plan);
        }
        Ok(TextShader { simple, glyph_transform, debug_overdraw })
    }

    pub open spec fn spec_get_handle(self, format: GlyphFormat, show_overdraw: bool) -> ShaderHandle {
        if show_overdraw {
            self.debug_overdraw
        } else if format is TransformedAlpha || format is TransformedSubpixel {
            self.glyph_transform
        } else {
            self.simple
        }
    }

    /// The shader for glyphs of a format. Where overdraw is shown, all text is drawn by
    /// the shader for that.
    pub fn get_handle(&self, glyph_format: GlyphFormat, show_overdraw: bool) -> (r: ShaderHandle)
        ensures
            r == self.spec_get_handle(glyph_format, show_overdraw),
    {
        match glyph_format {
            _ if show_overdraw => self.debug_overdraw,
            GlyphFormat::Alpha
            | GlyphFormat::Subpixel
            | GlyphFormat::Bitmap
            | GlyphFormat::ColorBitmap => self.simple,
            GlyphFormat::TransformedAlpha | GlyphFormat::TransformedSubpixel => {
                self.glyph_transform
            },
        }
    }
}

/// The shaders at the places from `from` up to `to`, without those that are not there.
pub open spec fn slot_plan(
    from: int,
    to: int,
    device: DeviceCapabilities,
    options: ShaderOptions,
) -> Seq<ShaderDesc>
    decreases to - from,
{
    if to <= from {
        Seq::empty()
    } else {
        let slot = ShaderSlot::spec_at(to - 1);
        let before = slot_plan(from, to - 1, device, options);
        if slot.is_wanted(device) {
            before + seq![slot.desc(device, options)]
        } else {
            before
        }
    }
}

pub open spec fn dual_source(device: DeviceCapabilities, options: ShaderOptions) -> bool {
    device.supports_dual_source_blending && options.allow_dual_source_blending
}

pub open spec fn dual_text_plan(device: DeviceCapabilities, options: ShaderOptions) -> Seq<
    ShaderDesc,
> {
    if dual_source(device, options) {
        text_plan(seq![ShaderFeature::DualSourceBlending])
    } else {
        Seq::empty()
    }
}

/// All shaders but those of the compositor, in the order in which they are made.
pub open spec fn shader_plan(device: DeviceCapabilities, options: ShaderOptions) -> Seq<
    ShaderDesc,
> {
    slot_plan(0, SLOTS_BEFORE_TEXT as int, device, options) + text_plan(Seq::empty())
        + dual_text_plan(device, options) + slot_plan(
        SLOTS_BEFORE_TEXT as int,
        SHADER_SLOTS as int,
        device,
        options,
    )
}

/// A handle is there where the shader is, and is that of the right shader.
pub open spec fn slot_fits(
    handle: Option<ShaderHandle>,
    slot: ShaderSlot,
    device: DeviceCapabilities,
    options: ShaderOptions,
    loader: ShaderLoader,
) -> bool {
    match handle {
        Some(h) => slot.is_wanted(device) && loader.has(h, slot.desc(device, options)),
        None => !slot.is_wanted(device),
    }
}

pub open spec fn slots_fit(
    slots: Seq<Option<ShaderHandle>>,
    device: DeviceCapabilities,
    options: ShaderOptions,
    loader: ShaderLoader,
) -> bool {
    forall|i: int|
        0 <= i < slots.len() ==> slot_fits(
            #[trigger] slots[i],
            ShaderSlot::spec_at(i),
            device,
            options,
            loader,
        )
}

/// Handles stay right where shaders are added.
proof fn lemma_slots_kept(
    slots: Seq<Option<ShaderHandle>>,
    device: DeviceCapabilities,
    options: ShaderOptions,
    before: ShaderLoader,
    after: ShaderLoader,
)
    requires
        slots_fit(slots, device, options, before),
        after.extends(before),
    ensures
        slots_fit(slots, device, options, after),
{
    assert forall|i: int| 0 <= i < slots.len() implies slot_fits(
        #[trigger] slots[i],
        ShaderSlot::spec_at(i),
        device,
        options,
        after,
    ) by {
        if let Some(h) = slots[i] {
            assert(after.shaders@[h.0 as int] == before.shaders@[h.0 as int]);
        }
    }
}

proof fn lemma_available_parts(a: Seq<ShaderDesc>, b: Seq<ShaderDesc>, list: ShaderFeatures)
    requires
        all_available(a + b, list),
    ensures
        all_available(a, list),
        all_available(b, list),
{
    assert forall|i: int| 0 <= i < a.len() implies is_available(#[trigger] a[i], list) by {
        assert((a + b)[i] == a[i]);
    }
    assert forall|i: int| 0 <= i < b.len() implies is_available(#[trigger] b[i], list) by {
        assert((a + b)[a.len() + i] == b[i]);
    }
}

/// The plan for the places before a place begins the plan for more places.
proof fn lemma_slot_prefix(
    from: int,
    n: int,
    m: int,
    device: DeviceCapabilities,
    options: ShaderOptions,
)
    requires
        from <= n <= m,
    ensures
        slot_plan(from, n, device, options).is_prefix_of(slot_plan(from, m, device, options)),
    decreases m - n,
{
    if n < m {
        lemma_slot_prefix(from, n, m - 1, device, options);
    }
}

/// Makes the shaders at the places from the next one up to `to`.
fn add_slots(
    slots: &mut Vec<Option<ShaderHandle>>,
    to: usize,
    device: &DeviceCapabilities,
    options: &ShaderOptions,
    loader: &mut ShaderLoader,
    list: &ShaderFeatures,
) -> (r: Result<(), ShaderError>)
    requires
        old(slots)@.len() <= to <= SHADER_SLOTS,
        slots_fit(old(slots)@, *device, *options, *old(loader)),
        all_available(
            slot_plan(old(slots)@.len() as int, to as int, *device, *options),
            *list,
        ),
    ensures
        r is Ok,
        final(slots)@.len() == to,
        slots_fit(final(slots)@, *device, *options, *final(loader)),
        final(loader).adds(
            *old(loader),
            slot_plan(old(slots)@.len() as int, to as int, *device, *options),
        ),
{
    let ghost from = slots@.len() as int;
    let mut i: usize = slots.len();
    while i < to
        invariant
            from <= i <= to <= SHADER_SLOTS,
            from == old(slots)@.len(),
            slots@.len() == i,
            slots_fit(slots@, *device, *options, *loader),
            loader.adds(*old(loader), slot_plan(from, i as int, *device, *options)),
            all_available(slot_plan(from, to as int, *device, *options), *list),
        decreases to - i,
    {
        let slot = ShaderSlot::at(i);
        let ghost before = *loader;
        let ghost so_far = slot_plan(from, i as int, *device, *options);
        let ghost handles = slots@;
        if slot.wanted(device) {
            let ghost desc = slot.desc(*device, *options);
            proof {
                lemma_slot_prefix(from, i + 1, to as int, *device, *options);
                let next = slot_plan(from, i + 1, *device, *options);
                assert(next == so_far + seq![desc]);
                assert(next[so_far.len() as int] == desc);
                let whole = slot_plan(from, to as int, *device, *options);
                assert(whole[so_far.len() as int] == desc);
                assert(is_available(whole[so_far.len() as int], *list));
            }
            match add_shader(
                loader,
                slot.kind(),
                slot.name(),
                slot.features(device, options),
                list,
            ) {
                Ok(handle) => {
                    slots.push(Some(handle));
                },
                Err(e) => {
                    return Err(e);
                },
            }
            proof {
                shaders_add_up(*old(loader), before, *loader, so_far, seq![desc]);
            }
        } else {
            slots.push(None);
        }
        proof {
            lemma_slots_kept(handles, *device, *options, before, *loader);
            assert forall|j: int| 0 <= j < slots@.len() implies slot_fits(
                #[trigger] slots@[j],
                ShaderSlot::spec_at(j),
                *device,
                *options,
                *loader,
            ) by {
                if j < i {
                    assert(slots@[j] == handles[j]);
                }
            }
        }
        i = i + 1;
    }
    Ok(())
}

/// How a batch is blended with what is there.
#[derive(Clone, Copy, Debug, PartialEq, Eq, Structural)]
pub enum BlendMode {
    NoBlend,
    Alpha,
    PremultipliedAlpha,
    PremultipliedDestOut,
    SubpixelDualSource,
    Advanced,
    MultiplyDualSource,
    Screen,
    Exclusion,
    PlusLighter,
}

/// What a batch draws.
#[derive(Clone, Copy, Debug, PartialEq, Eq, Structural)]
pub enum BatchKind {
    SplitComposite,
    TextRun(GlyphFormat),
    Quad(PatternKind),
}

/// The shader of a pattern. Masks have shaders of their own.
pub open spec fn spec_quad_slot(pattern: PatternKind) -> Option<ShaderSlot> {
    match pattern {
        PatternKind::ColorOrTexture => Some(ShaderSlot::PsQuadTextured),
        PatternKind::TextureExternal => Some(ShaderSlot::PsQuadTexturedExternal),
        PatternKind::TextureExternalBT709 => Some(ShaderSlot::PsQuadTexturedExternalBT709),
        PatternKind::TextureRect => Some(ShaderSlot::PsQuadTexturedRect),
        PatternKind::Repeat => Some(ShaderSlot::PsQuadRepeat),
        PatternKind::Gradient => Some(ShaderSlot::PsQuadGradient),
        PatternKind::BoxShadow => Some(ShaderSlot::PsQuadBoxShadow),
        PatternKind::BoxShadowSuperellipse => Some(ShaderSlot::PsQuadBoxShadowSuperellipse),
        PatternKind::Yuv => Some(ShaderSlot::PsQuadYuv),
        PatternKind::YuvTextureExternal => Some(ShaderSlot::PsQuadYuvExternal),
        PatternKind::YuvTextureExternalBT709 => Some(ShaderSlot::PsQuadYuvExternalBT709),
        PatternKind::YuvTextureRect => Some(ShaderSlot::PsQuadYuvRect),
        PatternKind::Backdrop => Some(ShaderSlot::PsQuadBackdrop),
        PatternKind::Blend => Some(ShaderSlot::PsQuadBlend),
        PatternKind::MixBlend => Some(ShaderSlot::PsQuadMixBlend),
        PatternKind::Mask => None,
    }
}

fn quad_slot(pattern: PatternKind) -> (r: Option<ShaderSlot>)
    ensures
        r == spec_quad_slot(pattern),
{
    match pattern {
        PatternKind::ColorOrTexture => Some(ShaderSlot::PsQuadTextured),
        PatternKind::TextureExternal => Some(ShaderSlot::PsQuadTexturedExternal),
        PatternKind::TextureExternalBT709 => Some(ShaderSlot::PsQuadTexturedExternalBT709),
        PatternKind::TextureRect => Some(ShaderSlot::PsQuadTexturedRect),
        PatternKind::Repeat => Some(ShaderSlot::PsQuadRepeat),
        PatternKind::Gradient => Some(ShaderSlot::PsQuadGradient),
        PatternKind::BoxShadow => Some(ShaderSlot::PsQuadBoxShadow),
        PatternKind::BoxShadowSuperellipse => Some(ShaderSlot::PsQuadBoxShadowSuperellipse),
        PatternKind::Yuv => Some(ShaderSlot::PsQuadYuv),
        PatternKind::YuvTextureExternal => Some(ShaderSlot::PsQuadYuvExternal),
        PatternKind::YuvTextureExternalBT709 => Some(ShaderSlot::PsQuadYuvExternalBT709),
        PatternKind::YuvTextureRect => Some(ShaderSlot::PsQuadYuvRect),
        PatternKind::Backdrop => Some(ShaderSlot::PsQuadBackdrop),
        PatternKind::Blend => Some(ShaderSlot::PsQuadBlend),
        PatternKind::MixBlend => Some(ShaderSlot::PsQuadMixBlend),
        PatternKind::Mask => None,
    }
}

/// The shader that scales images of a kind.
pub open spec fn spec_scale_slot(kind: ImageBufferKind) -> ShaderSlot {
    match kind {
        ImageBufferKind::Texture2D => ShaderSlot::CsScaleTexture2D,
        ImageBufferKind::TextureRect => ShaderSlot::CsScaleTextureRect,
        ImageBufferKind::TextureExternal => ShaderSlot::CsScaleTextureExternal,
        ImageBufferKind::TextureExternalBT709 => ShaderSlot::CsScaleTextureExternalBT709,
    }
}

/// The flags that the list of available shaders is made for.
pub open spec fn spec_shader_flags(
    device: DeviceCapabilities,
    gl_type: GlType,
    options: ShaderOptions,
) -> ShaderFeatureFlags {
    ShaderFeatureFlags {
        advanced_blend_equation: device.supports_advanced_blend_equation
            && options.allow_advanced_blend_equation,
        dual_source_blending: dual_source(device, options),
        dithering: options.enable_dithering,
        ..spec_feature_flags(gl_type, device.external_version(), device.supports_yuv_target)
    }
}

pub fn shader_flags(
    device: &DeviceCapabilities,
    gl_type: GlType,
    options: &ShaderOptions,
) -> (r: ShaderFeatureFlags)
    ensures
        r == spec_shader_flags(*device, gl_type, *options),
{
    let flags = get_shader_feature_flags(gl_type, device.texture_external_version(), device);
    ShaderFeatureFlags {
        advanced_blend_equation: device.supports_advanced_blend_equation
            && options.allow_advanced_blend_equation,
        dual_source_blending: device.supports_dual_source_blending
            && options.allow_dual_source_blending,
        dithering: options.enable_dithering,
        ..flags
    }
}

/// All the shaders.
pub struct Shaders {
    pub loader: ShaderLoader,
    /// The shaders that are there once, by place.
    pub slots: Vec<Option<ShaderHandle>>,
    pub ps_text_run: TextShader,
    pub ps_text_run_dual_source: Option<TextShader>,
    pub composite: CompositorShaders,
}

/// What is to be done to prepare the next shader.
#[derive(Clone, Copy, Debug, PartialEq, Eq, Structural)]
pub enum PrecacheStep {
    /// All shaders are prepared.
    Finished,
    /// The next shader needs no preparation.
    Nothing { shader: ShaderHandle },
    Prepare { shader: ShaderHandle, step: ShaderStep },
}

impl Shaders {
    /// The handle of a shader that is there once.
    pub open spec fn loaded(self, slot: ShaderSlot) -> Option<ShaderHandle> {
        self.slots@[slot.spec_index()]
    }

    /// Every handle is that of the right shader, and there where the device has it.
    pub open spec fn fits(self, device: DeviceCapabilities, options: ShaderOptions) -> bool {
        &&& self.slots@.len() == SHADER_SLOTS
        &&& slots_fit(self.slots@, device, options, self.loader)
        &&& self.ps_text_run.fits(Seq::empty(), self.loader)
        &&& match self.ps_text_run_dual_source {
            Some(text) => dual_source(device, options) && text.fits(
                seq![ShaderFeature::DualSourceBlending],
                self.loader,
            ),
            None => !dual_source(device, options),
        }
        &&& self.composite.fits(device, self.loader)
    }

    /// Every handle is that of a shader.
    pub open spec fn in_range(self) -> bool {
        &&& self.slots@.len() == SHADER_SLOTS
        &&& forall|i: int|
            0 <= i < SHADER_SLOTS && (#[trigger] self.slots@[i]) is Some ==> (self.slots@[i]->0).0
                < self.loader.shaders@.len()
        &&& self.text_in_range(self.ps_text_run)
        &&& self.ps_text_run_dual_source is Some ==> self.text_in_range(
            self.ps_text_run_dual_source->0,
        )
        &&& self.composite.sized()
        &&& forall|variant: crate::renderer::shade::composite::CompositeVariant, i: int|
            #![trigger self.composite.list(variant)[i]]
            0 <= i < IMAGE_BUFFER_KINDS && self.composite.list(variant)[i] is Some
                ==> (self.composite.list(variant)[i]->0).0 < self.loader.shaders@.len()
    }

    pub open spec fn text_in_range(self, text: TextShader) -> bool {
        &&& text.simple.0 < self.loader.shaders@.len()
        &&& text.glyph_transform.0 < self.loader.shaders@.len()
        &&& text.debug_overdraw.0 < self.loader.shaders@.len()
    }

    /// One shader is lent out, and comes back as it was left; everything else stays.
    pub open spec fn lends(
        self,
        after: Self,
        handle: ShaderHandle,
        lent: LazilyCompiledShader,
        returned: LazilyCompiledShader,
    ) -> bool {
        &&& lent == self.loader.shaders@[handle.0 as int]
        &&& after.loader.shaders@ == self.loader.shaders@.update(handle.0 as int, returned)
        &&& after.slots == self.slots
        &&& after.ps_text_run == self.ps_text_run
        &&& after.ps_text_run_dual_source == self.ps_text_run_dual_source
        &&& after.composite == self.composite
    }

    /// Makes all the shaders. None of them is compiled yet.
    pub fn new(
        device: &DeviceCapabilities,
        options: &ShaderOptions,
        shader_list: &ShaderFeatures,
        composite_list: &ShaderFeatures,
    ) -> (r: Result<Self, ShaderError>)
        requires
            all_available(shader_plan(*device, *options), *shader_list),
            all_available(
                composite_plan(IMAGE_BUFFER_KINDS as int, *device),
                *composite_list,
            ),
        ensures
            r matches Ok(shaders) && shaders.fits(*device, *options) && shaders.in_range()
                && shaders.loader.shaders@.len() == shader_plan(*device, *options).len()
                + composite_plan(IMAGE_BUFFER_KINDS as int, *device).len() && (forall|i: int|
                0 <= i < shaders.loader.shaders@.len() ==> (
                #[trigger] shaders.loader.shaders@[i]).program is None
                    && shaders.loader.shaders@[i].is_made_from(
                    (shader_plan(*device, *options) + composite_plan(
                        IMAGE_BUFFER_KINDS as int,
                        *device,
                    ))[i],
                )),
    {
        let ghost first = slot_plan(0, SLOTS_BEFORE_TEXT as int, *device, *options);
        let ghost text = text_plan(Seq::empty());
        let ghost dual = dual_text_plan(*device, *options);
        let ghost rest = slot_plan(
            SLOTS_BEFORE_TEXT as int,
            SHADER_SLOTS as int,
            *device,
            *options,
        );
        let ghost last = composite_plan(IMAGE_BUFFER_KINDS as int, *device);
        proof {
            lemma_available_parts(first + text + dual, rest, *shader_list);
            lemma_available_parts(first + text, dual, *shader_list);
            lemma_available_parts(first, text, *shader_list);
        }
        let mut loader = ShaderLoader::new();
        let ghost l0 = loader;
        let mut slots: Vec<Option<ShaderHandle>> = Vec::new();
        match add_slots(
            &mut slots,
            SLOTS_BEFORE_TEXT,
            device,
            options,
            &mut loader,
            shader_list,
        ) {
            Ok(_) => {},
            Err(e) => {
                return Err(e);
            },
        }
        let ghost l1 = loader;
        let none: Vec<ShaderFeature> = Vec::new();
        assert(none@ =~= Seq::<ShaderFeature>::empty());
        let ps_text_run = match TextShader::new(&none, shader_list, &mut loader) {
            Ok(text_shader) => text_shader,
            Err(e) => {
                return Err(e);
            },
        };
        let ghost l2 = loader;
        let use_dual_source_blending = device.supports_dual_source_blending
            && options.allow_dual_source_blending;
        let ps_text_run_dual_source = if use_dual_source_blending {
            let dual_features: Vec<ShaderFeature> = vec![ShaderFeature::DualSourceBlending];
            assert(dual_features@ =~= seq![ShaderFeature::DualSourceBlending]);
            match TextShader::new(&dual_features, shader_list, &mut loader) {
                Ok(text_shader) => Some(text_shader),
                Err(e) => {
                    return Err(e);
                },
            }
        } else {
            None
        };
        let ghost l3 = loader;
        proof {
            lemma_slots_kept(slots@, *device, *options, l1, l2);
            lemma_slots_kept(slots@, *device, *options, l2, l3);
        }
        match add_slots(&mut slots, SHADER_SLOTS, device, options, &mut loader, shader_list) {
            Ok(_) => {},
            Err(e) => {
                return Err(e);
            },
        }
        let ghost l4 = loader;
        let composite = match CompositorShaders::new(device, &mut loader, composite_list) {
            Ok(composite) => composite,
            Err(e) => {
                return Err(e);
            },
        };
        proof {
            shaders_add_up(l0, l1, l2, first, text);
            shaders_add_up(l0, l2, l3, first + text, dual);
            shaders_add_up(l0, l3, l4, first + text + dual, rest);
            shaders_add_up(l0, l4, loader, first + text + dual + rest, last);
            lemma_slots_kept(slots@, *device, *options, l4, loader);
        }
        let r = Shaders { loader, slots, ps_text_run, ps_text_run_dual_source, composite };
        proof {
            let plan = shader_plan(*device, *options) + last;
            assert forall|i: int| 0 <= i < r.loader.shaders@.len() implies (
            #[trigger] r.loader.shaders@[i]).program is None
                && r.loader.shaders@[i].is_made_from(plan[i]) by {
                assert(r.loader.shaders@[l0.shaders@.len() + i].is_made_from(plan[i]));
            }
            lemma_in_range(r, *device, *options);
        }
        Ok(r)
    }

    /// All the shaders are to be prepared, in the order in which they were made.
    pub fn precache_all(&self, precache_flags: ShaderPrecacheFlags) -> (r: PendingShadersToPrecache)
        ensures
            r.precache_flags == precache_flags,
            r.remaining_shaders@ == Seq::new(
                self.loader.shaders@.len(),
                |i: int| ShaderHandle(i as usize),
            ),
    {
        PendingShadersToPrecache {
            precache_flags,
            remaining_shaders: self.loader.all_handles(),
        }
    }

    /// What the next shader needs. Another call is needed unless all are finished.
    pub fn resume_precache(&self, pending_shaders: &mut PendingShadersToPrecache) -> (r:
        PrecacheStep)
        requires
            forall|i: int|
                0 <= i < old(pending_shaders).remaining_shaders@.len() ==> (#[trigger] old(
                    pending_shaders,
                ).remaining_shaders@[i]).0 < self.loader.shaders@.len(),
        ensures
            final(pending_shaders).precache_flags == old(pending_shaders).precache_flags,
            ({
                let before = old(pending_shaders).remaining_shaders@;
                let after = final(pending_shaders).remaining_shaders@;
                let flags = old(pending_shaders).precache_flags;
                if before.len() == 0 {
                    r == PrecacheStep::Finished && after == before
                } else {
                    &&& before == seq![before[0]] + after
                    &&& r == (if flags.async_compile || flags.full_compile {
                        PrecacheStep::Prepare {
                            shader: before[0],
                            step: self.loader.shaders@[before[0].0 as int].spec_next_step(flags),
                        }
                    } else {
                        PrecacheStep::Nothing { shader: before[0] }
                    })
                }
            }),
    {
        let flags = pending_shaders.precache_flags;
        let ghost before = pending_shaders.remaining_shaders@;
        match pending_shaders.next() {
            None => PrecacheStep::Finished,
            Some(shader) => {
                assert(before[0] == shader);
                match self.loader.precache(shader, flags) {
                    None => PrecacheStep::Nothing { shader },
                    Some(step) => PrecacheStep::Prepare { shader, step },
                }
            },
        }
    }

    fn get_slot(&mut self, slot: ShaderSlot) -> (r: &mut LazilyCompiledShader)
        requires
            old(self).in_range(),
            old(self).loaded(slot) is Some,
        ensures
            old(self).lends(*final(self), old(self).loaded(slot)->0, *r, *final(r)),
    {
        let handle = match self.slots[slot.index()] {
            Some(handle) => handle,
            None => ShaderHandle(0),
        };
        self.loader.get(handle)
    }

    /// The shader that puts a surface on the screen.
    pub fn get_composite_shader(
        &mut self,
        format: CompositeSurfaceFormat,
        buffer_kind: ImageBufferKind,
        features: CompositeFeatures,
    ) -> (r: &mut LazilyCompiledShader)
        requires
            old(self).in_range(),
            old(self).composite.list(
                CompositorShaders::variant_for(format, features),
            )[buffer_kind.spec_index() as int] is Some,
        ensures
            old(self).lends(
                *final(self),
                old(self).composite.list(
                    CompositorShaders::variant_for(format, features),
                )[buffer_kind.spec_index() as int]->0,
                *r,
                *final(r),
            ),
    {
        let handle = self.composite.get_handle(format, buffer_kind, features);
        self.loader.get(handle)
    }

    /// The shader that scales images of a kind, which must be one that the device reads.
    pub fn get_scale_shader(&mut self, buffer_kind: ImageBufferKind) -> (r:
        &mut LazilyCompiledShader)
        requires
            old(self).in_range(),
            old(self).loaded(spec_scale_slot(buffer_kind)) is Some,
        ensures
            old(self).lends(
                *final(self),
                old(self).loaded(spec_scale_slot(buffer_kind))->0,
                *r,
                *final(r),
            ),
    {
        let slot = match buffer_kind {
            ImageBufferKind::Texture2D => ShaderSlot::CsScaleTexture2D,
            ImageBufferKind::TextureRect => ShaderSlot::CsScaleTextureRect,
            ImageBufferKind::TextureExternal => ShaderSlot::CsScaleTextureExternal,
            ImageBufferKind::TextureExternalBT709 => ShaderSlot::CsScaleTextureExternalBT709,
        };
        self.get_slot(slot)
    }

    /// The shader of a pattern, which must be one that the device has.
    pub fn get_quad_shader(&mut self, pattern: PatternKind) -> (r: &mut LazilyCompiledShader)
        requires
            old(self).in_range(),
            spec_quad_slot(pattern) is Some,
            old(self).loaded(spec_quad_slot(pattern)->0) is Some,
        ensures
            old(self).lends(
                *final(self),
                old(self).loaded(spec_quad_slot(pattern)->0)->0,
                *r,
                *final(r),
            ),
    {
        match quad_slot(pattern) {
            Some(slot) => self.get_slot(slot),
            None => self.get_slot(ShaderSlot::PsMask),
        }
    }

    /// The shader that draws a batch; nothing where the device has none for it.
    pub open spec fn spec_get_handle(
        self,
        kind: BatchKind,
        blend_mode: BlendMode,
        show_overdraw: bool,
    ) -> Option<ShaderHandle> {
        match kind {
            BatchKind::Quad(pattern) => match spec_quad_slot(pattern) {
                Some(slot) => self.loaded(slot),
                None => None,
            },
            BatchKind::SplitComposite => self.loaded(ShaderSlot::PsSplitComposite),
            BatchKind::TextRun(format) => if blend_mode == BlendMode::SubpixelDualSource {
                match self.ps_text_run_dual_source {
                    Some(text) => Some(text.spec_get_handle(format, show_overdraw)),
                    None => None,
                }
            } else {
                Some(self.ps_text_run.spec_get_handle(format, show_overdraw))
            },
        }
    }

    /// The shader that draws a batch.
    pub fn get_handle(
        &self,
        kind: BatchKind,
        blend_mode: BlendMode,
        show_overdraw: bool,
    ) -> (r: ShaderHandle)
        requires
            self.in_range(),
            self.spec_get_handle(kind, blend_mode, show_overdraw) is Some,
        ensures
            Some(r) == self.spec_get_handle(kind, blend_mode, show_overdraw),
            r.0 < self.loader.shaders@.len(),
    {
        let found = match kind {
            BatchKind::Quad(pattern) => match quad_slot(pattern) {
                Some(slot) => self.slots[slot.index()],
                None => None,
            },
            BatchKind::SplitComposite => self.slots[ShaderSlot::PsSplitComposite.index()],
            BatchKind::TextRun(format) => {
                if blend_mode == BlendMode::SubpixelDualSource {
                    match self.ps_text_run_dual_source {
                        Some(text) => Some(text.get_handle(format, show_overdraw)),
                        None => None,
                    }
                } else {
                    Some(self.ps_text_run.get_handle(format, show_overdraw))
                }
            },
        };
        match found {
            Some(handle) => handle,
            None => ShaderHandle(0),
        }
    }

    /// The shader that draws a batch.
    pub fn get(
        &mut self,
        kind: BatchKind,
        blend_mode: BlendMode,
        show_overdraw: bool,
    ) -> (r: &mut LazilyCompiledShader)
        requires
            old(self).in_range(),
            old(self).spec_get_handle(kind, blend_mode, show_overdraw) is Some,
        ensures
            old(self).lends(
                *final(self),
                old(self).spec_get_handle(kind, blend_mode, show_overdraw)->0,
                *r,
                *final(r),
            ),
    {
        let handle = self.get_handle(kind, blend_mode, show_overdraw);
        self.loader.get(handle)
    }

    pub fn cs_blur_rgba8(&mut self) -> (r: &mut LazilyCompiledShader)
        requires
            old(self).in_range(),
            old(self).loaded(ShaderSlot::CsBlurRgba8) is Some,
        ensures
            old(self).lends(*final(self), old(self).loaded(ShaderSlot::CsBlurRgba8)->0, *r, *final(r)),
    {
        self.get_slot(ShaderSlot::CsBlurRgba8)
    }

    pub fn cs_border_segment(&mut self) -> (r: &mut LazilyCompiledShader)
        requires
            old(self).in_range(),
            old(self).loaded(ShaderSlot::CsBorderSegment) is Some,
        ensures
            old(self).lends(*final(self), old(self).loaded(ShaderSlot::CsBorderSegment)->0, *r, *final(r)),
    {
        self.get_slot(ShaderSlot::CsBorderSegment)
    }

    pub fn cs_border_solid(&mut self) -> (r: &mut LazilyCompiledShader)
        requires
            old(self).in_range(),
            old(self).loaded(ShaderSlot::CsBorderSolid) is Some,
        ensures
            old(self).lends(*final(self), old(self).loaded(ShaderSlot::CsBorderSolid)->0, *r, *final(r)),
    {
        self.get_slot(ShaderSlot::CsBorderSolid)
    }

    pub fn cs_border_segment_superellipse(&mut self) -> (r: &mut LazilyCompiledShader)
        requires
            old(self).in_range(),
            old(self).loaded(ShaderSlot::CsBorderSegmentSuperellipse) is Some,
        ensures
            old(self).lends(*final(self), old(self).loaded(ShaderSlot::CsBorderSegmentSuperellipse)->0, *r, *final(r)),
    {
        self.get_slot(ShaderSlot::CsBorderSegmentSuperellipse)
    }

    pub fn cs_border_solid_superellipse(&mut self) -> (r: &mut LazilyCompiledShader)
        requires
            old(self).in_range(),
            old(self).loaded(ShaderSlot::CsBorderSolidSuperellipse) is Some,
        ensures
            old(self).lends(*final(self), old(self).loaded(ShaderSlot::CsBorderSolidSuperellipse)->0, *r, *final(r)),
    {
        self.get_slot(ShaderSlot::CsBorderSolidSuperellipse)
    }

    pub fn cs_line_decoration(&mut self) -> (r: &mut LazilyCompiledShader)
        requires
            old(self).in_range(),
            old(self).loaded(ShaderSlot::CsLineDecoration) is Some,
        ensures
            old(self).lends(*final(self), old(self).loaded(ShaderSlot::CsLineDecoration)->0, *r, *final(r)),
    {
        self.get_slot(ShaderSlot::CsLineDecoration)
    }

    pub fn cs_svg_filter_node(&mut self) -> (r: &mut LazilyCompiledShader)
        requires
            old(self).in_range(),
            old(self).loaded(ShaderSlot::CsSvgFilterNode) is Some,
        ensures
            old(self).lends(*final(self), old(self).loaded(ShaderSlot::CsSvgFilterNode)->0, *r, *final(r)),
    {
        self.get_slot(ShaderSlot::CsSvgFilterNode)
    }

    pub fn ps_quad_textured(&mut self) -> (r: &mut LazilyCompiledShader)
        requires
            old(self).in_range(),
            old(self).loaded(ShaderSlot::PsQuadTextured) is Some,
        ensures
            old(self).lends(*final(self), old(self).loaded(ShaderSlot::PsQuadTextured)->0, *r, *final(r)),
    {
        self.get_slot(ShaderSlot::PsQuadTextured)
    }

    pub fn ps_mask(&mut self) -> (r: &mut LazilyCompiledShader)
        requires
            old(self).in_range(),
            old(self).loaded(ShaderSlot::PsMask) is Some,
        ensures
            old(self).lends(*final(self), old(self).loaded(ShaderSlot::PsMask)->0, *r, *final(r)),
    {
        self.get_slot(ShaderSlot::PsMask)
    }

    pub fn ps_mask_fast(&mut self) -> (r: &mut LazilyCompiledShader)
        requires
            old(self).in_range(),
            old(self).loaded(ShaderSlot::PsMaskFast) is Some,
        ensures
            old(self).lends(*final(self), old(self).loaded(ShaderSlot::PsMaskFast)->0, *r, *final(r)),
    {
        self.get_slot(ShaderSlot::PsMaskFast)
    }

    pub fn ps_mask_superellipse(&mut self) -> (r: &mut LazilyCompiledShader)
        requires
            old(self).in_range(),
            old(self).loaded(ShaderSlot::PsMaskSuperellipse) is Some,
        ensures
            old(self).lends(*final(self), old(self).loaded(ShaderSlot::PsMaskSuperellipse)->0, *r, *final(r)),
    {
        self.get_slot(ShaderSlot::PsMaskSuperellipse)
    }

    pub fn ps_clear(&mut self) -> (r: &mut LazilyCompiledShader)
        requires
            old(self).in_range(),
            old(self).loaded(ShaderSlot::PsClear) is Some,
        ensures
            old(self).lends(*final(self), old(self).loaded(ShaderSlot::PsClear)->0, *r, *final(r)),
    {
        self.get_slot(ShaderSlot::PsClear)
    }

    pub fn ps_copy(&mut self) -> (r: &mut LazilyCompiledShader)
        requires
            old(self).in_range(),
            old(self).loaded(ShaderSlot::PsCopy) is Some,
        ensures
            old(self).lends(*final(self), old(self).loaded(ShaderSlot::PsCopy)->0, *r, *final(r)),
    {
        self.get_slot(ShaderSlot::PsCopy)
    }
}

/// Handles of the right shaders are handles of shaders.
proof fn lemma_in_range(shaders: Shaders, device: DeviceCapabilities, options: ShaderOptions)
    requires
        shaders.fits(device, options),
    ensures
        shaders.in_range(),
{
    assert forall|variant: crate::renderer::shade::composite::CompositeVariant, i: int|
        #![trigger shaders.composite.list(variant)[i]]
        0 <= i < IMAGE_BUFFER_KINDS && shaders.composite.list(variant)[i] is Some implies
        (shaders.composite.list(variant)[i]->0).0 < shaders.loader.shaders@.len() by {
        assert(shaders.composite.place_fits(variant, i, device, shaders.loader));
    }
    assert forall|i: int| 0 <= i < SHADER_SLOTS && (#[trigger] shaders.slots@[i]) is Some implies
        (shaders.slots@[i]->0).0 < shaders.loader.shaders@.len() by {
        assert(slot_fits(
            shaders.slots@[i],
            ShaderSlot::spec_at(i),
            device,
            options,
            shaders.loader,
        ));
    }
}

/// What the device can read, it can also draw: the shader of a pattern is there exactly
/// where images of its kind can be read, those of external textures only for shaders from
/// version 3 on.
pub proof fn patterns_have_shaders(
    shaders: Shaders,
    device: DeviceCapabilities,
    options: ShaderOptions,
    pattern: PatternKind,
    show_overdraw: bool,
)
    requires
        shaders.fits(device, options),
    ensures
        ({
            let handle = shaders.spec_get_handle(
                BatchKind::Quad(pattern),
                BlendMode::PremultipliedAlpha,
                show_overdraw,
            );
            handle is Some <==> match pattern {
                PatternKind::TextureExternal | PatternKind::YuvTextureExternal => device.supports(
                    ImageBufferKind::TextureExternal,
                ) && device.external_version() == TextureExternalVersion::ESSL3,
                PatternKind::TextureExternalBT709 | PatternKind::YuvTextureExternalBT709 =>
                    device.supports(ImageBufferKind::TextureExternalBT709),
                PatternKind::TextureRect | PatternKind::YuvTextureRect => device.supports(
                    ImageBufferKind::TextureRect,
                ),
                PatternKind::Mask => false,
                _ => true,
            }
        }),
{
    if let Some(slot) = spec_quad_slot(pattern) {
        let i = slot.spec_index();
        assert(ShaderSlot::spec_at(i) == slot);
        assert(slot_fits(shaders.slots@[i], slot, device, options, shaders.loader));
    }
}

/// Two shaders that are there once and both on the device have different handles.
pub proof fn shader_handles_differ(
    shaders: Shaders,
    device: DeviceCapabilities,
    options: ShaderOptions,
    a: ShaderSlot,
    b: ShaderSlot,
)
    requires
        shaders.fits(device, options),
        a != b,
        shaders.loaded(a) is Some,
        shaders.loaded(b) is Some,
    ensures
        shaders.loaded(a) != shaders.loaded(b),
{
    short_lists_are_sorted(a.spec_features(device, options));
    short_lists_are_sorted(b.spec_features(device, options));
    assert(a.spec_features(device, options).len() == 1 && b.spec_features(device, options).len()
        == 1 && a.spec_name() == b.spec_name() && a.spec_kind() == b.spec_kind()
        ==> a.spec_features(device, options)[0] != b.spec_features(device, options)[0]);
    assert(ShaderSlot::spec_at(a.spec_index()) == a);
    assert(ShaderSlot::spec_at(b.spec_index()) == b);
    assert(slot_fits(shaders.slots@[a.spec_index()], a, device, options, shaders.loader));
    assert(slot_fits(shaders.slots@[b.spec_index()], b, device, options, shaders.loader));
}

/// Preparing the shaders is finished after as many calls as there are shaders.
pub proof fn precaching_comes_to_an_end(remaining: Seq<ShaderHandle>, calls: nat)
    requires
        calls <= remaining.len(),
    ensures
        remaining.skip(calls as int).len() == remaining.len() - calls,
        remaining.skip(remaining.len() as int) == Seq::<ShaderHandle>::empty(),
        calls < remaining.len() ==> remaining.skip(calls as int) == seq![remaining[calls as int]]
            + remaining.skip(calls as int + 1),
{
    assert(remaining.skip(remaining.len() as int) =~= Seq::<ShaderHandle>::empty());
    if calls < remaining.len() {
        assert(remaining.skip(calls as int) =~= seq![remaining[calls as int]] + remaining.skip(
            calls as int + 1,
        ));
    }
}

/// What a pattern is drawn with: the program for its family, and the feature by which the
/// program reads the kind of texture that the pattern is in, or draws the shape that it has.
pub open spec fn draws_pattern(d: ShaderDesc, pattern: PatternKind) -> bool {
    match pattern {
        PatternKind::ColorOrTexture => d.name is PsQuadTextured && d.features == seq![
            ShaderFeature::Texture2D,
        ],
        PatternKind::TextureExternal => d.name is PsQuadTextured && d.features == seq![
            ShaderFeature::TextureExternal,
        ],
        PatternKind::TextureExternalBT709 => d.name is PsQuadTextured && d.features == seq![
            ShaderFeature::TextureExternalBT709,
        ],
        PatternKind::TextureRect => d.name is PsQuadTextured && d.features == seq![
            ShaderFeature::TextureRect,
        ],
        PatternKind::Repeat => d.name is PsQuadRepeat,
        PatternKind::Gradient => d.name is PsQuadGradient,
        PatternKind::BoxShadow => d.name is PsQuadBoxShadow && d.features.len() == 0,
        PatternKind::BoxShadowSuperellipse => d.name is PsQuadBoxShadow && d.features == seq![
            ShaderFeature::Superellipse,
        ],
        PatternKind::Yuv => d.name is PsQuadYuv && d.features == seq![ShaderFeature::Texture2D],
        PatternKind::YuvTextureExternal => d.name is PsQuadYuv && d.features == seq![
            ShaderFeature::TextureExternal,
        ],
        PatternKind::YuvTextureExternalBT709 => d.name is PsQuadYuv && d.features == seq![
            ShaderFeature::TextureExternalBT709,
        ],
        PatternKind::YuvTextureRect => d.name is PsQuadYuv && d.features == seq![
            ShaderFeature::TextureRect,
        ],
        PatternKind::Backdrop => d.name is PsQuadBackdrop,
        PatternKind::Blend => d.name is PsQuadBlend,
        PatternKind::MixBlend => d.name is PsQuadMixBlend,
        PatternKind::Mask => false,
    }
}

/// Each pattern is drawn by the program of its own family, and the planes of what is split by
/// the program for that. Text is drawn by the program for text: with glyphs
/// that are transformed where their format says so, showing overdraw where asked for, and
/// with two outputs for each pixel exactly where it is blended that way.
pub proof fn batches_get_their_programs(
    shaders: Shaders,
    device: DeviceCapabilities,
    options: ShaderOptions,
    kind: BatchKind,
    blend_mode: BlendMode,
    show_overdraw: bool,
) -> (d: ShaderDesc)
    requires
        shaders.fits(device, options),
        shaders.spec_get_handle(kind, blend_mode, show_overdraw) is Some,
    ensures
        shaders.loader.has(shaders.spec_get_handle(kind, blend_mode, show_overdraw)->0, d),
        kind matches BatchKind::Quad(pattern) ==> draws_pattern(d, pattern),
        kind is SplitComposite ==> d.name is PsSplitComposite,
        kind matches BatchKind::TextRun(format) ==> {
            let dual = blend_mode is SubpixelDualSource;
            let transformed = format is TransformedAlpha || format is TransformedSubpixel;
            &&& d.name is PsTextRun
            &&& d.features.contains(ShaderFeature::DualSourceBlending) == dual
            &&& d.features.contains(ShaderFeature::GlyphTransform) == (transformed
                && !show_overdraw)
            &&& d.features.contains(ShaderFeature::DebugOverdraw) == show_overdraw
        },
{
    match kind {
        BatchKind::Quad(pattern) => {
            let slot = spec_quad_slot(pattern)->0;
            assert(ShaderSlot::spec_at(slot.spec_index()) == slot);
            assert(slot_fits(
                shaders.slots@[slot.spec_index()],
                slot,
                device,
                options,
                shaders.loader,
            ));
            slot.desc(device, options)
        },
        BatchKind::SplitComposite => {
            let slot = ShaderSlot::PsSplitComposite;
            assert(ShaderSlot::spec_at(slot.spec_index()) == slot);
            assert(slot_fits(
                shaders.slots@[slot.spec_index()],
                slot,
                device,
                options,
                shaders.loader,
            ));
            slot.desc(device, options)
        },
        BatchKind::TextRun(format) => {
            let dual = blend_mode is SubpixelDualSource;
            let features = if dual {
                seq![ShaderFeature::DualSourceBlending]
            } else {
                Seq::<ShaderFeature>::empty()
            };
            let d = if show_overdraw {
                overdraw_desc(features)
            } else if format is TransformedAlpha || format is TransformedSubpixel {
                glyph_transform_desc(features)
            } else {
                simple_desc(features)
            };
            let f = d.features;
            let n = features.len() as int;
            assert(dual ==> f[0] is DualSourceBlending);
            if show_overdraw {
                assert(f[n] is DebugOverdraw);
            } else if format is TransformedAlpha || format is TransformedSubpixel {
                assert(f[n] is GlyphTransform);
            }
            d
        },
    }
}

/// Two patterns that a device can draw are drawn by different shaders.
pub proof fn patterns_have_their_own_shaders(
    shaders: Shaders,
    device: DeviceCapabilities,
    options: ShaderOptions,
    a: PatternKind,
    b: PatternKind,
    blend_mode: BlendMode,
    show_overdraw: bool,
)
    requires
        shaders.fits(device, options),
        a != b,
        shaders.spec_get_handle(BatchKind::Quad(a), blend_mode, show_overdraw) is Some,
        shaders.spec_get_handle(BatchKind::Quad(b), blend_mode, show_overdraw) is Some,
    ensures
        shaders.spec_get_handle(BatchKind::Quad(a), blend_mode, show_overdraw)
            != shaders.spec_get_handle(BatchKind::Quad(b), blend_mode, show_overdraw),
{
    shader_handles_differ(
        shaders,
        device,
        options,
        spec_quad_slot(a)->0,
        spec_quad_slot(b)->0,
    );
}

} // verus!
