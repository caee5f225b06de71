//! The shaders, and which of them draws what.

use vstd::prelude::*;
use vstd::relations::{sorted_by, total_ordering};

pub mod composite;
pub mod loader;
pub mod shaders;

verus! {

/// The flavor of OpenGL.
#[derive(Clone, Copy, Debug, PartialEq, Eq, Structural)]
pub enum GlType {
    Gl,
    Gles,
}

/// The version of the extension for textures that another process owns.
#[derive(Clone, Copy, Debug, PartialEq, Eq, Structural)]
pub enum TextureExternalVersion {
    /// For shaders from version 3 on; not there on every device.
    ESSL3,
    /// For shaders of version 1.
    ESSL1,
}

/// How the texels of an image are stored.
#[derive(Clone, Copy, Debug, PartialEq, Eq, Structural)]
pub enum ImageBufferKind {
    Texture2D,
    TextureRect,
    TextureExternal,
    TextureExternalBT709,
}

/// The number of kinds of image buffer.
pub const IMAGE_BUFFER_KINDS: usize = 4;

impl ImageBufferKind {
    pub open spec fn spec_index(self) -> usize {
        match self {
            ImageBufferKind::Texture2D => 0,
            ImageBufferKind::TextureRect => 1,
            ImageBufferKind::TextureExternal => 2,
            ImageBufferKind::TextureExternalBT709 => 3,
        }
    }

    /// The place of the kind in a list with one entry for each.
    pub fn index(self) -> (r: usize)
        ensures
            r == self.spec_index(),
            r < IMAGE_BUFFER_KINDS,
    {
        match self {
            ImageBufferKind::Texture2D => 0,
            ImageBufferKind::TextureRect => 1,
            ImageBufferKind::TextureExternal => 2,
            ImageBufferKind::TextureExternalBT709 => 3,
        }
    }

    pub open spec fn spec_at(index: int) -> Self {
        if index == 0 {
            ImageBufferKind::Texture2D
        } else if index == 1 {
            ImageBufferKind::TextureRect
        } else if index == 2 {
            ImageBufferKind::TextureExternal
        } else {
            ImageBufferKind::TextureExternalBT709
        }
    }

    /// The kind at a place.
    pub fn at(index: usize) -> (r: Self)
        requires
            index < IMAGE_BUFFER_KINDS,
        ensures
            r == Self::spec_at(index as int),
            r.spec_index() == index,
    {
        if index == 0 {
            ImageBufferKind::Texture2D
        } else if index == 1 {
            ImageBufferKind::TextureRect
        } else if index == 2 {
            ImageBufferKind::TextureExternal
        } else {
            ImageBufferKind::TextureExternalBT709
        }
    }
}

/// What the shaders depend on of the device.
#[derive(Clone, Copy, Debug, PartialEq, Eq, Structural)]
pub struct DeviceCapabilities {
    pub gl_type: GlType,
    pub supports_dual_source_blending: bool,
    pub supports_advanced_blend_equation: bool,
    pub supports_image_external_essl3: bool,
    /// The extension for samplers of external images in YUV is there.
    pub supports_yuv_target: bool,
}

impl DeviceCapabilities {
    pub open spec fn external_version(self) -> TextureExternalVersion {
        if self.supports_image_external_essl3 {
            TextureExternalVersion::ESSL3
        } else {
            TextureExternalVersion::ESSL1
        }
    }

    pub fn texture_external_version(&self) -> (r: TextureExternalVersion)
        ensures
            r == self.external_version(),
    {
        if self.supports_image_external_essl3 {
            TextureExternalVersion::ESSL3
        } else {
            TextureExternalVersion::ESSL1
        }
    }

    pub open spec fn supports(self, kind: ImageBufferKind) -> bool {
        match kind {
            ImageBufferKind::Texture2D => true,
            ImageBufferKind::TextureRect => self.gl_type == GlType::Gl,
            ImageBufferKind::TextureExternal => self.gl_type == GlType::Gles,
            ImageBufferKind::TextureExternalBT709 => self.gl_type == GlType::Gles
                && self.supports_yuv_target,
        }
    }
}

/// Images of the kind can be read on the device.
pub fn has_platform_support(kind: ImageBufferKind, device: &DeviceCapabilities) -> (r: bool)
    ensures
        r == device.supports(kind),
{
    match (kind, device.gl_type) {
        (ImageBufferKind::Texture2D, _) => true,
        (ImageBufferKind::TextureRect, GlType::Gles) => false,
        (ImageBufferKind::TextureRect, GlType::Gl) => true,
        (ImageBufferKind::TextureExternal, GlType::Gles) => true,
        (ImageBufferKind::TextureExternal, GlType::Gl) => false,
        (ImageBufferKind::TextureExternalBT709, GlType::Gles) => device.supports_yuv_target,
        (ImageBufferKind::TextureExternalBT709, GlType::Gl) => false,
    }
}

/// What a shader is compiled with.
#[derive(Clone, Copy, Debug, PartialEq, Eq, Structural)]
pub enum ShaderFeature {
    AlphaPass,
    ColorTarget,
    DebugOverdraw,
    Dithering,
    DualSourceBlending,
    FastPath,
    GlyphTransform,
    Superellipse,
    Texture2D,
    TextureExternal,
    TextureExternalBT709,
    TextureExternalESSL1,
    TextureRect,
    Yuv,
}

impl ShaderFeature {
    pub open spec fn spec_str(self) -> Seq<char> {
        match self {
            ShaderFeature::AlphaPass => "ALPHA_PASS"@,
            ShaderFeature::ColorTarget => "COLOR_TARGET"@,
            ShaderFeature::DebugOverdraw => "DEBUG_OVERDRAW"@,
            ShaderFeature::Dithering => "DITHERING"@,
            ShaderFeature::DualSourceBlending => "DUAL_SOURCE_BLENDING"@,
            ShaderFeature::FastPath => "FAST_PATH"@,
            ShaderFeature::GlyphTransform => "GLYPH_TRANSFORM"@,
            ShaderFeature::Superellipse => "SUPERELLIPSE"@,
            ShaderFeature::Texture2D => "TEXTURE_2D"@,
            ShaderFeature::TextureExternal => "TEXTURE_EXTERNAL"@,
            ShaderFeature::TextureExternalBT709 => "TEXTURE_EXTERNAL_BT709"@,
            ShaderFeature::TextureExternalESSL1 => "TEXTURE_EXTERNAL_ESSL1"@,
            ShaderFeature::TextureRect => "TEXTURE_RECT"@,
            ShaderFeature::Yuv => "YUV"@,
        }
    }

    /// The name of the feature in the source of the shaders.
    pub fn as_str(&self) -> (r: &'static str)
        ensures
            r@ == self.spec_str(),
    {
        match self {
            ShaderFeature::AlphaPass => "ALPHA_PASS",
            ShaderFeature::ColorTarget => "COLOR_TARGET",
            ShaderFeature::DebugOverdraw => "DEBUG_OVERDRAW",
            ShaderFeature::Dithering => "DITHERING",
            ShaderFeature::DualSourceBlending => "DUAL_SOURCE_BLENDING",
            ShaderFeature::FastPath => "FAST_PATH",
            ShaderFeature::GlyphTransform => "GLYPH_TRANSFORM",
            ShaderFeature::Superellipse => "SUPERELLIPSE",
            ShaderFeature::Texture2D => "TEXTURE_2D",
            ShaderFeature::TextureExternal => "TEXTURE_EXTERNAL",
            ShaderFeature::TextureExternalBT709 => "TEXTURE_EXTERNAL_BT709",
            ShaderFeature::TextureExternalESSL1 => "TEXTURE_EXTERNAL_ESSL1",
            ShaderFeature::TextureRect => "TEXTURE_RECT",
            ShaderFeature::Yuv => "YUV",
        }
    }
}

impl ShaderFeature {
    /// The place of the feature in alphabetical order.
    pub open spec fn spec_rank(self) -> int {
        match self {
            ShaderFeature::AlphaPass => 0,
            ShaderFeature::ColorTarget => 1,
            ShaderFeature::DebugOverdraw => 2,
            ShaderFeature::Dithering => 3,
            ShaderFeature::DualSourceBlending => 4,
            ShaderFeature::FastPath => 5,
            ShaderFeature::GlyphTransform => 6,
            ShaderFeature::Superellipse => 7,
            ShaderFeature::Texture2D => 8,
            ShaderFeature::TextureExternal => 9,
            ShaderFeature::TextureExternalBT709 => 10,
            ShaderFeature::TextureExternalESSL1 => 11,
            ShaderFeature::TextureRect => 12,
            ShaderFeature::Yuv => 13,
        }
    }

    pub fn rank(self) -> (r: u8)
        ensures
            r == self.spec_rank(),
    {
        match self {
            ShaderFeature::AlphaPass => 0,
            ShaderFeature::ColorTarget => 1,
            ShaderFeature::DebugOverdraw => 2,
            ShaderFeature::Dithering => 3,
            ShaderFeature::DualSourceBlending => 4,
            ShaderFeature::FastPath => 5,
            ShaderFeature::GlyphTransform => 6,
            ShaderFeature::Superellipse => 7,
            ShaderFeature::Texture2D => 8,
            ShaderFeature::TextureExternal => 9,
            ShaderFeature::TextureExternalBT709 => 10,
            ShaderFeature::TextureExternalESSL1 => 11,
            ShaderFeature::TextureRect => 12,
            ShaderFeature::Yuv => 13,
        }
    }
}

/// The source of a shader.
#[derive(Clone, Copy, Debug, PartialEq, Eq, Structural)]
pub enum ShaderName {
    CsBlur,
    CsSvgFilterNode,
    PsQuadMask,
    CsScale,
    PsTextRun,
    PsQuadTextured,
    PsQuadRepeat,
    PsQuadGradient,
    PsQuadBoxShadow,
    PsQuadYuv,
    PsQuadBackdrop,
    PsQuadBlend,
    PsQuadMixBlend,
    PsSplitComposite,
    PsClear,
    PsCopy,
    CsLineDecoration,
    CsBorderSegment,
    CsBorderSolid,
    Composite,
}

impl ShaderName {
    pub open spec fn spec_str(self) -> Seq<char> {
        match self {
            ShaderName::CsBlur => "cs_blur"@,
            ShaderName::CsSvgFilterNode => "cs_svg_filter_node"@,
            ShaderName::PsQuadMask => "ps_quad_mask"@,
            ShaderName::CsScale => "cs_scale"@,
            ShaderName::PsTextRun => "ps_text_run"@,
            ShaderName::PsQuadTextured => "ps_quad_textured"@,
            ShaderName::PsQuadRepeat => "ps_quad_repeat"@,
            ShaderName::PsQuadGradient => "ps_quad_gradient"@,
            ShaderName::PsQuadBoxShadow => "ps_quad_box_shadow"@,
            ShaderName::PsQuadYuv => "ps_quad_yuv"@,
            ShaderName::PsQuadBackdrop => "ps_quad_backdrop"@,
            ShaderName::PsQuadBlend => "ps_quad_blend"@,
            ShaderName::PsQuadMixBlend => "ps_quad_mix_blend"@,
            ShaderName::PsSplitComposite => "ps_split_composite"@,
            ShaderName::PsClear => "ps_clear"@,
            ShaderName::PsCopy => "ps_copy"@,
            ShaderName::CsLineDecoration => "cs_line_decoration"@,
            ShaderName::CsBorderSegment => "cs_border_segment"@,
            ShaderName::CsBorderSolid => "cs_border_solid"@,
            ShaderName::Composite => "composite"@,
        }
    }

    /// The name of the source.
    pub fn as_str(&self) -> (r: &'static str)
        ensures
            r@ == self.spec_str(),
    {
        match self {
            ShaderName::CsBlur => "cs_blur",
            ShaderName::CsSvgFilterNode => "cs_svg_filter_node",
            ShaderName::PsQuadMask => "ps_quad_mask",
            ShaderName::CsScale => "cs_scale",
            ShaderName::PsTextRun => "ps_text_run",
            ShaderName::PsQuadTextured => "ps_quad_textured",
            ShaderName::PsQuadRepeat => "ps_quad_repeat",
            ShaderName::PsQuadGradient => "ps_quad_gradient",
            ShaderName::PsQuadBoxShadow => "ps_quad_box_shadow",
            ShaderName::PsQuadYuv => "ps_quad_yuv",
            ShaderName::PsQuadBackdrop => "ps_quad_backdrop",
            ShaderName::PsQuadBlend => "ps_quad_blend",
            ShaderName::PsQuadMixBlend => "ps_quad_mix_blend",
            ShaderName::PsSplitComposite => "ps_split_composite",
            ShaderName::PsClear => "ps_clear",
            ShaderName::PsCopy => "ps_copy",
            ShaderName::CsLineDecoration => "cs_line_decoration",
            ShaderName::CsBorderSegment => "cs_border_segment",
            ShaderName::CsBorderSolid => "cs_border_solid",
            ShaderName::Composite => "composite",
        }
    }
}

/// Why a program could not be made, with the name of its shader and the log.
#[derive(Debug)]
pub enum ShaderError {
    Compilation(String, String),
    Link(String, String),
}

/// The feature for a kind of image buffer.
pub open spec fn buffer_feature(
    kind: ImageBufferKind,
    version: TextureExternalVersion,
) -> ShaderFeature {
    match (kind, version) {
        (ImageBufferKind::Texture2D, _) => ShaderFeature::Texture2D,
        (ImageBufferKind::TextureRect, _) => ShaderFeature::TextureRect,
        (ImageBufferKind::TextureExternal, TextureExternalVersion::ESSL3) =>
            ShaderFeature::TextureExternal,
        (ImageBufferKind::TextureExternal, TextureExternalVersion::ESSL1) =>
            ShaderFeature::TextureExternalESSL1,
        (ImageBufferKind::TextureExternalBT709, _) => ShaderFeature::TextureExternalBT709,
    }
}

pub fn get_feature(kind: ImageBufferKind, texture_external_version: TextureExternalVersion) -> (r:
    ShaderFeature)
    ensures
        r == buffer_feature(kind, texture_external_version),
{
    match (kind, texture_external_version) {
        (ImageBufferKind::Texture2D, _) => ShaderFeature::Texture2D,
        (ImageBufferKind::TextureRect, _) => ShaderFeature::TextureRect,
        (ImageBufferKind::TextureExternal, TextureExternalVersion::ESSL3) => {
            ShaderFeature::TextureExternal
        },
        (ImageBufferKind::TextureExternal, TextureExternalVersion::ESSL1) => {
            ShaderFeature::TextureExternalESSL1
        },
        (ImageBufferKind::TextureExternalBT709, _) => ShaderFeature::TextureExternalBT709,
    }
}

/// The name of the feature for a kind of image buffer.
pub fn get_feature_string(
    kind: ImageBufferKind,
    texture_external_version: TextureExternalVersion,
) -> (r: &'static str)
    ensures
        r@ == buffer_feature(kind, texture_external_version).spec_str(),
{
    get_feature(kind, texture_external_version).as_str()
}

/// The strings have the same first `k` characters, and the first comes before the second
/// at the next.
pub open spec fn splits_at(a: Seq<char>, b: Seq<char>, k: int) -> bool {
    &&& 0 <= k <= a.len()
    &&& k < b.len()
    &&& forall|i: int| 0 <= i < k ==> a[i] == b[i]
    &&& k < a.len() ==> a[k] < b[k]
}

/// The first string comes before the second in alphabetical order.
pub open spec fn comes_before(a: Seq<char>, b: Seq<char>) -> bool {
    exists|k: int| splits_at(a, b, k)
}

proof fn lemma_comes_before(a: Seq<char>, b: Seq<char>, c: Seq<char>)
    requires
        comes_before(a, b),
        comes_before(b, c),
    ensures
        comes_before(a, c),
{
    let j = choose|j: int| splits_at(a, b, j);
    let k = choose|k: int| splits_at(b, c, k);
    if j < k {
        assert(splits_at(a, c, j));
    } else {
        assert(splits_at(a, c, k));
    }
}

spec fn feature_at(rank: int) -> ShaderFeature {
    choose|f: ShaderFeature| f.spec_rank() == rank
}

proof fn lemma_next_feature(a: ShaderFeature, b: ShaderFeature)
    requires
        b.spec_rank() == a.spec_rank() + 1,
    ensures
        comes_before(a.spec_str(), b.spec_str()),
{
    assert(comes_before("ALPHA_PASS"@, "COLOR_TARGET"@)) by {
        reveal_strlit("ALPHA_PASS");
        reveal_strlit("COLOR_TARGET");
        assert(splits_at("ALPHA_PASS"@, "COLOR_TARGET"@, 0));
    }
    assert(comes_before("COLOR_TARGET"@, "DEBUG_OVERDRAW"@)) by {
        reveal_strlit("COLOR_TARGET");
        reveal_strlit("DEBUG_OVERDRAW");
        assert(splits_at("COLOR_TARGET"@, "DEBUG_OVERDRAW"@, 0));
    }
    assert(comes_before("DEBUG_OVERDRAW"@, "DITHERING"@)) by {
        reveal_strlit("DEBUG_OVERDRAW");
        reveal_strlit("DITHERING");
        assert(splits_at("DEBUG_OVERDRAW"@, "DITHERING"@, 1));
    }
    assert(comes_before("DITHERING"@, "DUAL_SOURCE_BLENDING"@)) by {
        reveal_strlit("DITHERING");
        reveal_strlit("DUAL_SOURCE_BLENDING");
        assert(splits_at("DITHERING"@, "DUAL_SOURCE_BLENDING"@, 1));
    }
    assert(comes_before("DUAL_SOURCE_BLENDING"@, "FAST_PATH"@)) by {
        reveal_strlit("DUAL_SOURCE_BLENDING");
        reveal_strlit("FAST_PATH");
        assert(splits_at("DUAL_SOURCE_BLENDING"@, "FAST_PATH"@, 0));
    }
    assert(comes_before("FAST_PATH"@, "GLYPH_TRANSFORM"@)) by {
        reveal_strlit("FAST_PATH");
        reveal_strlit("GLYPH_TRANSFORM");
        assert(splits_at("FAST_PATH"@, "GLYPH_TRANSFORM"@, 0));
    }
    assert(comes_before("GLYPH_TRANSFORM"@, "SUPERELLIPSE"@)) by {
        reveal_strlit("GLYPH_TRANSFORM");
        reveal_strlit("SUPERELLIPSE");
        assert(splits_at("GLYPH_TRANSFORM"@, "SUPERELLIPSE"@, 0));
    }
    assert(comes_before("SUPERELLIPSE"@, "TEXTURE_2D"@)) by {
        reveal_strlit("SUPERELLIPSE");
        reveal_strlit("TEXTURE_2D");
        assert(splits_at("SUPERELLIPSE"@, "TEXTURE_2D"@, 0));
    }
    assert(comes_before("TEXTURE_2D"@, "TEXTURE_EXTERNAL"@)) by {
        reveal_strlit("TEXTURE_2D");
        reveal_strlit("TEXTURE_EXTERNAL");
        assert(splits_at("TEXTURE_2D"@, "TEXTURE_EXTERNAL"@, 8));
    }
    assert(comes_before("TEXTURE_EXTERNAL"@, "TEXTURE_EXTERNAL_BT709"@)) by {
        reveal_strlit("TEXTURE_EXTERNAL");
        reveal_strlit("TEXTURE_EXTERNAL_BT709");
        assert(splits_at("TEXTURE_EXTERNAL"@, "TEXTURE_EXTERNAL_BT709"@, 16));
    }
    assert(comes_before("TEXTURE_EXTERNAL_BT709"@, "TEXTURE_EXTERNAL_ESSL1"@)) by {
        reveal_strlit("TEXTURE_EXTERNAL_BT709");
        reveal_strlit("TEXTURE_EXTERNAL_ESSL1");
        assert(splits_at("TEXTURE_EXTERNAL_BT709"@, "TEXTURE_EXTERNAL_ESSL1"@, 17));
    }
    assert(comes_before("TEXTURE_EXTERNAL_ESSL1"@, "TEXTURE_RECT"@)) by {
        reveal_strlit("TEXTURE_EXTERNAL_ESSL1");
        reveal_strlit("TEXTURE_RECT");
        assert(splits_at("TEXTURE_EXTERNAL_ESSL1"@, "TEXTURE_RECT"@, 8));
    }
    assert(comes_before("TEXTURE_RECT"@, "YUV"@)) by {
        reveal_strlit("TEXTURE_RECT");
        reveal_strlit("YUV");
        assert(splits_at("TEXTURE_RECT"@, "YUV"@, 0));
    }
}

/// The order of the features is the alphabetical order of their names.
pub proof fn features_are_alphabetical(a: ShaderFeature, b: ShaderFeature)
    requires
        a.spec_rank() < b.spec_rank(),
    ensures
        comes_before(a.spec_str(), b.spec_str()),
    decreases b.spec_rank() - a.spec_rank(),
{
    if b.spec_rank() == a.spec_rank() + 1 {
        lemma_next_feature(a, b);
    } else {
        let c = feature_at(a.spec_rank() + 1);
        assert(ShaderFeature::AlphaPass.spec_rank() == 0);
        assert(ShaderFeature::ColorTarget.spec_rank() == 1);
        assert(ShaderFeature::DebugOverdraw.spec_rank() == 2);
        assert(ShaderFeature::Dithering.spec_rank() == 3);
        assert(ShaderFeature::DualSourceBlending.spec_rank() == 4);
        assert(ShaderFeature::FastPath.spec_rank() == 5);
        assert(ShaderFeature::GlyphTransform.spec_rank() == 6);
        assert(ShaderFeature::Superellipse.spec_rank() == 7);
        assert(ShaderFeature::Texture2D.spec_rank() == 8);
        assert(ShaderFeature::TextureExternal.spec_rank() == 9);
        assert(ShaderFeature::TextureExternalBT709.spec_rank() == 10);
        assert(ShaderFeature::TextureExternalESSL1.spec_rank() == 11);
        assert(ShaderFeature::TextureRect.spec_rank() == 12);
        assert(ShaderFeature::Yuv.spec_rank() == 13);
        lemma_next_feature(a, c);
        features_are_alphabetical(c, b);
        lemma_comes_before(a.spec_str(), c.spec_str(), b.spec_str());
    }
}

/// Two features are in order.
pub open spec fn in_order() -> spec_fn(ShaderFeature, ShaderFeature) -> bool {
    |a: ShaderFeature, b: ShaderFeature| a.spec_rank() <= b.spec_rank()
}

/// The features in alphabetical order.
pub open spec fn sorted(features: Seq<ShaderFeature>) -> Seq<ShaderFeature> {
    features.sort_by(in_order())
}

proof fn lemma_in_order()
    ensures
        total_ordering(in_order()),
{
}

/// There is nothing to sort in a list of at most one feature.
pub proof fn short_lists_are_sorted(features: Seq<ShaderFeature>)
    requires
        features.len() <= 1,
    ensures
        sorted(features) == features,
{
    broadcast use vstd::seq_lib::group_to_multiset_ensures;

    lemma_in_order();
    features.lemma_sort_by_ensures(in_order());
    let r = sorted(features);
    assert(r.len() == r.to_multiset().len());
    assert(features.len() == features.to_multiset().len());
    if features.len() == 1 {
        assert(r.contains(r[0]));
        assert(features.to_multiset().count(r[0]) > 0);
        assert(features.contains(r[0]));
    }
    assert(r =~= features);
}

proof fn lemma_inserted(s: Seq<ShaderFeature>, i: int, f: ShaderFeature)
    requires
        0 <= i <= s.len(),
    ensures
        s.insert(i, f).to_multiset() =~= s.to_multiset().insert(f),
{
    broadcast use vstd::seq_lib::group_to_multiset_ensures;

    let t = s.insert(i, f);
    assert(t.remove(i) =~= s);
    assert(t[i] == f);
    assert(t.contains(f));
    assert(t.remove(i).to_multiset() =~= t.to_multiset().remove(f));
    assert(t.to_multiset().count(f) > 0);
}

/// The features in alphabetical order.
pub fn sort_features(unsorted: &Vec<ShaderFeature>) -> (r: Vec<ShaderFeature>)
    ensures
        r@ == sorted(unsorted@),
{
    broadcast use vstd::seq_lib::group_to_multiset_ensures;

    let mut r: Vec<ShaderFeature> = Vec::new();
    let mut i: usize = 0;
    assert(unsorted@.take(0) =~= r@);
    while i < unsorted.len()
        invariant
            i <= unsorted@.len(),
            r@.len() == i,
            sorted_by(r@, in_order()),
            r@.to_multiset() =~= unsorted@.take(i as int).to_multiset(),
        decreases unsorted@.len() - i,
    {
        let feature = unsorted[i];
        let rank: u8 = feature.rank();
        let mut place: usize = r.len();
        while place > 0 && r[place - 1].rank() > rank
            invariant
                place <= r@.len(),
                rank == feature.spec_rank(),
                forall|j: int|
                    place <= j < r@.len() ==> feature.spec_rank() < (
                    #[trigger] r@[j]).spec_rank(),
            decreases place,
        {
            place = place - 1;
        }
        let ghost before = r@;
        proof {
            lemma_inserted(before, place as int, feature);
            assert(unsorted@.take(i as int + 1) =~= unsorted@.take(i as int).push(feature));
            assert forall|a: int, b: int| 0 <= a < b < before.len() implies (
            #[trigger] before[a]).spec_rank() <= (#[trigger] before[b]).spec_rank() by {
                assert(in_order()(before[a], before[b]));
            }
        }
        r.insert(place, feature);
        assert(r@ =~= before.insert(place as int, feature));
        assert(r@.to_multiset() =~= before.to_multiset().insert(feature));
        assert(unsorted@.take(i as int).push(feature).to_multiset() =~= unsorted@.take(
            i as int,
        ).to_multiset().insert(feature)) by {
            broadcast use vstd::seq_lib::group_to_multiset_ensures;

        }
        assert forall|a: int, b: int| 0 <= a < b < r@.len() implies #[trigger] in_order()(
            r@[a],
            r@[b],
        ) by {
            if place > 0 {
                assert(before[place - 1].spec_rank() <= feature.spec_rank());
            }
        }
        i = i + 1;
    }
    proof {
        assert(unsorted@.take(i as int) =~= unsorted@);
        lemma_in_order();
        unsorted@.lemma_sort_by_ensures(in_order());
        vstd::seq_lib::lemma_sorted_unique(r@, sorted(unsorted@), in_order());
    }
    r
}

/// The names of features, one after the other, with commas between them.
pub open spec fn joined(features: Seq<ShaderFeature>) -> Seq<char>
    decreases features.len(),
{
    if features.len() == 0 {
        Seq::empty()
    } else if features.len() == 1 {
        features[0].spec_str()
    } else {
        joined(features.drop_last()) + ","@ + features.last().spec_str()
    }
}

/// Joins the names of features by commas.
pub fn join_features(features: &Vec<ShaderFeature>) -> (r: String)
    ensures
        r@ == joined(features@),
{
    let mut r = String::new();
    let mut i: usize = 0;
    assert(r@ =~= joined(features@.take(0)));
    while i < features.len()
        invariant
            i <= features@.len(),
            r@ == joined(features@.take(i as int)),
        decreases features@.len() - i,
    {
        let ghost next = features@.take(i as int + 1);
        assert(next.drop_last() =~= features@.take(i as int));
        if i > 0 {
            r.append(",");
        }
        r.append(features[i].as_str());
        if i == 0 {
            assert(r@ =~= features@[0].spec_str());
        }
        i = i + 1;
        assert(r@ =~= joined(next));
    }
    assert(features@.take(i as int) =~= features@);
    r
}

/// The features that the list of available shaders is made for.
#[derive(Clone, Copy, Debug, PartialEq, Eq, Structural)]
pub struct ShaderFeatureFlags {
    pub gl: bool,
    pub gles: bool,
    pub texture_external: bool,
    pub texture_external_essl1: bool,
    pub texture_external_bt709: bool,
    pub advanced_blend_equation: bool,
    pub dual_source_blending: bool,
    pub dithering: bool,
}

/// The flags of a flavor of OpenGL.
pub open spec fn spec_feature_flags(
    gl_type: GlType,
    version: TextureExternalVersion,
    yuv_target: bool,
) -> ShaderFeatureFlags {
    ShaderFeatureFlags {
        gl: gl_type == GlType::Gl,
        gles: gl_type == GlType::Gles,
        texture_external: gl_type == GlType::Gles && version == TextureExternalVersion::ESSL3,
        texture_external_essl1: gl_type == GlType::Gles && version
            == TextureExternalVersion::ESSL1,
        texture_external_bt709: gl_type == GlType::Gles && yuv_target,
        advanced_blend_equation: false,
        dual_source_blending: false,
        dithering: false,
    }
}

pub fn get_shader_feature_flags(
    gl_type: GlType,
    texture_external_version: TextureExternalVersion,
    device: &DeviceCapabilities,
) -> (r: ShaderFeatureFlags)
    ensures
        r == spec_feature_flags(gl_type, texture_external_version, device.supports_yuv_target),
{
    let none = ShaderFeatureFlags {
        gl: false,
        gles: false,
        texture_external: false,
        texture_external_essl1: false,
        texture_external_bt709: false,
        advanced_blend_equation: false,
        dual_source_blending: false,
        dithering: false,
    };
    match gl_type {
        GlType::Gl => ShaderFeatureFlags { gl: true, ..none },
        GlType::Gles => {
            let mut flags = ShaderFeatureFlags { gles: true, ..none };
            match texture_external_version {
                TextureExternalVersion::ESSL3 => {
                    flags.texture_external = true;
                },
                TextureExternalVersion::ESSL1 => {
                    flags.texture_external_essl1 = true;
                },
            }
            if device.supports_yuv_target {
                flags.texture_external_bt709 = true;
            }
            flags
        },
    }
}

} // verus!
