//! What the renderer is set up with.

use crate::float_bits::{FloatBits, ONE_BITS};
use crate::internal_types::{ColorF, RenderTargetKind};
use crate::renderer::commands::{PrimShader, Shader, TextureSampler, TransformedRectKind, VertexArrayKind};
use crate::renderer::draw::{
    get_yuv_shader_index, spec_yuv_shader_index, YuvColorSpace, YuvFormat, YUV_COLOR_SPACES,
    YUV_FORMATS,
};
use crate::renderer::shade::GlType;
use crate::renderer::{
    DebugFlags, ImageBufferKind, RendererError, RendererKind, IMAGE_BUFFER_KINDS,
};
use crate::text::{decimal, numbered};
use vstd::prelude::*;

verus! {

/// The least size of textures that the texture cache can work with.
pub const MIN_TEXTURE_SIZE: u32 = 512;

/// What the embedder asks of the renderer.
#[derive(Clone, Copy, Debug, PartialEq, Eq, Structural)]
pub struct RendererOptions {
    pub device_pixel_ratio: FloatBits,
    pub enable_aa: bool,
    pub enable_dithering: bool,
    pub max_recorded_profiles: usize,
    pub debug: bool,
    pub enable_scrollbars: bool,
    pub precache_shaders: bool,
    pub renderer_kind: RendererKind,
    pub enable_subpixel_aa: bool,
    pub clear_framebuffer: bool,
    pub clear_color: ColorF,
    pub enable_clear_scissor: bool,
    pub enable_batcher: bool,
    pub max_texture_size: Option<u32>,
    pub enable_render_on_scroll: bool,
    pub debug_flags: DebugFlags,
    pub renderer_id: Option<u64>,
}

impl RendererOptions {
    pub open spec fn spec_default() -> Self {
        RendererOptions {
            device_pixel_ratio: FloatBits(ONE_BITS),
            enable_aa: true,
            enable_dithering: true,
            debug_flags: DebugFlags::spec_empty(),
            max_recorded_profiles: 0,
            debug: false,
            enable_scrollbars: false,
            precache_shaders: false,
            renderer_kind: RendererKind::Native,
            enable_subpixel_aa: false,
            clear_framebuffer: true,
            clear_color: ColorF::spec_white(),
            enable_clear_scissor: true,
            enable_batcher: true,
            max_texture_size: None,
            enable_render_on_scroll: true,
            renderer_id: None,
        }
    }
}

impl Default for RendererOptions {
    fn default() -> (r: RendererOptions)
        ensures
            r == RendererOptions::spec_default(),
    {
        RendererOptions {
            device_pixel_ratio: FloatBits(ONE_BITS),
            enable_aa: true,
            enable_dithering: true,
            debug_flags: DebugFlags::empty(),
            max_recorded_profiles: 0,
            debug: false,
            enable_scrollbars: false,
            precache_shaders: false,
            renderer_kind: RendererKind::Native,
            enable_subpixel_aa: false,
            clear_framebuffer: true,
            clear_color: ColorF::white(),
            enable_clear_scissor: true,
            enable_batcher: true,
            max_texture_size: None,
            enable_render_on_scroll: true,
            renderer_id: None,
        }
    }
}

/// How glyphs are rasterized.
#[derive(Clone, Copy, Debug, PartialEq, Eq, Structural)]
pub enum FontRenderMode {
    Mono,
    Alpha,
    Subpixel,
}

/// The mode for fonts that ask for none: without smoothing there is no smoothing for each
/// channel either.
pub open spec fn spec_font_render_mode(enable_aa: bool, enable_subpixel_aa: bool) -> FontRenderMode {
    if !enable_aa {
        FontRenderMode::Mono
    } else if enable_subpixel_aa {
        FontRenderMode::Subpixel
    } else {
        FontRenderMode::Alpha
    }
}

pub fn default_font_render_mode(options: &RendererOptions) -> (r: FontRenderMode)
    ensures
        r == spec_font_render_mode(options.enable_aa, options.enable_subpixel_aa),
{
    match (options.enable_aa, options.enable_subpixel_aa) {
        (true, true) => FontRenderMode::Subpixel,
        (true, false) => FontRenderMode::Alpha,
        (false, _) => FontRenderMode::Mono,
    }
}

/// What frames are built with.
#[derive(Clone, Copy, Debug, PartialEq, Eq, Structural)]
pub struct FrameBuilderConfig {
    pub enable_scrollbars: bool,
    pub default_font_render_mode: FontRenderMode,
    pub debug: bool,
}

/// The greatest size of textures: what the device can do, unless less is wanted, but
/// never less than what the texture cache needs.
pub open spec fn device_size(device_max: u32, wanted: Option<u32>) -> u32 {
    let limit = match wanted {
        Some(size) => if size < device_max {
            size
        } else {
            device_max
        },
        None => device_max,
    };
    if limit < MIN_TEXTURE_SIZE {
        MIN_TEXTURE_SIZE
    } else {
        limit
    }
}

/// The greatest size of textures, or an error where the device cannot hold textures that
/// are large enough.
pub fn max_device_size(device_max_size: u32, wanted: Option<u32>) -> (r: Result<
    u32,
    RendererError,
>)
    ensures
        match r {
            Ok(size) => device_max_size >= MIN_TEXTURE_SIZE && size == device_size(
                device_max_size,
                wanted,
            ),
            Err(e) => device_max_size < MIN_TEXTURE_SIZE && e is MaxTextureSize,
        },
{
    if device_max_size < MIN_TEXTURE_SIZE {
        return Err(RendererError::MaxTextureSize);
    }
    let mut size: u32 = device_max_size;
    if let Some(wanted_size) = wanted {
        if wanted_size < size {
            size = wanted_size;
        }
    }
    if size < MIN_TEXTURE_SIZE {
        size = MIN_TEXTURE_SIZE;
    }
    Ok(size)
}

/// Where the device can do enough, the size is one that it can do, and enough.
pub proof fn device_size_is_usable(device_max: u32, wanted: Option<u32>)
    requires
        device_max >= MIN_TEXTURE_SIZE,
    ensures
        MIN_TEXTURE_SIZE <= device_size(device_max, wanted) <= device_max,
{
}

/// The thresholds by which colors are dithered, in a square of eight by eight.
pub fn dither_matrix() -> (r: [u8; 64])
    ensures
        r@ == spec_dither_matrix(),
{
    let r: [u8; 64] = [
        0, 48, 12, 60, 3, 51, 15, 63,
        32, 16, 44, 28, 35, 19, 47, 31,
        8, 56, 4, 52, 11, 59, 7, 55,
        40, 24, 36, 20, 43, 27, 39, 23,
        2, 50, 14, 62, 1, 49, 13, 61,
        34, 18, 46, 30, 33, 17, 45, 29,
        10, 58, 6, 54, 9, 57, 5, 53,
        42, 26, 38, 22, 41, 25, 37, 21,
    ];
    assert(r@ =~= spec_dither_matrix());
    r
}

pub open spec fn spec_dither_matrix() -> Seq<u8> {
    seq![
        0u8, 48, 12, 60, 3, 51, 15, 63,
        32, 16, 44, 28, 35, 19, 47, 31,
        8, 56, 4, 52, 11, 59, 7, 55,
        40, 24, 36, 20, 43, 27, 39, 23,
        2, 50, 14, 62, 1, 49, 13, 61,
        34, 18, 46, 30, 33, 17, 45, 29,
        10, 58, 6, 54, 9, 57, 5, 53,
        42, 26, 38, 22, 41, 25, 37, 21,
    ]
}

/// Every threshold from 0 to 63 is there once.
pub proof fn dither_thresholds_are_all_there(threshold: u8)
    requires
        threshold < 64,
    ensures
        exists|i: int| 0 <= i < 64 && #[trigger] spec_dither_matrix()[i] == threshold,
        spec_dither_matrix().len() == 64,
{
    let m = spec_dither_matrix();
    assert(m[0] == 0);
    assert(m[36] == 1);
    assert(m[32] == 2);
    assert(m[4] == 3);
    assert(m[18] == 4);
    assert(m[54] == 5);
    assert(m[50] == 6);
    assert(m[22] == 7);
    assert(m[16] == 8);
    assert(m[52] == 9);
    assert(m[48] == 10);
    assert(m[20] == 11);
    assert(m[2] == 12);
    assert(m[38] == 13);
    assert(m[34] == 14);
    assert(m[6] == 15);
    assert(m[9] == 16);
    assert(m[45] == 17);
    assert(m[41] == 18);
    assert(m[13] == 19);
    assert(m[27] == 20);
    assert(m[63] == 21);
    assert(m[59] == 22);
    assert(m[31] == 23);
    assert(m[25] == 24);
    assert(m[61] == 25);
    assert(m[57] == 26);
    assert(m[29] == 27);
    assert(m[11] == 28);
    assert(m[47] == 29);
    assert(m[43] == 30);
    assert(m[15] == 31);
    assert(m[8] == 32);
    assert(m[44] == 33);
    assert(m[40] == 34);
    assert(m[12] == 35);
    assert(m[26] == 36);
    assert(m[62] == 37);
    assert(m[58] == 38);
    assert(m[30] == 39);
    assert(m[24] == 40);
    assert(m[60] == 41);
    assert(m[56] == 42);
    assert(m[28] == 43);
    assert(m[10] == 44);
    assert(m[46] == 45);
    assert(m[42] == 46);
    assert(m[14] == 47);
    assert(m[1] == 48);
    assert(m[37] == 49);
    assert(m[33] == 50);
    assert(m[5] == 51);
    assert(m[19] == 52);
    assert(m[55] == 53);
    assert(m[51] == 54);
    assert(m[23] == 55);
    assert(m[17] == 56);
    assert(m[53] == 57);
    assert(m[49] == 58);
    assert(m[21] == 59);
    assert(m[3] == 60);
    assert(m[39] == 61);
    assert(m[35] == 62);
    assert(m[7] == 63);
}

/// The corners of a quad, in the order in which its two triangles take them.
pub fn quad_indices() -> (r: [u16; 6])
    ensures
        r@ == seq![0u16, 1, 2, 2, 1, 3],
{
    let r: [u16; 6] = [0, 1, 2, 2, 1, 3];
    assert(r@ =~= seq![0u16, 1, 2, 2, 1, 3]);
    r
}

/// What a shader is for.
#[derive(Clone, Copy, Debug, PartialEq, Eq, Structural)]
pub enum ShaderKind {
    Primitive,
    Cache(VertexArrayKind),
    ClipCache,
    Brush,
}

/// A shader that the renderer makes.
pub struct ShaderRequest {
    pub shader: Shader,
    pub kind: ShaderKind,
    pub name: &'static str,
    pub features: Vec<&'static str>,
}

/// A shader that the renderer makes, as a mathematical value.
#[verifier::ext_equal]
pub struct RequestView {
    pub shader: Shader,
    pub kind: ShaderKind,
    pub name: Seq<char>,
    pub features: Seq<Seq<char>>,
}

pub open spec fn texts(features: Seq<&'static str>) -> Seq<Seq<char>> {
    features.map_values(|f: &'static str| f@)
}

impl ShaderRequest {
    pub open spec fn view(self) -> RequestView {
        RequestView {
            shader: self.shader,
            kind: self.kind,
            name: self.name@,
            features: texts(self.features@),
        }
    }
}

pub open spec fn requests(list: Seq<ShaderRequest>) -> Seq<RequestView> {
    list.map_values(|r: ShaderRequest| r@)
}

/// A shader on its own.
pub open spec fn single(
    shader: Shader,
    kind: ShaderKind,
    name: Seq<char>,
    features: Seq<Seq<char>>,
) -> Seq<RequestView> {
    seq![RequestView { shader, kind, name, features }]
}

/// The two shaders of a primitive: for aligned ones, and for all.
pub open spec fn prim_pair(prim: PrimShader, name: Seq<char>, features: Seq<Seq<char>>) -> Seq<
    RequestView,
> {
    seq![
        RequestView {
            shader: Shader::Prim { prim, transform: TransformedRectKind::AxisAligned },
            kind: ShaderKind::Primitive,
            name,
            features,
        },
        RequestView {
            shader: Shader::Prim { prim, transform: TransformedRectKind::Complex },
            kind: ShaderKind::Primitive,
            name,
            features: features.push("TRANSFORM"@),
        },
    ]
}

/// The two shaders of a brush: for opaque ones, and with blending.
pub open spec fn brush_pair(target: RenderTargetKind, features: Seq<Seq<char>>) -> Seq<RequestView> {
    seq![
        RequestView {
            shader: Shader::BrushImage { target, alpha: false },
            kind: ShaderKind::Brush,
            name: "brush_image"@,
            features,
        },
        RequestView {
            shader: Shader::BrushImage { target, alpha: true },
            kind: ShaderKind::Brush,
            name: "brush_image"@,
            features: features.push("ALPHA_PASS"@),
        },
    ]
}

fn copy_texts(features: &Vec<&'static str>) -> (r: Vec<&'static str>)
    ensures
        r@ == features@,
{
    let mut r: Vec<&'static str> = Vec::new();
    let mut i: usize = 0;
    while i < features.len()
        invariant
            i <= features@.len(),
            r@ == features@.take(i as int),
        decreases features@.len() - i,
    {
        r.push(features[i]);
        i = i + 1;
        assert(r@ =~= features@.take(i as int));
    }
    assert(features@.take(i as int) =~= features@);
    r
}

fn add_single(
    list: &mut Vec<ShaderRequest>,
    shader: Shader,
    kind: ShaderKind,
    name: &'static str,
    features: Vec<&'static str>,
)
    ensures
        requests(final(list)@) == requests(old(list)@) + single(
            shader,
            kind,
            name@,
            texts(features@),
        ),
{
    list.push(ShaderRequest { shader, kind, name, features });
    assert(requests(list@) =~= requests(old(list)@) + single(shader, kind, name@, texts(features@)));
}

fn add_prim(
    list: &mut Vec<ShaderRequest>,
    prim: PrimShader,
    name: &'static str,
    features: Vec<&'static str>,
)
    ensures
        requests(final(list)@) == requests(old(list)@) + prim_pair(prim, name@, texts(features@)),
{
    let mut more = copy_texts(&features);
    more.push("TRANSFORM");
    assert(texts(more@) =~= texts(features@).push("TRANSFORM"@));
    let ghost before = requests(list@);
    add_single(
        list,
        Shader::Prim { prim, transform: TransformedRectKind::AxisAligned },
        ShaderKind::Primitive,
        name,
        features,
    );
    add_single(
        list,
        Shader::Prim { prim, transform: TransformedRectKind::Complex },
        ShaderKind::Primitive,
        name,
        more,
    );
    assert(requests(list@) =~= before + prim_pair(prim, name@, texts(features@)));
}

fn add_brush(list: &mut Vec<ShaderRequest>, target: RenderTargetKind, feature: &'static str)
    ensures
        requests(final(list)@) == requests(old(list)@) + brush_pair(target, seq![feature@]),
{
    let opaque: Vec<&'static str> = vec![feature];
    let alpha: Vec<&'static str> = vec![feature, "ALPHA_PASS"];
    assert(texts(opaque@) =~= seq![feature@]);
    assert(texts(alpha@) =~= seq![feature@].push("ALPHA_PASS"@));
    let ghost before = requests(list@);
    add_single(
        list,
        Shader::BrushImage { target, alpha: false },
        ShaderKind::Brush,
        "brush_image",
        opaque,
    );
    add_single(
        list,
        Shader::BrushImage { target, alpha: true },
        ShaderKind::Brush,
        "brush_image",
        alpha,
    );
    assert(requests(list@) =~= before + brush_pair(target, seq![feature@]));
}

impl YuvFormat {
    pub open spec fn spec_at(index: int) -> Self {
        if index == 0 {
            YuvFormat::NV12
        } else if index == 1 {
            YuvFormat::PlanarYCbCr
        } else {
            YuvFormat::InterleavedYCbCr
        }
    }

    pub fn at(index: usize) -> (r: Self)
        requires
            index < YUV_FORMATS,
        ensures
            r == Self::spec_at(index as int),
            r.spec_index() == index,
    {
        if index == 0 {
            YuvFormat::NV12
        } else if index == 1 {
            YuvFormat::PlanarYCbCr
        } else {
            YuvFormat::InterleavedYCbCr
        }
    }

    /// The feature for the format. Three planes need none.
    pub open spec fn feature(self) -> Seq<Seq<char>> {
        match self {
            YuvFormat::NV12 => seq!["NV12"@],
            YuvFormat::PlanarYCbCr => Seq::empty(),
            YuvFormat::InterleavedYCbCr => seq!["INTERLEAVED_Y_CB_CR"@],
        }
    }
}

impl YuvColorSpace {
    pub open spec fn spec_at(index: int) -> Self {
        if index == 0 {
            YuvColorSpace::Rec601
        } else {
            YuvColorSpace::Rec709
        }
    }

    pub fn at(index: usize) -> (r: Self)
        requires
            index < YUV_COLOR_SPACES,
        ensures
            r == Self::spec_at(index as int),
            r.spec_index() == index,
    {
        if index == 0 {
            YuvColorSpace::Rec601
        } else {
            YuvColorSpace::Rec709
        }
    }

    pub open spec fn feature(self) -> Seq<Seq<char>> {
        match self {
            YuvColorSpace::Rec601 => seq!["YUV_REC601"@],
            YuvColorSpace::Rec709 => seq!["YUV_REC709"@],
        }
    }
}

/// The feature for a kind of image buffer. Arrays need none.
pub open spec fn buffer_features(kind: ImageBufferKind) -> Seq<Seq<char>> {
    if kind is Texture2DArray {
        Seq::empty()
    } else {
        seq![kind.spec_feature_string()]
    }
}

fn push_buffer_feature(features: &mut Vec<&'static str>, kind: ImageBufferKind)
    ensures
        texts(final(features)@) == texts(old(features)@) + buffer_features(kind),
{
    match kind {
        ImageBufferKind::Texture2DArray => {},
        _ => {
            features.push(kind.get_feature_string());
        },
    }
    assert(texts(features@) =~= texts(old(features)@) + buffer_features(kind));
}

/// The shaders for images of the first `n` kinds of image buffer.
pub open spec fn image_plan(n: int, gl_type: GlType) -> Seq<RequestView>
    decreases n,
{
    if n <= 0 {
        Seq::empty()
    } else {
        let kind = ImageBufferKind::spec_at(n - 1);
        let before = image_plan(n - 1, gl_type);
        if kind.spec_has_platform_support(gl_type) {
            before + prim_pair(PrimShader::Image(kind), "ps_image"@, buffer_features(kind))
        } else {
            before
        }
    }
}

fn add_images(list: &mut Vec<ShaderRequest>, gl_type: GlType)
    ensures
        requests(final(list)@) == requests(old(list)@) + image_plan(
            IMAGE_BUFFER_KINDS as int,
            gl_type,
        ),
{
    let ghost before = requests(list@);
    let mut i: usize = 0;
    assert(before + image_plan(0, gl_type) =~= before);
    while i < IMAGE_BUFFER_KINDS
        invariant
            i <= IMAGE_BUFFER_KINDS,
            requests(list@) == before + image_plan(i as int, gl_type),
        decreases IMAGE_BUFFER_KINDS - i,
    {
        let kind = ImageBufferKind::at(i);
        if kind.has_platform_support(&gl_type) {
            let mut features: Vec<&'static str> = Vec::new();
            push_buffer_feature(&mut features, kind);
            assert(texts(features@) =~= buffer_features(kind));
            add_prim(list, PrimShader::Image(kind), "ps_image", features);
        }
        i = i + 1;
        assert(requests(list@) =~= before + image_plan(i as int, gl_type));
    }
}

/// The two shaders for one way to store YUV images.
pub open spec fn yuv_pair(
    kind: ImageBufferKind,
    format: YuvFormat,
    space: YuvColorSpace,
) -> Seq<RequestView> {
    prim_pair(
        PrimShader::YuvImage(spec_yuv_shader_index(kind, format, space) as usize),
        "ps_yuv_image"@,
        buffer_features(kind) + format.feature() + space.feature(),
    )
}

/// The shaders for YUV images, for the first `n` combinations of a kind of image buffer, a
/// format and a color space.
pub open spec fn yuv_plan(n: int, gl_type: GlType) -> Seq<RequestView>
    decreases n,
{
    if n <= 0 {
        Seq::empty()
    } else {
        let kind = ImageBufferKind::spec_at((n - 1) / 6);
        let before = yuv_plan(n - 1, gl_type);
        if kind.spec_has_platform_support(gl_type) {
            before + yuv_pair(
                kind,
                YuvFormat::spec_at((n - 1) / 2 % 3),
                YuvColorSpace::spec_at((n - 1) % 2),
            )
        } else {
            before
        }
    }
}

fn add_yuv(
    list: &mut Vec<ShaderRequest>,
    kind: ImageBufferKind,
    format: YuvFormat,
    space: YuvColorSpace,
)
    ensures
        requests(final(list)@) == requests(old(list)@) + yuv_pair(kind, format, space),
{
    let mut features: Vec<&'static str> = Vec::new();
    push_buffer_feature(&mut features, kind);
    let ghost first = texts(features@);
    match format {
        YuvFormat::NV12 => {
            features.push("NV12");
        },
        YuvFormat::PlanarYCbCr => {},
        YuvFormat::InterleavedYCbCr => {
            features.push("INTERLEAVED_Y_CB_CR");
        },
    }
    assert(texts(features@) =~= first + format.feature());
    match space {
        YuvColorSpace::Rec601 => {
            features.push("YUV_REC601");
        },
        YuvColorSpace::Rec709 => {
            features.push("YUV_REC709");
        },
    }
    assert(texts(features@) =~= buffer_features(kind) + format.feature() + space.feature());
    add_prim(
        list,
        PrimShader::YuvImage(get_yuv_shader_index(kind, format, space)),
        "ps_yuv_image",
        features,
    );
}

fn add_yuv_images(list: &mut Vec<ShaderRequest>, gl_type: GlType)
    ensures
        requests(final(list)@) == requests(old(list)@) + yuv_plan(24, gl_type),
{
    let ghost before = requests(list@);
    let mut i: usize = 0;
    assert(before + yuv_plan(0, gl_type) =~= before);
    while i < 24
        invariant
            i <= 24,
            requests(list@) == before + yuv_plan(i as int, gl_type),
        decreases 24 - i,
    {
        let kind = ImageBufferKind::at(i / 6);
        if kind.has_platform_support(&gl_type) {
            add_yuv(list, kind, YuvFormat::at(i / 2 % 3), YuvColorSpace::at(i % 2));
        }
        i = i + 1;
        assert(requests(list@) =~= before + yuv_plan(i as int, gl_type));
    }
}

/// The shaders for caches and clips.
pub open spec fn cache_plan() -> Seq<RequestView> {
    let prim = ShaderKind::Cache(VertexArrayKind::Primitive);
    let blur = ShaderKind::Cache(VertexArrayKind::Blur);
    let none = Seq::<Seq<char>>::empty();
    single(Shader::CsTextRun, prim, "cs_text_run"@, none) + single(
        Shader::CsLine,
        prim,
        "ps_line"@,
        seq!["CACHE"@],
    ) + single(Shader::BrushMaskCorner, ShaderKind::Brush, "brush_mask_corner"@, none) + single(
        Shader::BrushMaskRoundedRect,
        ShaderKind::Brush,
        "brush_mask_rounded_rect"@,
        none,
    ) + brush_pair(RenderTargetKind::Alpha, seq!["ALPHA_TARGET"@]) + brush_pair(
        RenderTargetKind::Color,
        seq!["COLOR_TARGET"@],
    ) + single(Shader::CsBlurA8, blur, "cs_blur"@, seq!["ALPHA_TARGET"@]) + single(
        Shader::CsBlurRgba8,
        blur,
        "cs_blur"@,
        seq!["COLOR_TARGET"@],
    ) + single(Shader::CsClipRectangle, ShaderKind::ClipCache, "cs_clip_rectangle"@, none) + single(
        Shader::CsClipImage,
        ShaderKind::ClipCache,
        "cs_clip_image"@,
        none,
    ) + single(Shader::CsClipBorder, ShaderKind::ClipCache, "cs_clip_border"@, none)
}

/// The shaders for primitives without images.
pub open spec fn prim_plan() -> Seq<RequestView> {
    let none = Seq::<Seq<char>>::empty();
    prim_pair(PrimShader::Rectangle, "ps_rectangle"@, none) + prim_pair(
        PrimShader::RectangleClip,
        "ps_rectangle"@,
        seq!["CLIP"@],
    ) + prim_pair(PrimShader::Line, "ps_line"@, none) + prim_pair(
        PrimShader::TextRun,
        "ps_text_run"@,
        none,
    ) + prim_pair(
        PrimShader::TextRunSubpixelBackgroundPass1,
        "ps_text_run"@,
        seq!["SUBPX_BG_PASS1"@],
    )
}

pub open spec fn dither_features(enable_dithering: bool) -> Seq<Seq<char>> {
    if enable_dithering {
        seq!["DITHERING"@]
    } else {
        Seq::empty()
    }
}

/// The shaders for borders, gradients and composites.
pub open spec fn rest_plan(enable_dithering: bool) -> Seq<RequestView> {
    let none = Seq::<Seq<char>>::empty();
    let dither = dither_features(enable_dithering);
    prim_pair(PrimShader::BorderCorner, "ps_border_corner"@, none) + prim_pair(
        PrimShader::BorderEdge,
        "ps_border_edge"@,
        none,
    ) + prim_pair(PrimShader::Gradient, "ps_gradient"@, dither) + prim_pair(
        PrimShader::AngleGradient,
        "ps_angle_gradient"@,
        dither,
    ) + prim_pair(PrimShader::RadialGradient, "ps_radial_gradient"@, dither) + single(
        Shader::PsBlend,
        ShaderKind::Primitive,
        "ps_blend"@,
        none,
    ) + single(Shader::PsComposite, ShaderKind::Primitive, "ps_composite"@, none) + single(
        Shader::PsHwComposite,
        ShaderKind::Primitive,
        "ps_hardware_composite"@,
        none,
    ) + single(Shader::PsSplitComposite, ShaderKind::Primitive, "ps_split_composite"@, none)
}

/// All the shaders, in the order in which they are made.
pub open spec fn renderer_plan(gl_type: GlType, enable_dithering: bool) -> Seq<RequestView> {
    cache_plan() + prim_plan() + image_plan(IMAGE_BUFFER_KINDS as int, gl_type) + yuv_plan(
        24,
        gl_type,
    ) + rest_plan(enable_dithering)
}

fn no_features() -> (r: Vec<&'static str>)
    ensures
        texts(r@) == Seq::<Seq<char>>::empty(),
{
    let r: Vec<&'static str> = Vec::new();
    assert(texts(r@) =~= Seq::<Seq<char>>::empty());
    r
}

fn one_feature(feature: &'static str) -> (r: Vec<&'static str>)
    ensures
        texts(r@) == seq![feature@],
{
    let r: Vec<&'static str> = vec![feature];
    assert(texts(r@) =~= seq![feature@]);
    r
}

fn add_caches(list: &mut Vec<ShaderRequest>)
    ensures
        requests(final(list)@) == requests(old(list)@) + cache_plan(),
{
    let ghost before = requests(list@);
    let prim = ShaderKind::Cache(VertexArrayKind::Primitive);
    let blur = ShaderKind::Cache(VertexArrayKind::Blur);
    let clip = ShaderKind::ClipCache;
    let brush = ShaderKind::Brush;
    add_single(list, Shader::CsTextRun, prim, "cs_text_run", no_features());
    add_single(list, Shader::CsLine, prim, "ps_line", one_feature("CACHE"));
    add_single(list, Shader::BrushMaskCorner, brush, "brush_mask_corner", no_features());
    add_single(
        list,
        Shader::BrushMaskRoundedRect,
        brush,
        "brush_mask_rounded_rect",
        no_features(),
    );
    add_brush(list, RenderTargetKind::Alpha, "ALPHA_TARGET");
    add_brush(list, RenderTargetKind::Color, "COLOR_TARGET");
    add_single(list, Shader::CsBlurA8, blur, "cs_blur", one_feature("ALPHA_TARGET"));
    add_single(list, Shader::CsBlurRgba8, blur, "cs_blur", one_feature("COLOR_TARGET"));
    add_single(list, Shader::CsClipRectangle, clip, "cs_clip_rectangle", no_features());
    add_single(list, Shader::CsClipImage, clip, "cs_clip_image", no_features());
    add_single(list, Shader::CsClipBorder, clip, "cs_clip_border", no_features());
    assert(requests(list@) =~= before + cache_plan());
}

fn add_prims(list: &mut Vec<ShaderRequest>)
    ensures
        requests(final(list)@) == requests(old(list)@) + prim_plan(),
{
    let ghost before = requests(list@);
    add_prim(list, PrimShader::Rectangle, "ps_rectangle", no_features());
    add_prim(list, PrimShader::RectangleClip, "ps_rectangle", one_feature("CLIP"));
    add_prim(list, PrimShader::Line, "ps_line", no_features());
    add_prim(list, PrimShader::TextRun, "ps_text_run", no_features());
    add_prim(
        list,
        PrimShader::TextRunSubpixelBackgroundPass1,
        "ps_text_run",
        one_feature("SUBPX_BG_PASS1"),
    );
    assert(requests(list@) =~= before + prim_plan());
}

fn get_dither_features(enable_dithering: bool) -> (r: Vec<&'static str>)
    ensures
        texts(r@) == dither_features(enable_dithering),
{
    if enable_dithering {
        one_feature("DITHERING")
    } else {
        no_features()
    }
}

fn add_rest(list: &mut Vec<ShaderRequest>, enable_dithering: bool)
    ensures
        requests(final(list)@) == requests(old(list)@) + rest_plan(enable_dithering),
{
    let ghost before = requests(list@);
    let prim = ShaderKind::Primitive;
    add_prim(list, PrimShader::BorderCorner, "ps_border_corner", no_features());
    add_prim(list, PrimShader::BorderEdge, "ps_border_edge", no_features());
    add_prim(list, PrimShader::Gradient, "ps_gradient", get_dither_features(enable_dithering));
    add_prim(
        list,
        PrimShader::AngleGradient,
        "ps_angle_gradient",
        get_dither_features(enable_dithering),
    );
    add_prim(
        list,
        PrimShader::RadialGradient,
        "ps_radial_gradient",
        get_dither_features(enable_dithering),
    );
    add_single(list, Shader::PsBlend, prim, "ps_blend", no_features());
    add_single(list, Shader::PsComposite, prim, "ps_composite", no_features());
    add_single(list, Shader::PsHwComposite, prim, "ps_hardware_composite", no_features());
    add_single(list, Shader::PsSplitComposite, prim, "ps_split_composite", no_features());
    assert(requests(list@) =~= before + rest_plan(enable_dithering));
}

/// Everything that the renderer is set up with.
pub struct RendererSetup {
    pub max_device_size: u32,
    pub shaders: Vec<ShaderRequest>,
    /// The shaders are compiled at once.
    pub precache_shaders: bool,
    /// The texels of the dither texture, where colors are dithered.
    pub dither_matrix: Option<[u8; 64]>,
    pub config: FrameBuilderConfig,
    /// The name of the thread of the backend.
    pub thread_name: String,
}

/// The setup is the one for the device and the options.
pub open spec fn is_setup(
    setup: RendererSetup,
    device_max_size: u32,
    gl_type: GlType,
    options: RendererOptions,
) -> bool {
    &&& setup.max_device_size == device_size(device_max_size, options.max_texture_size)
    &&& requests(setup.shaders@) == renderer_plan(gl_type, options.enable_dithering)
    &&& setup.precache_shaders == options.precache_shaders
    &&& match setup.dither_matrix {
        Some(matrix) => options.enable_dithering && matrix@ == spec_dither_matrix(),
        None => !options.enable_dithering,
    }
    &&& setup.config == (FrameBuilderConfig {
        enable_scrollbars: options.enable_scrollbars,
        default_font_render_mode: spec_font_render_mode(
            options.enable_aa,
            options.enable_subpixel_aa,
        ),
        debug: options.debug,
    })
    &&& setup.thread_name@ == "WRRenderBackend#"@ + decimal(
        match options.renderer_id {
            Some(id) => id as nat,
            None => 0,
        },
    )
}

/// Sets up a renderer. A device that cannot hold textures that are large enough is
/// refused.
pub fn new_renderer(device_max_size: u32, gl_type: GlType, options: &RendererOptions) -> (r: Result<
    RendererSetup,
    RendererError,
>)
    ensures
        match r {
            Ok(setup) => device_max_size >= MIN_TEXTURE_SIZE && is_setup(
                setup,
                device_max_size,
                gl_type,
                *options,
            ),
            Err(e) => device_max_size < MIN_TEXTURE_SIZE && e is MaxTextureSize,
        },
{
    let max_device_size = match max_device_size(device_max_size, options.max_texture_size) {
        Ok(size) => size,
        Err(e) => {
            return Err(e);
        },
    };
    let mut shaders: Vec<ShaderRequest> = Vec::new();
    assert(requests(shaders@) =~= Seq::<RequestView>::empty());
    add_caches(&mut shaders);
    add_prims(&mut shaders);
    add_images(&mut shaders, gl_type);
    add_yuv_images(&mut shaders, gl_type);
    add_rest(&mut shaders, options.enable_dithering);
    assert(requests(shaders@) =~= renderer_plan(gl_type, options.enable_dithering));
    let dither = if options.enable_dithering {
        Some(dither_matrix())
    } else {
        None
    };
    let config = FrameBuilderConfig {
        enable_scrollbars: options.enable_scrollbars,
        default_font_render_mode: default_font_render_mode(options),
        debug: options.debug,
    };
    let id: u64 = match options.renderer_id {
        Some(id) => id,
        None => 0,
    };
    Ok(
        RendererSetup {
            max_device_size,
            shaders,
            precache_shaders: options.precache_shaders,
            dither_matrix: dither,
            config,
            thread_name: numbered("WRRenderBackend#", id),
        },
    )
}

/// The name of a worker thread.
pub fn worker_name(index: usize) -> (r: String)
    ensures
        r@ == "WRWorker#"@ + decimal(index as nat),
{
    numbered("WRWorker#", index as u64)
}

/// The layout of the instances that a shader reads.
pub open spec fn request_format(kind: ShaderKind) -> VertexArrayKind {
    match kind {
        ShaderKind::Primitive => VertexArrayKind::Primitive,
        ShaderKind::Brush => VertexArrayKind::Primitive,
        ShaderKind::Cache(format) => format,
        ShaderKind::ClipCache => VertexArrayKind::Clip,
    }
}

/// A program that is to be made from a shader.
pub struct ProgramRequest {
    pub name: &'static str,
    /// What is put before the source of the shader.
    pub prefix: String,
    pub format: VertexArrayKind,
    pub samplers: Vec<(&'static str, TextureSampler)>,
}

/// What defines a feature.
pub open spec fn feature_line(feature: Seq<char>) -> Seq<char> {
    "#define WR_FEATURE_"@ + feature + "\n"@
}

pub open spec fn feature_lines(features: Seq<Seq<char>>) -> Seq<char>
    decreases features.len(),
{
    if features.len() == 0 {
        Seq::empty()
    } else {
        feature_lines(features.drop_last()) + feature_line(features.last())
    }
}

pub open spec fn sampler_names(samplers: Seq<(&'static str, TextureSampler)>) -> Seq<
    (Seq<char>, TextureSampler),
> {
    samplers.map_values(|s: (&'static str, TextureSampler)| (s.0@, s.1))
}

/// The samplers of the shaders for primitives.
pub open spec fn prim_samplers() -> Seq<(Seq<char>, TextureSampler)> {
    seq![
        ("sColor0"@, TextureSampler::Color0),
        ("sColor1"@, TextureSampler::Color1),
        ("sColor2"@, TextureSampler::Color2),
        ("sDither"@, TextureSampler::Dither),
        ("sCacheA8"@, TextureSampler::CacheA8),
        ("sCacheRGBA8"@, TextureSampler::CacheRGBA8),
        ("sClipScrollNodes"@, TextureSampler::ClipScrollNodes),
        ("sRenderTasks"@, TextureSampler::RenderTasks),
        ("sResourceCache"@, TextureSampler::ResourceCache),
        ("sSharedCacheA8"@, TextureSampler::SharedCacheA8),
    ]
}

/// The samplers of the shaders for clips.
pub open spec fn clip_samplers() -> Seq<(Seq<char>, TextureSampler)> {
    seq![
        ("sColor0"@, TextureSampler::Color0),
        ("sClipScrollNodes"@, TextureSampler::ClipScrollNodes),
        ("sRenderTasks"@, TextureSampler::RenderTasks),
        ("sResourceCache"@, TextureSampler::ResourceCache),
        ("sSharedCacheA8"@, TextureSampler::SharedCacheA8),
    ]
}

/// The program of a shader for primitives.
pub fn create_prim_shader(
    name: &'static str,
    features: &Vec<&'static str>,
    vertex_format: VertexArrayKind,
) -> (r: ProgramRequest)
    ensures
        r.name@ == name@,
        r.prefix@ == "#define WR_MAX_VERTEX_TEXTURE_WIDTH 1024\n"@ + feature_lines(
            texts(features@),
        ),
        r.format == vertex_format,
        sampler_names(r.samplers@) == prim_samplers(),
{
    let mut prefix = String::new();
    prefix.append("#define WR_MAX_VERTEX_TEXTURE_WIDTH 1024\n");
    let ghost begun = prefix@;
    let mut i: usize = 0;
    assert(texts(features@).take(0) =~= Seq::<Seq<char>>::empty());
    assert(begun + feature_lines(texts(features@).take(0)) =~= begun);
    while i < features.len()
        invariant
            i <= features@.len(),
            prefix@ == begun + feature_lines(texts(features@).take(i as int)),
        decreases features@.len() - i,
    {
        let ghost next = texts(features@).take(i as int + 1);
        assert(next.drop_last() =~= texts(features@).take(i as int));
        prefix.append("#define WR_FEATURE_");
        prefix.append(features[i]);
        prefix.append("\n");
        i = i + 1;
        assert(prefix@ =~= begun + feature_lines(next));
    }
    assert(texts(features@).take(i as int) =~= texts(features@));
    let samplers: Vec<(&'static str, TextureSampler)> = vec![
        ("sColor0", TextureSampler::Color0),
        ("sColor1", TextureSampler::Color1),
        ("sColor2", TextureSampler::Color2),
        ("sDither", TextureSampler::Dither),
        ("sCacheA8", TextureSampler::CacheA8),
        ("sCacheRGBA8", TextureSampler::CacheRGBA8),
        ("sClipScrollNodes", TextureSampler::ClipScrollNodes),
        ("sRenderTasks", TextureSampler::RenderTasks),
        ("sResourceCache", TextureSampler::ResourceCache),
        ("sSharedCacheA8", TextureSampler::SharedCacheA8),
    ];
    assert(sampler_names(samplers@) =~= prim_samplers());
    let r = ProgramRequest { name, prefix, format: vertex_format, samplers };
    assert(r.prefix@ =~= "#define WR_MAX_VERTEX_TEXTURE_WIDTH 1024\n"@ + feature_lines(
        texts(features@),
    ));
    r
}

/// The program of a shader for clips, which are always transformed.
pub fn create_clip_shader(name: &'static str) -> (r: ProgramRequest)
    ensures
        r.name@ == name@,
        r.prefix@
            == "#define WR_MAX_VERTEX_TEXTURE_WIDTH 1024\n\n                          #define WR_FEATURE_TRANSFORM\n"@,
        r.format == VertexArrayKind::Clip,
        sampler_names(r.samplers@) == clip_samplers(),
{
    let mut prefix = String::new();
    prefix.append(
        "#define WR_MAX_VERTEX_TEXTURE_WIDTH 1024\n\n                          #define WR_FEATURE_TRANSFORM\n",
    );
    let samplers: Vec<(&'static str, TextureSampler)> = vec![
        ("sColor0", TextureSampler::Color0),
        ("sClipScrollNodes", TextureSampler::ClipScrollNodes),
        ("sRenderTasks", TextureSampler::RenderTasks),
        ("sResourceCache", TextureSampler::ResourceCache),
        ("sSharedCacheA8", TextureSampler::SharedCacheA8),
    ];
    assert(sampler_names(samplers@) =~= clip_samplers());
    let r = ProgramRequest { name, prefix, format: VertexArrayKind::Clip, samplers };
    assert(r.prefix@
        =~= "#define WR_MAX_VERTEX_TEXTURE_WIDTH 1024\n\n                          #define WR_FEATURE_TRANSFORM\n"@);
    r
}

/// The program of any shader of the renderer.
pub fn program_of(request: &ShaderRequest) -> (r: ProgramRequest)
    ensures
        r.name@ == request.name@,
        r.format == request_format(request.kind),
        match request.kind {
            ShaderKind::ClipCache => sampler_names(r.samplers@) == clip_samplers() && r.prefix@
                == "#define WR_MAX_VERTEX_TEXTURE_WIDTH 1024\n\n                          #define WR_FEATURE_TRANSFORM\n"@,
            _ => sampler_names(r.samplers@) == prim_samplers() && r.prefix@
                == "#define WR_MAX_VERTEX_TEXTURE_WIDTH 1024\n"@ + feature_lines(
                texts(request.features@),
            ),
        },
{
    match request.kind {
        ShaderKind::Primitive | ShaderKind::Brush => create_prim_shader(
            request.name,
            &request.features,
            VertexArrayKind::Primitive,
        ),
        ShaderKind::Cache(format) => create_prim_shader(request.name, &request.features, format),
        ShaderKind::ClipCache => create_clip_shader(request.name),
    }
}

/// The type of a number that a vertex shader reads.
#[derive(Clone, Copy, Debug, PartialEq, Eq, Structural)]
pub enum VertexAttributeKind {
    Float,
    Signed,
    Unsigned16,
}

/// Numbers that a vertex shader reads under one name.
pub struct VertexAttribute {
    pub name: &'static str,
    pub count: u32,
    pub kind: VertexAttributeKind,
}

/// The attributes by name.
pub open spec fn attributes(list: Seq<VertexAttribute>) -> Seq<(Seq<char>, u32, VertexAttributeKind)> {
    list.map_values(|a: VertexAttribute| (a.name@, a.count, a.kind))
}

pub open spec fn instance_layout(kind: VertexArrayKind) -> Seq<
    (Seq<char>, u32, VertexAttributeKind),
> {
    match kind {
        VertexArrayKind::Primitive => seq![
            ("aData0"@, 4u32, VertexAttributeKind::Signed),
            ("aData1"@, 4u32, VertexAttributeKind::Signed),
        ],
        VertexArrayKind::Blur => seq![
            ("aBlurRenderTaskAddress"@, 1u32, VertexAttributeKind::Signed),
            ("aBlurSourceTaskAddress"@, 1u32, VertexAttributeKind::Signed),
            ("aBlurDirection"@, 1u32, VertexAttributeKind::Signed),
            ("aBlurRegion"@, 4u32, VertexAttributeKind::Float),
        ],
        VertexArrayKind::Clip => seq![
            ("aClipRenderTaskAddress"@, 1u32, VertexAttributeKind::Signed),
            ("aClipLayerAddress"@, 1u32, VertexAttributeKind::Signed),
            ("aClipSegment"@, 1u32, VertexAttributeKind::Signed),
            ("aClipDataResourceAddress"@, 4u32, VertexAttributeKind::Unsigned16),
        ],
    }
}

/// What a vertex shader reads of each instance. Of each vertex it reads its two
/// coordinates, under the name `aPosition`.
pub fn instance_attributes(kind: VertexArrayKind) -> (r: Vec<VertexAttribute>)
    ensures
        attributes(r@) == instance_layout(kind),
{
    let signed = VertexAttributeKind::Signed;
    let r: Vec<VertexAttribute> = match kind {
        VertexArrayKind::Primitive => vec![
            VertexAttribute { name: "aData0", count: 4, kind: signed },
            VertexAttribute { name: "aData1", count: 4, kind: signed },
        ],
        VertexArrayKind::Blur => vec![
            VertexAttribute { name: "aBlurRenderTaskAddress", count: 1, kind: signed },
            VertexAttribute { name: "aBlurSourceTaskAddress", count: 1, kind: signed },
            VertexAttribute { name: "aBlurDirection", count: 1, kind: signed },
            VertexAttribute { name: "aBlurRegion", count: 4, kind: VertexAttributeKind::Float },
        ],
        VertexArrayKind::Clip => vec![
            VertexAttribute { name: "aClipRenderTaskAddress", count: 1, kind: signed },
            VertexAttribute { name: "aClipLayerAddress", count: 1, kind: signed },
            VertexAttribute { name: "aClipSegment", count: 1, kind: signed },
            VertexAttribute {
                name: "aClipDataResourceAddress",
                count: 4,
                kind: VertexAttributeKind::Unsigned16,
            },
        ],
    };
    assert(attributes(r@) =~= instance_layout(kind));
    r
}

} // verus!
