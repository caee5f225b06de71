//! How batches and render targets are drawn.

use crate::internal_types::{ColorF, RenderTargetKind};
use crate::renderer::commands::{
    BatchTextures, DrawCommand, DrawTarget, GpuTag, InstanceRange, IntRect, OrthoProjection,
    PrimShader, Shader, TextureLayer, TextureSampler, TransformedRectKind, VertexArrayKind,
};
use crate::renderer::shade::GlType;
use crate::renderer::textures::{Binding, SourceTexture, SourceTextureResolver, TextureId};
use crate::renderer::ImageBufferKind;
use vstd::prelude::*;

pub mod alpha_target;
pub mod color_drawn;
pub mod color_target;
pub mod device;
pub mod target_drawn;

verus! {

/// How the planes of a YUV image are stored.
#[derive(Clone, Copy, Debug, PartialEq, Eq, Structural)]
pub enum YuvFormat {
    NV12,
    PlanarYCbCr,
    InterleavedYCbCr,
}

#[derive(Clone, Copy, Debug, PartialEq, Eq, Structural)]
pub enum YuvColorSpace {
    Rec601,
    Rec709,
}

pub const YUV_FORMATS: usize = 3;

pub const YUV_COLOR_SPACES: usize = 2;

/// The number of shaders for YUV images.
pub const YUV_SHADERS: usize = 24;

impl YuvFormat {
    pub open spec fn spec_index(self) -> usize {
        match self {
            YuvFormat::NV12 => 0,
            YuvFormat::PlanarYCbCr => 1,
            YuvFormat::InterleavedYCbCr => 2,
        }
    }

    pub fn index(self) -> (r: usize)
        ensures
            r == self.spec_index(),
            r < YUV_FORMATS,
    {
        match self {
            YuvFormat::NV12 => 0,
            YuvFormat::PlanarYCbCr => 1,
            YuvFormat::InterleavedYCbCr => 2,
        }
    }
}

impl YuvColorSpace {
    pub open spec fn spec_index(self) -> usize {
        match self {
            YuvColorSpace::Rec601 => 0,
            YuvColorSpace::Rec709 => 1,
        }
    }

    pub fn index(self) -> (r: usize)
        ensures
            r == self.spec_index(),
            r < YUV_COLOR_SPACES,
    {
        match self {
            YuvColorSpace::Rec601 => 0,
            YuvColorSpace::Rec709 => 1,
        }
    }
}

pub open spec fn spec_yuv_shader_index(
    buffer_kind: ImageBufferKind,
    format: YuvFormat,
    color_space: YuvColorSpace,
) -> int {
    (buffer_kind.spec_index() * 3 + format.spec_index()) * 2 + color_space.spec_index()
}

/// The place of a shader in the list of those for YUV images.
pub fn get_yuv_shader_index(
    buffer_kind: ImageBufferKind,
    format: YuvFormat,
    color_space: YuvColorSpace,
) -> (r: usize)
    ensures
        r == spec_yuv_shader_index(buffer_kind, format, color_space),
        r < YUV_SHADERS,
{
    (buffer_kind.index() * YUV_FORMATS + format.index()) * YUV_COLOR_SPACES + color_space.index()
}

/// Every combination has a place of its own, and every place is that of a combination.
pub proof fn yuv_shaders_have_their_own_places(
    kind1: ImageBufferKind,
    format1: YuvFormat,
    space1: YuvColorSpace,
    kind2: ImageBufferKind,
    format2: YuvFormat,
    space2: YuvColorSpace,
)
    ensures
        spec_yuv_shader_index(kind1, format1, space1) < YUV_SHADERS,
        spec_yuv_shader_index(kind1, format1, space1) == spec_yuv_shader_index(
            kind2,
            format2,
            space2,
        ) ==> kind1 == kind2 && format1 == format2 && space1 == space2,
{
}

/// The pixels of a glyph.
#[derive(Clone, Copy, Debug, PartialEq, Eq, Structural)]
pub enum GlyphFormat {
    Mono,
    Alpha,
    Subpixel,
    ColorBitmap,
}

/// What the shader for text does with the pixels of a glyph.
#[derive(Clone, Copy, Debug, PartialEq, Eq, Structural)]
pub enum TextShaderMode {
    Alpha,
    SubpixelConstantTextColor,
    SubpixelPass0,
    SubpixelPass1,
    SubpixelWithBgColorPass0,
    SubpixelWithBgColorPass1,
    SubpixelWithBgColorPass2,
    ColorBitmap,
}

impl TextShaderMode {
    pub open spec fn spec_number(self) -> i32 {
        match self {
            TextShaderMode::Alpha => 0,
            TextShaderMode::SubpixelConstantTextColor => 1,
            TextShaderMode::SubpixelPass0 => 2,
            TextShaderMode::SubpixelPass1 => 3,
            TextShaderMode::SubpixelWithBgColorPass0 => 4,
            TextShaderMode::SubpixelWithBgColorPass1 => 5,
            TextShaderMode::SubpixelWithBgColorPass2 => 6,
            TextShaderMode::ColorBitmap => 7,
        }
    }

    /// The number that the shader knows the mode by.
    pub fn number(self) -> (r: i32)
        ensures
            r == self.spec_number(),
    {
        match self {
            TextShaderMode::Alpha => 0,
            TextShaderMode::SubpixelConstantTextColor => 1,
            TextShaderMode::SubpixelPass0 => 2,
            TextShaderMode::SubpixelPass1 => 3,
            TextShaderMode::SubpixelWithBgColorPass0 => 4,
            TextShaderMode::SubpixelWithBgColorPass1 => 5,
            TextShaderMode::SubpixelWithBgColorPass2 => 6,
            TextShaderMode::ColorBitmap => 7,
        }
    }

    pub open spec fn spec_from(format: GlyphFormat) -> Self {
        if format is ColorBitmap {
            TextShaderMode::ColorBitmap
        } else {
            TextShaderMode::Alpha
        }
    }

    /// The mode for glyphs that are blended by their alpha. Glyphs with an alpha for each
    /// channel are not.
    pub fn from_format(format: GlyphFormat) -> (r: Self)
        requires
            !(format is Subpixel),
        ensures
            r == Self::spec_from(format),
    {
        match format {
            GlyphFormat::ColorBitmap => TextShaderMode::ColorBitmap,
            _ => TextShaderMode::Alpha,
        }
    }
}

/// How a batch is blended with what is there.
#[derive(Clone, Copy, Debug, PartialEq, Eq, Structural)]
pub enum BlendMode {
    NoBlend,
    PremultipliedAlpha,
    PremultipliedDestOut,
    SubpixelConstantTextColor(ColorF),
    SubpixelWithBgColor,
    SubpixelVariableTextColor,
}

/// Batches of brushes.
#[derive(Clone, Copy, Debug, PartialEq, Eq, Structural)]
pub enum BrushBatchKind {
    Image(RenderTargetKind),
}

/// Batches that have a shader for aligned and one for transformed primitives.
#[derive(Clone, Copy, Debug, PartialEq, Eq, Structural)]
pub enum TransformBatchKind {
    /// Whether a clip mask is read.
    Rectangle(bool),
    TextRun(GlyphFormat),
    Image(ImageBufferKind),
    YuvImage(ImageBufferKind, YuvFormat, YuvColorSpace),
    AlignedGradient,
    AngleGradient,
    RadialGradient,
    BorderCorner,
    BorderEdge,
    Line,
}

/// What a batch draws. Tasks are given by their place.
#[derive(Clone, Copy, Debug, PartialEq, Eq, Structural)]
pub enum BatchKind {
    Composite { task_id: usize, source_id: usize, backdrop_id: usize },
    HardwareComposite,
    SplitComposite,
    Blend,
    Brush(BrushBatchKind),
    Transformable(TransformedRectKind, TransformBatchKind),
}

impl BatchKind {
    pub open spec fn spec_debug_name(self) -> Seq<char> {
        match self {
            BatchKind::Composite { .. } => "Composite"@,
            BatchKind::HardwareComposite => "HardwareComposite"@,
            BatchKind::SplitComposite => "SplitComposite"@,
            BatchKind::Blend => "Blend"@,
            BatchKind::Brush(BrushBatchKind::Image(_)) => "Brush (Image)"@,
            BatchKind::Transformable(_, kind) => match kind {
                TransformBatchKind::Rectangle(_) => "Rectangle"@,
                TransformBatchKind::TextRun(_) => "TextRun"@,
                TransformBatchKind::Image(ImageBufferKind::Texture2D) => "Image (2D)"@,
                TransformBatchKind::Image(ImageBufferKind::TextureRect) => "Image (Rect)"@,
                TransformBatchKind::Image(ImageBufferKind::TextureExternal) => "Image (External)"@,
                TransformBatchKind::Image(ImageBufferKind::Texture2DArray) => "Image (Array)"@,
                TransformBatchKind::YuvImage(_, _, _) => "YuvImage"@,
                TransformBatchKind::AlignedGradient => "AlignedGradient"@,
                TransformBatchKind::AngleGradient => "AngleGradient"@,
                TransformBatchKind::RadialGradient => "RadialGradient"@,
                TransformBatchKind::BorderCorner => "BorderCorner"@,
                TransformBatchKind::BorderEdge => "BorderEdge"@,
                TransformBatchKind::Line => "Line"@,
            },
        }
    }

    /// The name of the batch for a debugger.
    pub fn debug_name(&self) -> (r: &'static str)
        ensures
            r@ == self.spec_debug_name(),
    {
        match *self {
            BatchKind::Composite { .. } => "Composite",
            BatchKind::HardwareComposite => "HardwareComposite",
            BatchKind::SplitComposite => "SplitComposite",
            BatchKind::Blend => "Blend",
            BatchKind::Brush(kind) => match kind {
                BrushBatchKind::Image(_) => "Brush (Image)",
            },
            BatchKind::Transformable(_, kind) => match kind {
                TransformBatchKind::Rectangle(_) => "Rectangle",
                TransformBatchKind::TextRun(_) => "TextRun",
                TransformBatchKind::Image(image_buffer_kind) => match image_buffer_kind {
                    ImageBufferKind::Texture2D => "Image (2D)",
                    ImageBufferKind::TextureRect => "Image (Rect)",
                    ImageBufferKind::TextureExternal => "Image (External)",
                    ImageBufferKind::Texture2DArray => "Image (Array)",
                },
                TransformBatchKind::YuvImage(_, _, _) => "YuvImage",
                TransformBatchKind::AlignedGradient => "AlignedGradient",
                TransformBatchKind::AngleGradient => "AngleGradient",
                TransformBatchKind::RadialGradient => "RadialGradient",
                TransformBatchKind::BorderCorner => "BorderCorner",
                TransformBatchKind::BorderEdge => "BorderEdge",
                TransformBatchKind::Line => "Line",
            },
        }
    }
}

/// What the instances of a batch have in common.
#[derive(Clone, Copy, Debug, PartialEq, Eq, Structural)]
pub struct BatchKey {
    pub kind: BatchKind,
    pub blend_mode: BlendMode,
    pub textures: BatchTextures,
}

/// Instances that are drawn at once, and the rectangles that they cover.
pub struct PrimitiveBatch {
    pub key: BatchKey,
    pub instances: InstanceRange,
    pub item_rects: Vec<IntRect>,
}

/// A task, as far as its target is concerned.
#[derive(Clone, Copy, Debug, PartialEq, Eq, Structural)]
pub struct DrawTask {
    pub rect: IntRect,
    pub layer: i32,
    /// Where its content lies on the screen.
    pub screen_x: i32,
    pub screen_y: i32,
}

/// What drawing depends on, apart from what is drawn.
#[derive(Clone, Copy, Debug, PartialEq, Eq, Structural)]
pub struct DrawContext {
    pub gl_type: GlType,
    /// All the instances of a batch are drawn at once.
    pub enable_batcher: bool,
    /// Only the part of a target that is used is cleared.
    pub enable_clear_scissor: bool,
    pub dither_matrix_texture: Option<TextureId>,
    /// Blended primitives are framed.
    pub alpha_prim_debug: bool,
}

/// The target that is drawn to.
#[derive(Clone, Copy, Debug, PartialEq, Eq, Structural)]
pub struct TargetContext {
    pub render_target: DrawTarget,
    pub width: u32,
    pub height: u32,
    pub projection: OrthoProjection,
    /// The size of the color targets of the pass before.
    pub cache_width: u32,
    pub cache_height: u32,
}

/// The binding of a sampler, where the source is one.
pub open spec fn bind_command(
    resolver: SourceTextureResolver,
    source: SourceTexture,
    sampler: TextureSampler,
) -> Seq<DrawCommand> {
    match resolver.spec_bind(source) {
        Binding::Unchanged => Seq::empty(),
        binding => seq![DrawCommand::BindTexture { sampler, binding }],
    }
}

pub open spec fn texture_commands(resolver: SourceTextureResolver, textures: BatchTextures) -> Seq<
    DrawCommand,
> {
    bind_command(resolver, textures.color0, TextureSampler::Color0) + bind_command(
        resolver,
        textures.color1,
        TextureSampler::Color1,
    ) + bind_command(resolver, textures.color2, TextureSampler::Color2)
}

pub open spec fn dither_command(texture: Option<TextureId>) -> Seq<DrawCommand> {
    match texture {
        Some(texture) => seq![
            DrawCommand::BindTexture {
                sampler: TextureSampler::Dither,
                binding: Binding::Texture(texture),
            },
        ],
        None => Seq::empty(),
    }
}

/// The first `n` instances, each drawn for itself.
pub open spec fn single_draws(first: int, n: int) -> Seq<DrawCommand>
    decreases n,
{
    if n <= 0 {
        Seq::empty()
    } else {
        single_draws(first, n - 1) + seq![
            DrawCommand::UploadInstances(
                InstanceRange { first: (first + n - 1) as usize, count: 1 },
            ),
            DrawCommand::DrawOne,
        ]
    }
}

/// What draws instances with textures.
pub open spec fn instanced_commands(
    ctx: DrawContext,
    resolver: SourceTextureResolver,
    data: InstanceRange,
    kind: VertexArrayKind,
    textures: BatchTextures,
) -> Seq<DrawCommand> {
    texture_commands(resolver, textures) + dither_command(ctx.dither_matrix_texture)
        + seq![DrawCommand::BindVao(kind)] + (if ctx.enable_batcher {
        seq![
            DrawCommand::UploadInstances(data),
            DrawCommand::DrawInstanced { count: data.count },
        ]
    } else {
        single_draws(data.first as int, data.count as int)
    })
}

pub open spec fn can_bind_all(resolver: SourceTextureResolver, textures: BatchTextures) -> bool {
    &&& resolver.can_bind(textures.color0)
    &&& resolver.can_bind(textures.color1)
    &&& resolver.can_bind(textures.color2)
}

pub open spec fn range_ok(data: InstanceRange) -> bool {
    data.first + data.count <= usize::MAX
}

pub(crate) fn push_binding(
    out: &mut Vec<DrawCommand>,
    resolver: &SourceTextureResolver,
    source: &SourceTexture,
    sampler: TextureSampler,
)
    requires
        resolver.can_bind(*source),
    ensures
        final(out)@ == old(out)@ + bind_command(*resolver, *source, sampler),
{
    match resolver.bind(source) {
        Binding::Unchanged => {
            assert(out@ =~= out@ + Seq::<DrawCommand>::empty());
        },
        binding => {
            out.push(DrawCommand::BindTexture { sampler, binding });
        },
    }
    assert(out@ =~= old(out)@ + bind_command(*resolver, *source, sampler));
}

fn push_single_draws(out: &mut Vec<DrawCommand>, data: InstanceRange)
    requires
        range_ok(data),
    ensures
        final(out)@ == old(out)@ + single_draws(data.first as int, data.count as int),
{
    let mut i: usize = 0;
    assert(out@ =~= old(out)@ + single_draws(data.first as int, 0));
    while i < data.count
        invariant
            i <= data.count,
            range_ok(data),
            out@ == old(out)@ + single_draws(data.first as int, i as int),
        decreases data.count - i,
    {
        out.push(
            DrawCommand::UploadInstances(InstanceRange { first: data.first + i, count: 1 }),
        );
        out.push(DrawCommand::DrawOne);
        i = i + 1;
        assert(out@ =~= old(out)@ + single_draws(data.first as int, i as int));
    }
}

/// Draws instances with textures.
pub fn draw_instanced_batch(
    out: &mut Vec<DrawCommand>,
    ctx: &DrawContext,
    resolver: &SourceTextureResolver,
    data: InstanceRange,
    vertex_array_kind: VertexArrayKind,
    textures: &BatchTextures,
)
    requires
        can_bind_all(*resolver, *textures),
        range_ok(data),
    ensures
        final(out)@ == old(out)@ + instanced_commands(
            *ctx,
            *resolver,
            data,
            vertex_array_kind,
            *textures,
        ),
{
    push_binding(out, resolver, &textures.color0, TextureSampler::color(0));
    push_binding(out, resolver, &textures.color1, TextureSampler::color(1));
    push_binding(out, resolver, &textures.color2, TextureSampler::color(2));
    if let Some(texture) = ctx.dither_matrix_texture {
        out.push(
            DrawCommand::BindTexture {
                sampler: TextureSampler::Dither,
                binding: Binding::Texture(texture),
            },
        );
    }
    out.push(DrawCommand::BindVao(vertex_array_kind));
    if ctx.enable_batcher {
        out.push(DrawCommand::UploadInstances(data));
        out.push(DrawCommand::DrawInstanced { count: data.count });
    } else {
        push_single_draws(out, data);
    }
    assert(out@ =~= old(out)@ + instanced_commands(
        *ctx,
        *resolver,
        data,
        vertex_array_kind,
        *textures,
    ));
}

/// How many draw calls and vertices are counted for a command.
pub open spec fn command_counts(command: DrawCommand) -> (int, int) {
    match command {
        DrawCommand::DrawInstanced { count } => (1, 6 * count),
        DrawCommand::DrawOne => (1, 6),
        _ => (0, 0),
    }
}

/// How many draw calls and vertices are counted.
pub open spec fn draw_counts(commands: Seq<DrawCommand>) -> (int, int)
    decreases commands.len(),
{
    if commands.len() == 0 {
        (0, 0)
    } else {
        let before = draw_counts(commands.drop_last());
        let last = command_counts(commands.last());
        (before.0 + last.0, before.1 + last.1)
    }
}

proof fn lemma_counts_add(a: Seq<DrawCommand>, b: Seq<DrawCommand>)
    ensures
        draw_counts(a + b).0 == draw_counts(a).0 + draw_counts(b).0,
        draw_counts(a + b).1 == draw_counts(a).1 + draw_counts(b).1,
    decreases b.len(),
{
    if b.len() == 0 {
        assert(a + b =~= a);
    } else {
        lemma_counts_add(a, b.drop_last());
        assert((a + b).drop_last() =~= a + b.drop_last());
        assert((a + b).last() == b.last());
    }
}

proof fn lemma_single_counts(first: int, n: int)
    requires
        0 <= n,
    ensures
        draw_counts(single_draws(first, n)) == (n, 6 * n),
    decreases n,
{
    if n > 0 {
        lemma_single_counts(first, n - 1);
        let two = seq![
            DrawCommand::UploadInstances(
                InstanceRange { first: (first + n - 1) as usize, count: 1 },
            ),
            DrawCommand::DrawOne,
        ];
        lemma_counts_add(single_draws(first, n - 1), two);
        assert(two.drop_last().drop_last() =~= Seq::<DrawCommand>::empty());
        reveal_with_fuel(draw_counts, 3);
    }
}

proof fn lemma_no_draws(commands: Seq<DrawCommand>)
    requires
        forall|i: int|
            0 <= i < commands.len() ==> command_counts(#[trigger] commands[i]) == (0int, 0int),
    ensures
        draw_counts(commands) == (0int, 0int),
    decreases commands.len(),
{
    if commands.len() > 0 {
        assert forall|i: int| 0 <= i < commands.drop_last().len() implies command_counts(
            #[trigger] commands.drop_last()[i],
        ) == (0int, 0int) by {
            assert(commands.drop_last()[i] == commands[i]);
        }
        lemma_no_draws(commands.drop_last());
    }
}

/// Drawing instances takes six vertices for each of them, whether they are drawn at once
/// or one by one; at once it is a single call.
pub proof fn batches_are_counted(
    ctx: DrawContext,
    resolver: SourceTextureResolver,
    data: InstanceRange,
    kind: VertexArrayKind,
    textures: BatchTextures,
)
    ensures
        draw_counts(instanced_commands(ctx, resolver, data, kind, textures)) == (
            if ctx.enable_batcher {
                1int
            } else {
                data.count as int
            },
            6 * data.count,
        ),
{
    let setup = texture_commands(resolver, textures) + dither_command(ctx.dither_matrix_texture)
        + seq![DrawCommand::BindVao(kind)];
    lemma_no_draws(setup);
    if ctx.enable_batcher {
        let draws = seq![
            DrawCommand::UploadInstances(data),
            DrawCommand::DrawInstanced { count: data.count },
        ];
        lemma_counts_add(setup, draws);
        assert(draws.drop_last().drop_last() =~= Seq::<DrawCommand>::empty());
        reveal_with_fuel(draw_counts, 3);
    } else {
        lemma_counts_add(setup, single_draws(data.first as int, data.count as int));
        lemma_single_counts(data.first as int, data.count as int);
    }
}

/// Counts draw calls and vertices.
pub fn count_draws(commands: &Vec<DrawCommand>) -> (r: (u64, u64))
    requires
        draw_counts(commands@).0 <= u64::MAX,
        draw_counts(commands@).1 <= u64::MAX,
    ensures
        r.0 == draw_counts(commands@).0,
        r.1 == draw_counts(commands@).1,
{
    let mut calls: u64 = 0;
    let mut vertices: u64 = 0;
    let mut i: usize = 0;
    assert(commands@.take(0) =~= Seq::<DrawCommand>::empty());
    while i < commands.len()
        invariant
            i <= commands@.len(),
            calls == draw_counts(commands@.take(i as int)).0,
            vertices == draw_counts(commands@.take(i as int)).1,
            draw_counts(commands@).0 <= u64::MAX,
            draw_counts(commands@).1 <= u64::MAX,
        decreases commands@.len() - i,
    {
        let ghost next = commands@.take(i as int + 1);
        proof {
            assert(next.drop_last() =~= commands@.take(i as int));
            lemma_counts_grow(commands@, i as int + 1);
        }
        match commands[i] {
            DrawCommand::DrawInstanced { count } => {
                calls = calls + 1;
                vertices = vertices + 6 * count as u64;
            },
            DrawCommand::DrawOne => {
                calls = calls + 1;
                vertices = vertices + 6;
            },
            _ => {},
        }
        i = i + 1;
    }
    assert(commands@.take(i as int) =~= commands@);
    (calls, vertices)
}

proof fn lemma_counts_grow(commands: Seq<DrawCommand>, n: int)
    requires
        0 <= n <= commands.len(),
    ensures
        0 <= draw_counts(commands.take(n)).0 <= draw_counts(commands).0,
        0 <= draw_counts(commands.take(n)).1 <= draw_counts(commands).1,
    decreases commands.len(),
{
    if n == commands.len() {
        assert(commands.take(n) =~= commands);
        if n > 0 {
            lemma_counts_grow(commands.drop_last(), n - 1);
        }
    } else {
        lemma_counts_grow(commands.drop_last(), n);
        assert(commands.drop_last().take(n) =~= commands.take(n));
    }
}

/// The shader of a batch, and the label that it is measured under.
pub open spec fn batch_shader(key: BatchKey) -> (Shader, GpuTag) {
    match key.kind {
        BatchKind::Composite { .. } => (Shader::PsComposite, GpuTag::PrimComposite),
        BatchKind::HardwareComposite => (Shader::PsHwComposite, GpuTag::PrimHwComposite),
        BatchKind::SplitComposite => (Shader::PsSplitComposite, GpuTag::PrimSplitComposite),
        BatchKind::Blend => (Shader::PsBlend, GpuTag::PrimBlend),
        BatchKind::Brush(BrushBatchKind::Image(target)) => (
            Shader::BrushImage { target, alpha: !(key.blend_mode is NoBlend) },
            GpuTag::BrushImage,
        ),
        BatchKind::Transformable(transform, kind) => {
            let (prim, tag) = match kind {
                TransformBatchKind::Rectangle(needs_clipping) => (
                    if needs_clipping {
                        PrimShader::RectangleClip
                    } else {
                        PrimShader::Rectangle
                    },
                    GpuTag::PrimRect,
                ),
                TransformBatchKind::Line => (PrimShader::Line, GpuTag::PrimLine),
                TransformBatchKind::TextRun(_) => (PrimShader::TextRun, GpuTag::PrimTextRun),
                TransformBatchKind::Image(kind) => (PrimShader::Image(kind), GpuTag::PrimImage),
                TransformBatchKind::YuvImage(kind, format, space) => (
                    PrimShader::YuvImage(spec_yuv_shader_index(kind, format, space) as usize),
                    GpuTag::PrimYuvImage,
                ),
                TransformBatchKind::BorderCorner => (
                    PrimShader::BorderCorner,
                    GpuTag::PrimBorderCorner,
                ),
                TransformBatchKind::BorderEdge => (PrimShader::BorderEdge, GpuTag::PrimBorderEdge),
                TransformBatchKind::AlignedGradient => (
                    PrimShader::Gradient,
                    GpuTag::PrimGradient,
                ),
                TransformBatchKind::AngleGradient => (
                    PrimShader::AngleGradient,
                    GpuTag::PrimAngleGradient,
                ),
                TransformBatchKind::RadialGradient => (
                    PrimShader::RadialGradient,
                    GpuTag::PrimRadialGradient,
                ),
            };
            (Shader::Prim { prim, transform }, tag)
        },
    }
}

/// The batch is one that `submit_batch` draws: not text, of a kind of image that the
/// device reads, and blended where it reads a clip mask.
pub open spec fn batch_shader_ok(key: BatchKey, gl_type: GlType) -> bool {
    match key.kind {
        BatchKind::Transformable(_, TransformBatchKind::TextRun(_)) => false,
        BatchKind::Transformable(_, TransformBatchKind::Rectangle(needs_clipping)) =>
            !needs_clipping || !(key.blend_mode is NoBlend),
        BatchKind::Transformable(_, TransformBatchKind::Image(kind)) =>
            kind.spec_has_platform_support(gl_type),
        BatchKind::Transformable(_, TransformBatchKind::YuvImage(kind, _, _)) =>
            kind.spec_has_platform_support(gl_type),
        _ => true,
    }
}

fn get_batch_shader(key: &BatchKey) -> (r: (Shader, GpuTag))
    ensures
        r == batch_shader(*key),
{
    match key.kind {
        BatchKind::Composite { .. } => (Shader::PsComposite, GpuTag::PrimComposite),
        BatchKind::HardwareComposite => (Shader::PsHwComposite, GpuTag::PrimHwComposite),
        BatchKind::SplitComposite => (Shader::PsSplitComposite, GpuTag::PrimSplitComposite),
        BatchKind::Blend => (Shader::PsBlend, GpuTag::PrimBlend),
        BatchKind::Brush(BrushBatchKind::Image(target)) => {
            let alpha = match key.blend_mode {
                BlendMode::NoBlend => false,
                BlendMode::PremultipliedAlpha
                | BlendMode::PremultipliedDestOut
                | BlendMode::SubpixelConstantTextColor(_)
                | BlendMode::SubpixelVariableTextColor
                | BlendMode::SubpixelWithBgColor => true,
            };
            (Shader::BrushImage { target, alpha }, GpuTag::BrushImage)
        },
        BatchKind::Transformable(transform, kind) => {
            let (prim, tag) = match kind {
                TransformBatchKind::Rectangle(needs_clipping) => {
                    if needs_clipping {
                        (PrimShader::RectangleClip, GpuTag::PrimRect)
                    } else {
                        (PrimShader::Rectangle, GpuTag::PrimRect)
                    }
                },
                TransformBatchKind::Line => (PrimShader::Line, GpuTag::PrimLine),
                TransformBatchKind::TextRun(_) => (PrimShader::TextRun, GpuTag::PrimTextRun),
                TransformBatchKind::Image(kind) => (PrimShader::Image(kind), GpuTag::PrimImage),
                TransformBatchKind::YuvImage(kind, format, space) => (
                    PrimShader::YuvImage(get_yuv_shader_index(kind, format, space)),
                    GpuTag::PrimYuvImage,
                ),
                TransformBatchKind::BorderCorner => (
                    PrimShader::BorderCorner,
                    GpuTag::PrimBorderCorner,
                ),
                TransformBatchKind::BorderEdge => (PrimShader::BorderEdge, GpuTag::PrimBorderEdge),
                TransformBatchKind::AlignedGradient => (
                    PrimShader::Gradient,
                    GpuTag::PrimGradient,
                ),
                TransformBatchKind::AngleGradient => (
                    PrimShader::AngleGradient,
                    GpuTag::PrimAngleGradient,
                ),
                TransformBatchKind::RadialGradient => (
                    PrimShader::RadialGradient,
                    GpuTag::PrimRadialGradient,
                ),
            };
            (Shader::Prim { prim, transform }, tag)
        },
    }
}

/// The part of the target that lies behind a composited task.
pub open spec fn readback_source(backdrop: DrawTask, source: DrawTask, readback: DrawTask) -> IntRect {
    IntRect {
        x: (backdrop.rect.x - backdrop.screen_x + source.screen_x) as i32,
        y: (backdrop.rect.y - backdrop.screen_y + source.screen_y) as i32,
        width: readback.rect.width,
        height: readback.rect.height,
    }
}

/// What is copied where before tasks are composited. On the screen rows are counted from
/// the bottom, and the copy is turned over.
pub open spec fn readback_blit(
    backdrop: DrawTask,
    source: DrawTask,
    readback: DrawTask,
    target: TargetContext,
) -> (IntRect, IntRect) {
    let src = readback_source(backdrop, source, readback);
    let dest = readback.rect;
    if target.render_target is None {
        (
            IntRect { y: (target.height - src.height - src.y) as i32, ..src },
            IntRect {
                y: (dest.y + dest.height) as i32,
                height: (-dest.height) as i32,
                ..dest
            },
        )
    } else {
        (src, dest)
    }
}

pub open spec fn fits_i32(n: int) -> bool {
    i32::MIN <= n <= i32::MAX
}

/// The rectangles of the copy can be computed.
pub open spec fn readback_ok(
    backdrop: DrawTask,
    source: DrawTask,
    readback: DrawTask,
    target: TargetContext,
) -> bool {
    let x = backdrop.rect.x - backdrop.screen_x;
    let y = backdrop.rect.y - backdrop.screen_y;
    &&& fits_i32(x)
    &&& fits_i32(y)
    &&& fits_i32(x + source.screen_x)
    &&& fits_i32(y + source.screen_y)
    &&& target.render_target is None ==> {
        &&& target.height <= i32::MAX
        &&& fits_i32(target.height - readback.rect.height)
        &&& fits_i32(target.height - readback.rect.height - (y + source.screen_y))
        &&& fits_i32(readback.rect.y + readback.rect.height)
        &&& readback.rect.height > i32::MIN
    }
}

/// What is done before tasks are composited: the pixels behind them are copied to where
/// the shader reads them.
pub open spec fn readback_commands(
    kind: BatchKind,
    tasks: Seq<DrawTask>,
    resolver: SourceTextureResolver,
    target: TargetContext,
) -> Seq<DrawCommand> {
    match kind {
        BatchKind::Composite { task_id, source_id, backdrop_id } => {
            let readback = tasks[backdrop_id as int];
            let (src, dest) = readback_blit(
                tasks[task_id as int],
                tasks[source_id as int],
                readback,
                target,
            );
            seq![
                DrawCommand::BindDrawTarget {
                    target: Some(
                        TextureLayer {
                            texture: resolver.spec_bind(SourceTexture::CacheRGBA8)->Texture_0,
                            layer: readback.layer,
                        },
                    ),
                    width: target.cache_width,
                    height: target.cache_height,
                },
                DrawCommand::BindReadTarget { target: target.render_target },
                DrawCommand::Blit { src, dest },
                DrawCommand::BindDrawTarget {
                    target: target.render_target,
                    width: target.width,
                    height: target.height,
                },
            ]
        },
        _ => Seq::empty(),
    }
}

/// What draws a batch that is not text.
pub open spec fn submit_commands(
    key: BatchKey,
    instances: InstanceRange,
    ctx: DrawContext,
    resolver: SourceTextureResolver,
    tasks: Seq<DrawTask>,
    target: TargetContext,
) -> Seq<DrawCommand> {
    let (shader, tag) = batch_shader(key);
    seq![DrawCommand::BindShader { shader, projection: target.projection, mode: 0 }]
        + readback_commands(key.kind, tasks, resolver, target) + seq![DrawCommand::Marker(tag)]
        + instanced_commands(ctx, resolver, instances, VertexArrayKind::Primitive, key.textures)
}

/// The batch can be drawn. Composites are drawn one by one, since they may overlap.
pub open spec fn submit_ok(
    key: BatchKey,
    instances: InstanceRange,
    ctx: DrawContext,
    resolver: SourceTextureResolver,
    tasks: Seq<DrawTask>,
    target: TargetContext,
) -> bool {
    &&& batch_shader_ok(key, ctx.gl_type)
    &&& can_bind_all(resolver, key.textures)
    &&& range_ok(instances)
    &&& key.kind matches BatchKind::Composite { task_id, source_id, backdrop_id } ==> {
        &&& instances.count == 1
        &&& task_id < tasks.len()
        &&& source_id < tasks.len()
        &&& backdrop_id < tasks.len()
        &&& readback_ok(
            tasks[task_id as int],
            tasks[source_id as int],
            tasks[backdrop_id as int],
            target,
        )
    }
}

fn push_readback(
    out: &mut Vec<DrawCommand>,
    kind: BatchKind,
    tasks: &Vec<DrawTask>,
    resolver: &SourceTextureResolver,
    target: &TargetContext,
)
    requires
        kind matches BatchKind::Composite { task_id, source_id, backdrop_id } ==> {
            &&& task_id < tasks@.len()
            &&& source_id < tasks@.len()
            &&& backdrop_id < tasks@.len()
            &&& readback_ok(
                tasks@[task_id as int],
                tasks@[source_id as int],
                tasks@[backdrop_id as int],
                *target,
            )
        },
    ensures
        final(out)@ == old(out)@ + readback_commands(kind, tasks@, *resolver, *target),
{
    if let BatchKind::Composite { task_id, source_id, backdrop_id } = kind {
        let backdrop = tasks[task_id];
        let source = tasks[source_id];
        let readback = tasks[backdrop_id];
        let texture = match resolver.resolve(&SourceTexture::CacheRGBA8) {
            Some(texture) => texture,
            None => TextureId(0),
        };
        out.push(
            DrawCommand::BindDrawTarget {
                target: Some(TextureLayer { texture, layer: readback.layer }),
                width: target.cache_width,
                height: target.cache_height,
            },
        );
        let mut src = IntRect {
            x: backdrop.rect.x - backdrop.screen_x + source.screen_x,
            y: backdrop.rect.y - backdrop.screen_y + source.screen_y,
            width: readback.rect.width,
            height: readback.rect.height,
        };
        let mut dest = readback.rect;
        if target.render_target.is_none() {
            src.y = target.height as i32 - src.height - src.y;
            dest.y = dest.y + dest.height;
            dest.height = -dest.height;
        }
        out.push(DrawCommand::BindReadTarget { target: target.render_target });
        out.push(DrawCommand::Blit { src, dest });
        out.push(
            DrawCommand::BindDrawTarget {
                target: target.render_target,
                width: target.width,
                height: target.height,
            },
        );
    }
    assert(out@ =~= old(out)@ + readback_commands(kind, tasks@, *resolver, *target));
}

/// Draws a batch that is not text.
pub fn submit_batch(
    out: &mut Vec<DrawCommand>,
    key: &BatchKey,
    instances: InstanceRange,
    ctx: &DrawContext,
    resolver: &SourceTextureResolver,
    tasks: &Vec<DrawTask>,
    target: &TargetContext,
)
    requires
        submit_ok(*key, instances, *ctx, *resolver, tasks@, *target),
    ensures
        final(out)@ == old(out)@ + submit_commands(
            *key,
            instances,
            *ctx,
            *resolver,
            tasks@,
            *target,
        ),
{
    let (shader, tag) = get_batch_shader(key);
    out.push(DrawCommand::BindShader { shader, projection: target.projection, mode: 0 });
    push_readback(out, key.kind, tasks, resolver, target);
    out.push(DrawCommand::Marker(tag));
    draw_instanced_batch(
        out,
        ctx,
        resolver,
        instances,
        VertexArrayKind::Primitive,
        &key.textures,
    );
    assert(out@ =~= old(out)@ + submit_commands(*key, instances, *ctx, *resolver, tasks@, *target));
}

/// A task that is copied to another, scaled.
#[derive(Clone, Copy, Debug, PartialEq, Eq, Structural)]
pub struct ScalingInfo {
    pub src_task_id: usize,
    pub dest_task_id: usize,
}

pub open spec fn scaling_commands(
    scalings: Seq<ScalingInfo>,
    tasks: Seq<DrawTask>,
    texture: TextureId,
) -> Seq<DrawCommand>
    decreases scalings.len(),
{
    if scalings.len() == 0 {
        Seq::empty()
    } else {
        let source = tasks[scalings.last().src_task_id as int];
        let dest = tasks[scalings.last().dest_task_id as int];
        scaling_commands(scalings.drop_last(), tasks, texture) + seq![
            DrawCommand::BindReadTarget {
                target: Some(TextureLayer { texture, layer: source.layer }),
            },
            DrawCommand::Blit { src: source.rect, dest: dest.rect },
        ]
    }
}

pub open spec fn scalings_ok(scalings: Seq<ScalingInfo>, tasks: Seq<DrawTask>) -> bool {
    forall|i: int|
        0 <= i < scalings.len() ==> (#[trigger] scalings[i]).src_task_id < tasks.len()
            && scalings[i].dest_task_id < tasks.len()
}

/// Copies tasks of the pass before, scaled.
pub fn handle_scaling(
    out: &mut Vec<DrawCommand>,
    tasks: &Vec<DrawTask>,
    scalings: &Vec<ScalingInfo>,
    source: SourceTexture,
    resolver: &SourceTextureResolver,
)
    requires
        scalings_ok(scalings@, tasks@),
        source is CacheA8 || source is CacheRGBA8,
    ensures
        final(out)@ == old(out)@ + scaling_commands(
            scalings@,
            tasks@,
            resolver.spec_bind(source)->Texture_0,
        ),
{
    let texture = match resolver.resolve(&source) {
        Some(texture) => texture,
        None => TextureId(0),
    };
    let mut i: usize = 0;
    assert(out@ =~= old(out)@ + scaling_commands(scalings@.take(0), tasks@, texture));
    while i < scalings.len()
        invariant
            i <= scalings@.len(),
            scalings_ok(scalings@, tasks@),
            out@ == old(out)@ + scaling_commands(scalings@.take(i as int), tasks@, texture),
        decreases scalings@.len() - i,
    {
        let ghost next = scalings@.take(i as int + 1);
        assert(next.drop_last() =~= scalings@.take(i as int));
        let scaling = scalings[i];
        let source_task = tasks[scaling.src_task_id];
        let dest_task = tasks[scaling.dest_task_id];
        out.push(
            DrawCommand::BindReadTarget {
                target: Some(TextureLayer { texture, layer: source_task.layer }),
            },
        );
        out.push(DrawCommand::Blit { src: source_task.rect, dest: dest_task.rect });
        i = i + 1;
        assert(out@ =~= old(out)@ + scaling_commands(next, tasks@, texture));
    }
    assert(scalings@.take(i as int) =~= scalings@);
}

/// The blurs of a target: first the vertical ones, then the horizontal ones.
pub open spec fn blur_commands(
    vertical: InstanceRange,
    horizontal: InstanceRange,
    shader: Shader,
    ctx: DrawContext,
    resolver: SourceTextureResolver,
    projection: OrthoProjection,
) -> Seq<DrawCommand> {
    let none = BatchTextures::spec_no_texture();
    if vertical.count == 0 && horizontal.count == 0 {
        Seq::empty()
    } else {
        seq![
            DrawCommand::Marker(GpuTag::Blur),
            DrawCommand::SetBlend(false),
            DrawCommand::BindShader { shader, projection, mode: 0 },
        ] + nonempty_commands(vertical, VertexArrayKind::Blur, none, ctx, resolver)
            + nonempty_commands(horizontal, VertexArrayKind::Blur, none, ctx, resolver)
    }
}

/// What draws instances, where there are any.
pub open spec fn nonempty_commands(
    data: InstanceRange,
    kind: VertexArrayKind,
    textures: BatchTextures,
    ctx: DrawContext,
    resolver: SourceTextureResolver,
) -> Seq<DrawCommand> {
    if data.count == 0 {
        Seq::empty()
    } else {
        instanced_commands(ctx, resolver, data, kind, textures)
    }
}

pub(crate) fn push_nonempty(
    out: &mut Vec<DrawCommand>,
    data: InstanceRange,
    kind: VertexArrayKind,
    textures: &BatchTextures,
    ctx: &DrawContext,
    resolver: &SourceTextureResolver,
)
    requires
        can_bind_all(*resolver, *textures),
        range_ok(data),
    ensures
        final(out)@ == old(out)@ + nonempty_commands(data, kind, *textures, *ctx, *resolver),
{
    if !data.is_empty() {
        draw_instanced_batch(out, ctx, resolver, data, kind, textures);
    } else {
        assert(out@ =~= old(out)@ + Seq::<DrawCommand>::empty());
    }
}

pub(crate) fn push_blurs(
    out: &mut Vec<DrawCommand>,
    vertical: InstanceRange,
    horizontal: InstanceRange,
    shader: Shader,
    ctx: &DrawContext,
    resolver: &SourceTextureResolver,
    projection: OrthoProjection,
)
    requires
        range_ok(vertical),
        range_ok(horizontal),
    ensures
        final(out)@ == old(out)@ + blur_commands(
            vertical,
            horizontal,
            shader,
            *ctx,
            *resolver,
            projection,
        ),
{
    if !vertical.is_empty() || !horizontal.is_empty() {
        out.push(DrawCommand::Marker(GpuTag::Blur));
        out.push(DrawCommand::SetBlend(false));
        out.push(DrawCommand::BindShader { shader, projection, mode: 0 });
        push_nonempty(
            out,
            vertical,
            VertexArrayKind::Blur,
            &BatchTextures::no_texture(),
            ctx,
            resolver,
        );
        push_nonempty(
            out,
            horizontal,
            VertexArrayKind::Blur,
            &BatchTextures::no_texture(),
            ctx,
            resolver,
        );
    }
    assert(out@ =~= old(out)@ + blur_commands(
        vertical,
        horizontal,
        shader,
        *ctx,
        *resolver,
        projection,
    ));
}

} // verus!
