//! The aids for debugging that are drawn over a frame.

use crate::float_bits::FloatBits;
use crate::text::{decimal, to_decimal};
use crate::units::{DeviceIntPoint, DeviceIntRect, DeviceIntSize};
use vstd::prelude::*;

verus! {

/// A color with a byte for each channel.
#[derive(Clone, Copy, Debug, PartialEq, Eq, Structural)]
pub struct ColorU {
    pub r: u8,
    pub g: u8,
    pub b: u8,
    pub a: u8,
}

/// What is drawn over a frame.
#[derive(Clone, Copy, Debug, PartialEq, Eq, Structural)]
pub struct DebugFlags {
    pub profiler_dbg: bool,
    pub render_target_dbg: bool,
    pub texture_cache_dbg: bool,
    pub epochs: bool,
    pub picture_caching_dbg: bool,
    pub picture_borders: bool,
    pub zoom_dbg: bool,
    pub window_visibility_dbg: bool,
    pub external_composite_borders: bool,
    pub show_overdraw: bool,
}

impl DebugFlags {
    /// One of the flags asks for something to be drawn. Overdraw is not drawn over the
    /// frame, but in it.
    pub open spec fn draws_overlay(self) -> bool {
        self.profiler_dbg || self.render_target_dbg || self.texture_cache_dbg || self.epochs
            || self.picture_caching_dbg || self.picture_borders || self.zoom_dbg
            || self.window_visibility_dbg || self.external_composite_borders
    }
}

/// A coordinate: either bits that are only carried through, or a number of whole pixels
/// to which another is added, each taken as a floating-point number.
#[derive(Clone, Copy, Debug, PartialEq, Eq, Structural)]
pub enum DebugCoord {
    Bits(FloatBits),
    Pixels { base: i32, offset: i32 },
}

/// A corner of a triangle, or an end of a line.
#[derive(Clone, Copy, Debug, PartialEq, Eq, Structural)]
pub struct DebugColorVertex {
    pub x: DebugCoord,
    pub y: DebugCoord,
    pub color: ColorU,
}

impl DebugColorVertex {
    pub fn new(x: DebugCoord, y: DebugCoord, color: ColorU) -> (r: Self)
        ensures
            r == (DebugColorVertex { x, y, color }),
    {
        DebugColorVertex { x, y, color }
    }
}

/// A corner of a glyph, with its place in the texture of the font.
#[derive(Clone, Copy, Debug, PartialEq, Eq, Structural)]
pub struct DebugFontVertex {
    pub x: FloatBits,
    pub y: FloatBits,
    pub color: ColorU,
    pub u: FloatBits,
    pub v: FloatBits,
}

impl DebugFontVertex {
    pub fn new(x: FloatBits, y: FloatBits, u: FloatBits, v: FloatBits, color: ColorU) -> (r: Self)
        ensures
            r == (DebugFontVertex { x, y, color, u, v }),
    {
        DebugFontVertex { x, y, color, u, v }
    }
}

/// Where a glyph is drawn, and where it is in the texture of the font.
#[derive(Clone, Copy, Debug, PartialEq, Eq, Structural)]
pub struct GlyphQuad {
    pub x0: FloatBits,
    pub y0: FloatBits,
    pub x1: FloatBits,
    pub y1: FloatBits,
    pub s0: FloatBits,
    pub t0: FloatBits,
    pub s1: FloatBits,
    pub t1: FloatBits,
}

/// Collects what is drawn over a frame.
pub struct DebugRenderer {
    pub font_vertices: Vec<DebugFontVertex>,
    pub font_indices: Vec<u32>,
    pub tri_vertices: Vec<DebugColorVertex>,
    pub tri_indices: Vec<u32>,
    pub line_vertices: Vec<DebugColorVertex>,
}

/// What is drawn over a frame, as a mathematical value.
#[verifier::ext_equal]
pub struct DebugView {
    pub font_vertices: Seq<DebugFontVertex>,
    pub font_indices: Seq<u32>,
    pub tri_vertices: Seq<DebugColorVertex>,
    pub tri_indices: Seq<u32>,
    pub line_vertices: Seq<DebugColorVertex>,
}

/// The two triangles of a quad whose first corner has a place.
pub open spec fn quad_triangles(first: int) -> Seq<u32> {
    seq![
        first as u32,
        (first + 1) as u32,
        (first + 2) as u32,
        (first + 2) as u32,
        (first + 1) as u32,
        (first + 3) as u32,
    ]
}

pub open spec fn quad_corners(
    x0: DebugCoord,
    y0: DebugCoord,
    x1: DebugCoord,
    y1: DebugCoord,
    top: ColorU,
    bottom: ColorU,
) -> Seq<DebugColorVertex> {
    seq![
        DebugColorVertex { x: x0, y: y0, color: top },
        DebugColorVertex { x: x1, y: y0, color: top },
        DebugColorVertex { x: x0, y: y1, color: bottom },
        DebugColorVertex { x: x1, y: y1, color: bottom },
    ]
}

/// What is drawn, with a quad.
pub open spec fn with_quad(
    d: DebugView,
    x0: DebugCoord,
    y0: DebugCoord,
    x1: DebugCoord,
    y1: DebugCoord,
    top: ColorU,
    bottom: ColorU,
) -> DebugView {
    DebugView {
        tri_vertices: d.tri_vertices + quad_corners(x0, y0, x1, y1, top, bottom),
        tri_indices: d.tri_indices + quad_triangles(d.tri_vertices.len() as int),
        ..d
    }
}

/// A number of whole pixels.
pub open spec fn pixel(n: i32) -> DebugCoord {
    DebugCoord::Pixels { base: n, offset: 0 }
}

pub open spec fn shifted(n: i32, by: int) -> DebugCoord {
    DebugCoord::Pixels { base: n, offset: by as i32 }
}

/// What is drawn, with a line.
pub open spec fn with_line(
    d: DebugView,
    x0: i32,
    y0: i32,
    color0: ColorU,
    x1: i32,
    y1: i32,
    color1: ColorU,
) -> DebugView {
    DebugView {
        line_vertices: d.line_vertices + seq![
            DebugColorVertex { x: pixel(x0), y: pixel(y0), color: color0 },
            DebugColorVertex { x: pixel(x1), y: pixel(y1), color: color1 },
        ],
        ..d
    }
}

/// The frame of a rectangle is thick enough, and the rectangle large enough, for bars.
pub open spec fn has_bars(rect: DeviceIntRect, thickness: i32) -> bool {
    thickness > 1 && rect.spec_width() > thickness * 2 && rect.spec_height() > thickness * 2
}

/// What is drawn, with a frame around a rectangle: four bars inside of it, or four lines.
pub open spec fn with_rect(d: DebugView, rect: DeviceIntRect, thickness: i32, color: ColorU) -> DebugView {
    let (x0, y0, x1, y1) = (rect.min.x, rect.min.y, rect.max.x, rect.max.y);
    let w = thickness as int;
    if has_bars(rect, thickness) {
        let top = with_quad(
            d,
            pixel(x0),
            pixel(y0),
            pixel(x1),
            shifted(y0, w),
            color,
            color,
        );
        let right = with_quad(
            top,
            shifted(x1, -w),
            shifted(y0, w),
            pixel(x1),
            shifted(y1, -w),
            color,
            color,
        );
        let bottom = with_quad(
            right,
            pixel(x0),
            shifted(y1, -w),
            pixel(x1),
            pixel(y1),
            color,
            color,
        );
        with_quad(
            bottom,
            pixel(x0),
            shifted(y0, w),
            shifted(x0, w),
            shifted(y1, -w),
            color,
            color,
        )
    } else {
        let top = with_line(d, x0, y0, color, x1, y0, color);
        let right = with_line(top, x1, y0, color, x1, y1, color);
        let bottom = with_line(right, x1, y1, color, x0, y1, color);
        with_line(bottom, x0, y1, color, x0, y0, color)
    }
}

/// What is drawn, with a glyph.
pub open spec fn with_glyph(d: DebugView, glyph: GlyphQuad, color: ColorU) -> DebugView {
    let g = glyph;
    DebugView {
        font_vertices: d.font_vertices + seq![
            DebugFontVertex { x: g.x0, y: g.y0, color, u: g.s0, v: g.t0 },
            DebugFontVertex { x: g.x1, y: g.y0, color, u: g.s1, v: g.t0 },
            DebugFontVertex { x: g.x0, y: g.y1, color, u: g.s0, v: g.t1 },
            DebugFontVertex { x: g.x1, y: g.y1, color, u: g.s1, v: g.t1 },
        ],
        font_indices: d.font_indices + quad_triangles(d.font_vertices.len() as int),
        ..d
    }
}

pub open spec fn with_glyphs(d: DebugView, glyphs: Seq<GlyphQuad>, color: ColorU) -> DebugView
    decreases glyphs.len(),
{
    if glyphs.len() == 0 {
        d
    } else {
        with_glyph(with_glyphs(d, glyphs.drop_last(), color), glyphs.last(), color)
    }
}

pub open spec fn nothing_drawn() -> DebugView {
    DebugView {
        font_vertices: Seq::empty(),
        font_indices: Seq::empty(),
        tri_vertices: Seq::empty(),
        tri_indices: Seq::empty(),
        line_vertices: Seq::empty(),
    }
}

/// Every corner of a triangle is one of the vertices.
pub open spec fn indices_in_range(indices: Seq<u32>, vertices: int) -> bool {
    forall|i: int| 0 <= i < indices.len() ==> #[trigger] indices[i] < vertices
}

/// One draw call of the debug renderer.
#[derive(Clone, Copy, Debug, PartialEq, Eq, Structural)]
pub enum DebugDraw {
    /// No depth test, and blending by the alpha of the colors.
    Setup,
    Triangles { indices: usize },
    Lines { vertices: usize },
    Glyphs { indices: usize },
}

/// What draws everything that was collected.
pub open spec fn debug_draws(d: DebugView) -> Seq<DebugDraw> {
    seq![DebugDraw::Setup] + (if d.tri_vertices.len() > 0 {
        seq![DebugDraw::Triangles { indices: d.tri_indices.len() as usize }]
    } else {
        Seq::empty()
    }) + (if d.line_vertices.len() > 0 {
        seq![DebugDraw::Lines { vertices: d.line_vertices.len() as usize }]
    } else {
        Seq::empty()
    }) + (if d.font_indices.len() > 0 {
        seq![DebugDraw::Glyphs { indices: d.font_indices.len() as usize }]
    } else {
        Seq::empty()
    })
}

impl DebugRenderer {
    pub open spec fn view(self) -> DebugView {
        DebugView {
            font_vertices: self.font_vertices@,
            font_indices: self.font_indices@,
            tri_vertices: self.tri_vertices@,
            tri_indices: self.tri_indices@,
            line_vertices: self.line_vertices@,
        }
    }

    /// Every corner of a triangle is one of the vertices.
    pub open spec fn wf(self) -> bool {
        &&& indices_in_range(self.tri_indices@, self.tri_vertices@.len() as int)
        &&& indices_in_range(self.font_indices@, self.font_vertices@.len() as int)
    }

    /// There is room for `n` more quads.
    pub open spec fn room(self, n: int) -> bool {
        self.tri_vertices@.len() + 4 * n <= u32::MAX
    }

    pub open spec fn glyph_room(self, n: int) -> bool {
        self.font_vertices@.len() + 4 * n <= u32::MAX
    }

    pub fn new() -> (r: Self)
        ensures
            r.wf(),
            r@ == nothing_drawn(),
    {
        DebugRenderer {
            font_vertices: Vec::new(),
            font_indices: Vec::new(),
            line_vertices: Vec::new(),
            tri_vertices: Vec::new(),
            tri_indices: Vec::new(),
        }
    }

    /// Adds a glyph of a text.
    pub fn add_glyph(&mut self, glyph: &GlyphQuad, color: ColorU)
        requires
            old(self).wf(),
            old(self).glyph_room(1),
        ensures
            final(self).wf(),
            final(self)@ == with_glyph(old(self)@, *glyph, color),
    {
        let first: u32 = self.font_vertices.len() as u32;
        let g = glyph;
        self.font_vertices.push(DebugFontVertex::new(g.x0, g.y0, g.s0, g.t0, color));
        self.font_vertices.push(DebugFontVertex::new(g.x1, g.y0, g.s1, g.t0, color));
        self.font_vertices.push(DebugFontVertex::new(g.x0, g.y1, g.s0, g.t1, color));
        self.font_vertices.push(DebugFontVertex::new(g.x1, g.y1, g.s1, g.t1, color));
        self.font_indices.push(first + 0);
        self.font_indices.push(first + 1);
        self.font_indices.push(first + 2);
        self.font_indices.push(first + 2);
        self.font_indices.push(first + 1);
        self.font_indices.push(first + 3);
        assert(self@ =~= with_glyph(old(self)@, *glyph, color));
    }

    /// Adds a text, as the glyphs of it that are drawn.
    pub fn add_text(&mut self, glyphs: &Vec<GlyphQuad>, color: ColorU)
        requires
            old(self).wf(),
            old(self).glyph_room(glyphs@.len() as int),
        ensures
            final(self).wf(),
            final(self)@ == with_glyphs(old(self)@, glyphs@, color),
            final(self).font_vertices@.len() == old(self).font_vertices@.len() + 4 * glyphs@.len(),
            final(self).tri_vertices@ == old(self).tri_vertices@,
    {
        let mut i: usize = 0;
        assert(glyphs@.take(0) =~= Seq::<GlyphQuad>::empty());
        while i < glyphs.len()
            invariant
                i <= glyphs@.len(),
                self.wf(),
                old(self).glyph_room(glyphs@.len() as int),
                self.font_vertices@.len() == old(self).font_vertices@.len() + 4 * i,
                self.tri_vertices@ == old(self).tri_vertices@,
                self@ == with_glyphs(old(self)@, glyphs@.take(i as int), color),
            decreases glyphs@.len() - i,
        {
            assert(glyphs@.take(i as int + 1).drop_last() =~= glyphs@.take(i as int));
            self.add_glyph(&glyphs[i], color);
            i = i + 1;
        }
        assert(glyphs@.take(i as int) =~= glyphs@);
    }

    /// Adds a quad that goes from one color to another.
    pub fn add_quad(
        &mut self,
        x0: DebugCoord,
        y0: DebugCoord,
        x1: DebugCoord,
        y1: DebugCoord,
        color_top: ColorU,
        color_bottom: ColorU,
    )
        requires
            old(self).wf(),
            old(self).room(1),
        ensures
            final(self).wf(),
            final(self)@ == with_quad(old(self)@, x0, y0, x1, y1, color_top, color_bottom),
    {
        let first: u32 = self.tri_vertices.len() as u32;
        self.tri_vertices.push(DebugColorVertex::new(x0, y0, color_top));
        self.tri_vertices.push(DebugColorVertex::new(x1, y0, color_top));
        self.tri_vertices.push(DebugColorVertex::new(x0, y1, color_bottom));
        self.tri_vertices.push(DebugColorVertex::new(x1, y1, color_bottom));
        self.tri_indices.push(first + 0);
        self.tri_indices.push(first + 1);
        self.tri_indices.push(first + 2);
        self.tri_indices.push(first + 2);
        self.tri_indices.push(first + 1);
        self.tri_indices.push(first + 3);
        assert(self@ =~= with_quad(old(self)@, x0, y0, x1, y1, color_top, color_bottom));
    }

    /// Adds a line.
    pub fn add_line(&mut self, x0: i32, y0: i32, color0: ColorU, x1: i32, y1: i32, color1: ColorU)
        requires
            old(self).wf(),
        ensures
            final(self).wf(),
            final(self)@ == with_line(old(self)@, x0, y0, color0, x1, y1, color1),
    {
        self.line_vertices.push(
            DebugColorVertex::new(
                DebugCoord::Pixels { base: x0, offset: 0 },
                DebugCoord::Pixels { base: y0, offset: 0 },
                color0,
            ),
        );
        self.line_vertices.push(
            DebugColorVertex::new(
                DebugCoord::Pixels { base: x1, offset: 0 },
                DebugCoord::Pixels { base: y1, offset: 0 },
                color1,
            ),
        );
        assert(self@ =~= with_line(old(self)@, x0, y0, color0, x1, y1, color1));
    }

    /// Adds a frame around a rectangle.
    pub fn add_rect(&mut self, rect: &DeviceIntRect, thickness: i32, color: ColorU)
        requires
            old(self).wf(),
            old(self).room(4),
            rect.sized(),
            thickness <= 0x3FFF_FFFF,
        ensures
            final(self).wf(),
            final(self)@ == with_rect(old(self)@, *rect, thickness, color),
            final(self).tri_vertices@.len() <= old(self).tri_vertices@.len() + 16,
    {
        let (x0, y0, x1, y1) = (rect.min.x, rect.min.y, rect.max.x, rect.max.y);
        if thickness > 1 && rect.width() > thickness * 2 && rect.height() > thickness * 2 {
            let w: i32 = thickness;
            let left = DebugCoord::Pixels { base: x0, offset: 0 };
            let right = DebugCoord::Pixels { base: x1, offset: 0 };
            let top = DebugCoord::Pixels { base: y0, offset: 0 };
            let bottom = DebugCoord::Pixels { base: y1, offset: 0 };
            let left_in = DebugCoord::Pixels { base: x0, offset: w };
            let right_in = DebugCoord::Pixels { base: x1, offset: -w };
            let top_in = DebugCoord::Pixels { base: y0, offset: w };
            let bottom_in = DebugCoord::Pixels { base: y1, offset: -w };
            self.add_quad(left, top, right, top_in, color, color);
            self.add_quad(right_in, top_in, right, bottom_in, color, color);
            self.add_quad(left, bottom_in, right, bottom, color, color);
            self.add_quad(left, top_in, left_in, bottom_in, color, color);
        } else {
            self.add_line(x0, y0, color, x1, y0, color);
            self.add_line(x1, y0, color, x1, y1, color);
            self.add_line(x1, y1, color, x0, y1, color);
            self.add_line(x0, y1, color, x0, y0, color);
        }
    }

    /// What draws everything that was collected, which is then forgotten, also where it
    /// is not drawn.
    pub fn render(&mut self, has_viewport: bool) -> (r: Vec<DebugDraw>)
        ensures
            final(self).wf(),
            final(self)@ == nothing_drawn(),
            r@ == (if has_viewport {
                debug_draws(old(self)@)
            } else {
                Seq::empty()
            }),
    {
        let mut r: Vec<DebugDraw> = Vec::new();
        if has_viewport {
            r.push(DebugDraw::Setup);
            if self.tri_vertices.len() > 0 {
                r.push(DebugDraw::Triangles { indices: self.tri_indices.len() });
            }
            if self.line_vertices.len() > 0 {
                r.push(DebugDraw::Lines { vertices: self.line_vertices.len() });
            }
            if self.font_indices.len() > 0 {
                r.push(DebugDraw::Glyphs { indices: self.font_indices.len() });
            }
            assert(r@ =~= debug_draws(old(self)@));
        }
        self.font_indices.clear();
        self.font_vertices.clear();
        self.line_vertices.clear();
        self.tri_vertices.clear();
        self.tri_indices.clear();
        r
    }
}

/// A quad takes four corners and two triangles, and leaves everything else that is drawn
/// alone.
pub proof fn quads_do_not_mix(
    d: DebugView,
    x0: DebugCoord,
    y0: DebugCoord,
    x1: DebugCoord,
    y1: DebugCoord,
    top: ColorU,
    bottom: ColorU,
)
    requires
        indices_in_range(d.tri_indices, d.tri_vertices.len() as int),
        d.tri_vertices.len() + 4 <= u32::MAX,
    ensures
        ({
            let after = with_quad(d, x0, y0, x1, y1, top, bottom);
            &&& indices_in_range(after.tri_indices, after.tri_vertices.len() as int)
            &&& after.tri_vertices.len() == d.tri_vertices.len() + 4
            &&& after.tri_indices.len() == d.tri_indices.len() + 6
            &&& d.tri_vertices.is_prefix_of(after.tri_vertices)
            &&& d.tri_indices.is_prefix_of(after.tri_indices)
            &&& after.line_vertices == d.line_vertices
            &&& after.font_vertices == d.font_vertices
            &&& forall|i: int|
                d.tri_indices.len() <= i < after.tri_indices.len() ==> #[trigger] after.tri_indices[i]
                    >= d.tri_vertices.len()
        }),
{
}

/// The debug renderer, which is made when it is first needed.
pub struct LazyInitializedDebugRenderer {
    pub debug_renderer: Option<DebugRenderer>,
    /// Its shaders could not be made; they are not tried again.
    pub failed: bool,
}

/// What stands in the way of the debug renderer.
#[derive(Clone, Copy, Debug, PartialEq, Eq, Structural)]
pub enum LazyStep {
    Failed,
    /// Its shaders and its texture are still to be made.
    Create,
    Ready,
}

impl LazyInitializedDebugRenderer {
    pub fn new() -> (r: Self)
        ensures
            r.debug_renderer is None,
            !r.failed,
    {
        LazyInitializedDebugRenderer { debug_renderer: None, failed: false }
    }

    pub open spec fn spec_next_step(self) -> LazyStep {
        if self.failed {
            LazyStep::Failed
        } else if self.debug_renderer is None {
            LazyStep::Create
        } else {
            LazyStep::Ready
        }
    }

    /// What is to be done before the debug renderer can be used.
    pub fn next_step(&self) -> (r: LazyStep)
        ensures
            r == self.spec_next_step(),
    {
        if self.failed {
            LazyStep::Failed
        } else if self.debug_renderer.is_none() {
            LazyStep::Create
        } else {
            LazyStep::Ready
        }
    }

    /// Notes whether the shaders could be made.
    pub fn created(&mut self, ok: bool)
        requires
            old(self).spec_next_step() is Create,
        ensures
            ok ==> !final(self).failed && (final(self).debug_renderer matches Some(renderer)
                && renderer@ == nothing_drawn() && renderer.wf()),
            !ok ==> final(self).failed && final(self).debug_renderer is None,
    {
        if ok {
            self.debug_renderer = Some(DebugRenderer::new());
        } else {
            self.failed = true;
        }
    }
}

/// Who puts the frame on the screen.
#[derive(Clone, Copy, Debug, PartialEq, Eq, Structural)]
pub enum CompositorKind {
    /// The renderer.
    Draw,
    /// The system, from surfaces.
    Native,
    /// The system, from layers.
    Layer,
}

/// The surface that the debugging aids are drawn to.
#[derive(Clone, Copy, Debug, PartialEq, Eq, Structural)]
pub struct DebugOverlayState {
    /// Something is drawn.
    pub is_enabled: bool,
    /// The size of the surface, where there is one.
    pub current_size: Option<DeviceIntSize>,
    pub layer_index: usize,
}

/// What is asked of the system for the surface.
#[derive(Clone, Copy, Debug, PartialEq, Eq, Structural)]
pub enum OverlayAction {
    DestroySurface,
    CreateSurface { size: DeviceIntSize },
    CreateTile,
    InvalidateTile { size: DeviceIntSize },
    BindTile { size: DeviceIntSize },
    BindLayer { index: usize },
    /// Clears the target to nothing.
    Clear,
    Unbind,
    AddSurface { size: DeviceIntSize },
    PresentLayer { index: usize },
}

/// What is drawn to.
#[derive(Clone, Copy, Debug, PartialEq, Eq, Structural)]
pub enum OverlayTarget {
    NativeSurface { size: DeviceIntSize },
    Screen { size: DeviceIntSize },
}

/// The surface that is there is of no more use.
pub open spec fn surface_is_stale(state: DebugOverlayState, enabled: bool, size: DeviceIntSize) -> bool {
    state.current_size is Some && (!enabled || state.current_size->0 != size)
}

/// A surface is still to be made.
pub open spec fn surface_is_missing(state: DebugOverlayState, enabled: bool, size: DeviceIntSize) -> bool {
    enabled && (state.current_size is None || surface_is_stale(state, enabled, size))
}

impl DebugOverlayState {
    pub fn new() -> (r: Self)
        ensures
            r == (DebugOverlayState { is_enabled: false, current_size: None, layer_index: 0 }),
    {
        DebugOverlayState { is_enabled: false, current_size: None, layer_index: 0 }
    }

    /// Where something is drawn to a surface of the system, the surface is there.
    pub open spec fn ready(self, kind: CompositorKind) -> bool {
        kind is Native && self.is_enabled ==> self.current_size is Some
    }
}

/// Notes whether something is drawn, and sees to it that there is a surface of the right
/// size exactly where one is needed.
pub fn update_debug_overlay(
    compositor_kind: CompositorKind,
    state: &mut DebugOverlayState,
    debug_flags: &DebugFlags,
    framebuffer_size: DeviceIntSize,
    has_debug_items: bool,
) -> (r: Vec<OverlayAction>)
    ensures
        ({
            let enabled = has_debug_items || debug_flags.draws_overlay();
            let native = compositor_kind is Native;
            let stale = surface_is_stale(*old(state), enabled, framebuffer_size);
            let missing = surface_is_missing(*old(state), enabled, framebuffer_size);
            &&& r@ == (if native && stale {
                seq![OverlayAction::DestroySurface]
            } else {
                Seq::empty()
            }) + (if native && missing {
                seq![
                    OverlayAction::CreateSurface { size: framebuffer_size },
                    OverlayAction::CreateTile,
                ]
            } else {
                Seq::empty()
            })
            &&& *final(state) == (DebugOverlayState {
                is_enabled: enabled,
                current_size: if !native {
                    old(state).current_size
                } else if enabled {
                    Some(framebuffer_size)
                } else {
                    None
                },
                ..*old(state)
            })
            &&& final(state).ready(compositor_kind)
        }),
{
    let mut actions: Vec<OverlayAction> = Vec::new();
    let f = debug_flags;
    state.is_enabled = has_debug_items || f.profiler_dbg || f.render_target_dbg
        || f.texture_cache_dbg || f.epochs || f.picture_caching_dbg || f.picture_borders
        || f.zoom_dbg || f.window_visibility_dbg || f.external_composite_borders;
    if let CompositorKind::Native = compositor_kind {
        if let Some(current_size) = state.current_size {
            if !state.is_enabled || current_size != framebuffer_size {
                actions.push(OverlayAction::DestroySurface);
                state.current_size = None;
            }
        }
        if state.is_enabled && state.current_size.is_none() {
            actions.push(OverlayAction::CreateSurface { size: framebuffer_size });
            actions.push(OverlayAction::CreateTile);
            state.current_size = Some(framebuffer_size);
        }
    }
    assert(actions@ =~= (if compositor_kind is Native && surface_is_stale(
        *old(state),
        state.is_enabled,
        framebuffer_size,
    ) {
        seq![OverlayAction::DestroySurface]
    } else {
        Seq::empty()
    }) + (if compositor_kind is Native && surface_is_missing(
        *old(state),
        state.is_enabled,
        framebuffer_size,
    ) {
        seq![
            OverlayAction::CreateSurface { size: framebuffer_size },
            OverlayAction::CreateTile,
        ]
    } else {
        Seq::empty()
    }));
    actions
}

/// What binds the target of the debugging aids, and what it is; nothing where nothing is
/// drawn. A surface or a layer of the system is cleared first.
pub fn bind_debug_overlay(
    compositor_kind: CompositorKind,
    state: &DebugOverlayState,
    device_size: DeviceIntSize,
) -> (r: (Vec<OverlayAction>, Option<OverlayTarget>))
    requires
        state.ready(compositor_kind),
    ensures
        r.0@ == (if !state.is_enabled {
            Seq::empty()
        } else {
            match compositor_kind {
                CompositorKind::Native => seq![
                    OverlayAction::InvalidateTile { size: state.current_size->0 },
                    OverlayAction::BindTile { size: state.current_size->0 },
                    OverlayAction::Clear,
                ],
                CompositorKind::Layer => seq![
                    OverlayAction::BindLayer { index: state.layer_index },
                    OverlayAction::Clear,
                ],
                CompositorKind::Draw => Seq::empty(),
            }
        }),
        r.1 == (if !state.is_enabled {
            None
        } else {
            match compositor_kind {
                CompositorKind::Native => Some(
                    OverlayTarget::NativeSurface { size: state.current_size->0 },
                ),
                _ => Some(OverlayTarget::Screen { size: device_size }),
            }
        }),
{
    let mut actions: Vec<OverlayAction> = Vec::new();
    if !state.is_enabled {
        return (actions, None);
    }
    match (compositor_kind, state.current_size) {
        (CompositorKind::Native, Some(size)) => {
            actions.push(OverlayAction::InvalidateTile { size });
            actions.push(OverlayAction::BindTile { size });
            actions.push(OverlayAction::Clear);
            assert(actions@ =~= seq![
                OverlayAction::InvalidateTile { size },
                OverlayAction::BindTile { size },
                OverlayAction::Clear,
            ]);
            (actions, Some(OverlayTarget::NativeSurface { size }))
        },
        (CompositorKind::Layer, _) => {
            actions.push(OverlayAction::BindLayer { index: state.layer_index });
            actions.push(OverlayAction::Clear);
            assert(actions@ =~= seq![
                OverlayAction::BindLayer { index: state.layer_index },
                OverlayAction::Clear,
            ]);
            (actions, Some(OverlayTarget::Screen { size: device_size }))
        },
        _ => (actions, Some(OverlayTarget::Screen { size: device_size })),
    }
}

/// What hands the target of the debugging aids over to the system.
pub fn unbind_debug_overlay(compositor_kind: CompositorKind, state: &DebugOverlayState) -> (r: Vec<
    OverlayAction,
>)
    requires
        state.ready(compositor_kind),
    ensures
        r@ == (if !state.is_enabled {
            Seq::empty()
        } else {
            match compositor_kind {
                CompositorKind::Native => seq![
                    OverlayAction::Unbind,
                    OverlayAction::AddSurface { size: state.current_size->0 },
                ],
                CompositorKind::Layer => seq![
                    OverlayAction::PresentLayer { index: state.layer_index },
                ],
                CompositorKind::Draw => Seq::empty(),
            }
        }),
{
    let mut actions: Vec<OverlayAction> = Vec::new();
    if state.is_enabled {
        match (compositor_kind, state.current_size) {
            (CompositorKind::Native, Some(size)) => {
                actions.push(OverlayAction::Unbind);
                actions.push(OverlayAction::AddSurface { size });
                assert(actions@ =~= seq![
                    OverlayAction::Unbind,
                    OverlayAction::AddSurface { size },
                ]);
            },
            (CompositorKind::Layer, _) => {
                actions.push(OverlayAction::PresentLayer { index: state.layer_index });
                assert(actions@ =~= seq![
                    OverlayAction::PresentLayer { index: state.layer_index },
                ]);
            },
            _ => {},
        }
    }
    actions
}

/// Colors whose alpha is not greater than a thousandth are not drawn.
pub const LEAST_ALPHA_BITS: u32 = 0x3A83_126F;

/// Something that is drawn over a frame.
pub enum DebugItem {
    Rect {
        /// The rectangle in whole pixels.
        rect: DeviceIntRect,
        /// The rectangle without its frame.
        inner_x0: FloatBits,
        inner_y0: FloatBits,
        inner_x1: FloatBits,
        inner_y1: FloatBits,
        inner_alpha: FloatBits,
        inner_color: ColorU,
        outer_alpha: FloatBits,
        outer_color: ColorU,
        thickness: i32,
    },
    Text { glyphs: Vec<GlyphQuad>, color: ColorU },
}

pub open spec fn is_visible(alpha: FloatBits) -> bool {
    alpha.spec_gt(FloatBits(LEAST_ALPHA_BITS))
}

/// What is drawn, with an item: a rectangle is filled first and framed then.
pub open spec fn with_item(d: DebugView, item: DebugItem) -> DebugView {
    match item {
        DebugItem::Rect {
            rect,
            inner_x0,
            inner_y0,
            inner_x1,
            inner_y1,
            inner_alpha,
            inner_color,
            outer_alpha,
            outer_color,
            thickness,
        } => {
            let filled = if is_visible(inner_alpha) {
                with_quad(
                    d,
                    DebugCoord::Bits(inner_x0),
                    DebugCoord::Bits(inner_y0),
                    DebugCoord::Bits(inner_x1),
                    DebugCoord::Bits(inner_y1),
                    inner_color,
                    inner_color,
                )
            } else {
                d
            };
            if is_visible(outer_alpha) {
                with_rect(filled, rect, thickness, outer_color)
            } else {
                filled
            }
        },
        DebugItem::Text { glyphs, color } => with_glyphs(d, glyphs@, color),
    }
}

pub open spec fn with_items(d: DebugView, items: Seq<DebugItem>) -> DebugView
    decreases items.len(),
{
    if items.len() == 0 {
        d
    } else {
        with_item(with_items(d, items.drop_last()), items.last())
    }
}

pub open spec fn item_ok(item: DebugItem) -> bool {
    match item {
        DebugItem::Rect { rect, thickness, .. } => rect.sized() && thickness <= 0x3FFF_FFFF,
        DebugItem::Text { .. } => true,
    }
}

pub open spec fn glyph_count(items: Seq<DebugItem>) -> int
    decreases items.len(),
{
    if items.len() == 0 {
        0
    } else {
        glyph_count(items.drop_last()) + (match items.last() {
            DebugItem::Text { glyphs, .. } => glyphs@.len() as int,
            _ => 0,
        })
    }
}

proof fn lemma_glyphs_grow(items: Seq<DebugItem>, n: int)
    requires
        0 <= n <= items.len(),
    ensures
        0 <= glyph_count(items.take(n)) <= glyph_count(items),
    decreases items.len(),
{
    if n == items.len() {
        assert(items.take(n) =~= items);
        if n > 0 {
            lemma_glyphs_grow(items.drop_last(), n - 1);
        }
    } else {
        lemma_glyphs_grow(items.drop_last(), n);
        assert(items.drop_last().take(n) =~= items.take(n));
    }
}

fn draw_item(debug: &mut DebugRenderer, item: &DebugItem)
    requires
        old(debug).wf(),
        item_ok(*item),
        old(debug).room(5),
        item matches DebugItem::Text { glyphs, .. } ==> old(debug).glyph_room(
            glyphs@.len() as int,
        ),
    ensures
        final(debug).wf(),
        final(debug)@ == with_item(old(debug)@, *item),
        final(debug).tri_vertices@.len() <= old(debug).tri_vertices@.len() + 20,
        final(debug).font_vertices@.len() == old(debug).font_vertices@.len() + 4 * (match *item {
            DebugItem::Text { glyphs, .. } => glyphs@.len() as int,
            _ => 0,
        }),
{
    match item {
        DebugItem::Rect {
            rect,
            inner_x0,
            inner_y0,
            inner_x1,
            inner_y1,
            inner_alpha,
            inner_color,
            outer_alpha,
            outer_color,
            thickness,
        } => {
            if inner_alpha.gt(FloatBits(LEAST_ALPHA_BITS)) {
                debug.add_quad(
                    DebugCoord::Bits(*inner_x0),
                    DebugCoord::Bits(*inner_y0),
                    DebugCoord::Bits(*inner_x1),
                    DebugCoord::Bits(*inner_y1),
                    *inner_color,
                    *inner_color,
                );
            }
            if outer_alpha.gt(FloatBits(LEAST_ALPHA_BITS)) {
                debug.add_rect(rect, *thickness, *outer_color);
            }
        },
        DebugItem::Text { glyphs, color } => {
            debug.add_text(glyphs, *color);
        },
    }
}

/// Draws the items of a frame.
pub fn draw_frame_debug_items(debug: &mut DebugRenderer, items: &Vec<DebugItem>)
    requires
        old(debug).wf(),
        forall|i: int| 0 <= i < items@.len() ==> item_ok(#[trigger] items@[i]),
        old(debug).tri_vertices@.len() + 20 * (items@.len() + 1) <= u32::MAX,
        old(debug).glyph_room(glyph_count(items@)),
    ensures
        final(debug).wf(),
        final(debug)@ == with_items(old(debug)@, items@),
{
    let mut i: usize = 0;
    assert(items@.take(0) =~= Seq::<DebugItem>::empty());
    while i < items.len()
        invariant
            i <= items@.len(),
            debug.wf(),
            forall|i: int| 0 <= i < items@.len() ==> item_ok(#[trigger] items@[i]),
            old(debug).tri_vertices@.len() + 20 * (items@.len() + 1) <= u32::MAX,
            old(debug).glyph_room(glyph_count(items@)),
            debug.tri_vertices@.len() <= old(debug).tri_vertices@.len() + 20 * i,
            debug.font_vertices@.len() == old(debug).font_vertices@.len() + 4 * glyph_count(
                items@.take(i as int),
            ),
            debug@ == with_items(old(debug)@, items@.take(i as int)),
        decreases items@.len() - i,
    {
        proof {
            assert(items@.take(i as int + 1).drop_last() =~= items@.take(i as int));
            assert(items@.take(i as int + 1).last() == items@[i as int]);
            lemma_glyphs_grow(items@, i as int + 1);
        }
        assert(item_ok(items@[i as int]));
        draw_item(debug, &items[i]);
        i = i + 1;
    }
    assert(items@.take(i as int) =~= items@);
}

/// What is drawn, with the frames of items.
pub open spec fn with_borders(d: DebugView, items: Seq<DebugItem>) -> DebugView
    decreases items.len(),
{
    if items.len() == 0 {
        d
    } else {
        let before = with_borders(d, items.drop_last());
        match items.last() {
            DebugItem::Rect { rect, outer_alpha, outer_color, thickness, .. } => if is_visible(
                outer_alpha,
            ) {
                with_rect(before, rect, thickness, outer_color)
            } else {
                before
            },
            DebugItem::Text { .. } => before,
        }
    }
}

/// Draws only the frames of items, where they are asked for.
pub fn draw_external_composite_borders_debug(
    debug: &mut DebugRenderer,
    debug_flags: &DebugFlags,
    items: &Vec<DebugItem>,
)
    requires
        old(debug).wf(),
        forall|i: int| 0 <= i < items@.len() ==> item_ok(#[trigger] items@[i]),
        old(debug).tri_vertices@.len() + 20 * (items@.len() + 1) <= u32::MAX,
    ensures
        final(debug).wf(),
        final(debug)@ == (if debug_flags.external_composite_borders {
            with_borders(old(debug)@, items@)
        } else {
            old(debug)@
        }),
{
    if !debug_flags.external_composite_borders {
        return ;
    }
    let mut i: usize = 0;
    assert(items@.take(0) =~= Seq::<DebugItem>::empty());
    while i < items.len()
        invariant
            i <= items@.len(),
            debug.wf(),
            forall|i: int| 0 <= i < items@.len() ==> item_ok(#[trigger] items@[i]),
            old(debug).tri_vertices@.len() + 20 * (items@.len() + 1) <= u32::MAX,
            debug.tri_vertices@.len() <= old(debug).tri_vertices@.len() + 20 * i,
            debug@ == with_borders(old(debug)@, items@.take(i as int)),
        decreases items@.len() - i,
    {
        proof {
            assert(items@.take(i as int + 1).drop_last() =~= items@.take(i as int));
            assert(items@.take(i as int + 1).last() == items@[i as int]);
        }
        assert(item_ok(items@[i as int]));
        match &items[i] {
            DebugItem::Rect { rect, outer_alpha, outer_color, thickness, .. } => {
                if outer_alpha.gt(FloatBits(LEAST_ALPHA_BITS)) {
                    debug.add_rect(rect, *thickness, *outer_color);
                }
            },
            DebugItem::Text { .. } => {},
        }
        i = i + 1;
    }
    assert(items@.take(i as int) =~= items@);
}

/// The part of the screen around the cursor, and where it is shown enlarged.
#[derive(Clone, Copy, Debug, PartialEq, Eq, Structural)]
pub struct ZoomRects {
    pub source: DeviceIntRect,
    pub target: DeviceIntRect,
    /// The frame around the enlarged part.
    pub frame: DeviceIntRect,
}

/// A coordinate of a part of a screen: around the cursor, but on the screen.
pub open spec fn zoom_origin(cursor: int, size: int) -> int {
    let centered = cursor - 32;
    let last = size - 64;
    let limited = if centered < last {
        centered
    } else {
        last
    };
    if limited < 0 {
        0
    } else {
        limited
    }
}

pub open spec fn square(x: int, y: int, size: int) -> DeviceIntRect {
    DeviceIntRect {
        min: DeviceIntPoint { x: x as i32, y: y as i32 },
        max: DeviceIntPoint { x: (x + size) as i32, y: (y + size) as i32 },
    }
}

pub open spec fn spec_zoom_rects(cursor: DeviceIntPoint, size: DeviceIntSize) -> ZoomRects {
    let x = size.width - 1024 - 64;
    let y = size.height - 1024 - 64;
    ZoomRects {
        source: square(
            zoom_origin(cursor.x as int, size.width as int),
            zoom_origin(cursor.y as int, size.height as int),
            64,
        ),
        target: square(x, y, 1024),
        frame: DeviceIntRect {
            min: DeviceIntPoint { x: (x - 1) as i32, y: (y - 1) as i32 },
            max: DeviceIntPoint { x: (x + 1025) as i32, y: (y + 1025) as i32 },
        },
    }
}

fn zoom_start(cursor: i32, size: i32) -> (r: i32)
    requires
        cursor >= i32::MIN + 32,
        0 <= size,
    ensures
        r == zoom_origin(cursor as int, size as int),
        0 <= r <= if size > 64 {
            size - 64
        } else {
            0
        },
{
    let mut r: i32 = cursor - 32;
    if size - 64 < r {
        r = size - 64;
    }
    if r < 0 {
        r = 0;
    }
    r
}

/// What the magnifier copies; nothing where it is not asked for.
pub fn zoom_rects(
    debug_flags: &DebugFlags,
    cursor_position: DeviceIntPoint,
    device_size: DeviceIntSize,
) -> (r: Option<ZoomRects>)
    requires
        cursor_position.x >= i32::MIN + 32,
        cursor_position.y >= i32::MIN + 32,
        0 <= device_size.width,
        0 <= device_size.height,
    ensures
        r == (if debug_flags.zoom_dbg {
            Some(spec_zoom_rects(cursor_position, device_size))
        } else {
            None
        }),
{
    if !debug_flags.zoom_dbg {
        return None;
    }
    let sx: i32 = zoom_start(cursor_position.x, device_size.width);
    let sy: i32 = zoom_start(cursor_position.y, device_size.height);
    let x: i32 = device_size.width - 1024 - 64;
    let y: i32 = device_size.height - 1024 - 64;
    Some(
        ZoomRects {
            source: DeviceIntRect {
                min: DeviceIntPoint { x: sx, y: sy },
                max: DeviceIntPoint { x: sx + 64, y: sy + 64 },
            },
            target: DeviceIntRect {
                min: DeviceIntPoint { x, y },
                max: DeviceIntPoint { x: x + 1024, y: y + 1024 },
            },
            frame: DeviceIntRect {
                min: DeviceIntPoint { x: x - 1, y: y - 1 },
                max: DeviceIntPoint { x: x + 1025, y: y + 1025 },
            },
        },
    )
}

/// What is asked of the device for the magnifier.
#[derive(Clone, Copy, Debug, PartialEq, Eq, Structural)]
pub enum ZoomAction {
    CreateTexture { size: DeviceIntSize },
    /// Copies a part of the screen to a part of the texture, without smoothing.
    CopyToTexture { source: DeviceIntRect, dest: DeviceIntRect },
    /// Copies a part of the texture to a part of the screen, without smoothing.
    CopyToScreen { source: DeviceIntRect, dest: DeviceIntRect },
}

/// What the magnifier asks of the device. The texture is made once.
pub open spec fn zoom_actions(has_texture: bool, rects: ZoomRects) -> Seq<ZoomAction> {
    let texture = square(0, 0, 64);
    let copies = seq![
        ZoomAction::CopyToTexture { source: rects.source, dest: texture },
        ZoomAction::CopyToScreen { source: texture, dest: rects.target },
    ];
    if has_texture {
        copies
    } else {
        seq![
            ZoomAction::CreateTexture { size: DeviceIntSize { width: 64, height: 64 } },
        ] + copies
    }
}

/// Magnifies the part of the screen around the cursor, where that is asked for, and draws
/// a red frame around the magnified part.
pub fn draw_zoom_debug(
    debug: &mut DebugRenderer,
    debug_flags: &DebugFlags,
    has_texture: &mut bool,
    cursor_position: DeviceIntPoint,
    device_size: DeviceIntSize,
) -> (r: Vec<ZoomAction>)
    requires
        old(debug).wf(),
        old(debug).room(4),
        cursor_position.x >= i32::MIN + 32,
        cursor_position.y >= i32::MIN + 32,
        0 <= device_size.width,
        0 <= device_size.height,
    ensures
        final(debug).wf(),
        ({
            let rects = spec_zoom_rects(cursor_position, device_size);
            if debug_flags.zoom_dbg {
                &&& r@ == zoom_actions(*old(has_texture), rects)
                &&& *final(has_texture)
                &&& final(debug)@ == with_rect(
                    old(debug)@,
                    rects.frame,
                    1,
                    ColorU { r: 255, g: 0, b: 0, a: 255 },
                )
            } else {
                &&& r@ == Seq::<ZoomAction>::empty()
                &&& *final(has_texture) == *old(has_texture)
                &&& final(debug)@ == old(debug)@
            }
        }),
{
    let mut actions: Vec<ZoomAction> = Vec::new();
    if let Some(rects) = zoom_rects(debug_flags, cursor_position, device_size) {
        debug.add_rect(&rects.frame, 1, ColorU { r: 255, g: 0, b: 0, a: 255 });
        let size = DeviceIntSize { width: 64, height: 64 };
        let texture = DeviceIntRect {
            min: DeviceIntPoint { x: 0, y: 0 },
            max: DeviceIntPoint { x: 64, y: 64 },
        };
        if !*has_texture {
            actions.push(ZoomAction::CreateTexture { size });
            *has_texture = true;
        }
        actions.push(ZoomAction::CopyToTexture { source: rects.source, dest: texture });
        actions.push(ZoomAction::CopyToScreen { source: texture, dest: rects.target });
        assert(actions@ =~= zoom_actions(
            *old(has_texture),
            spec_zoom_rects(cursor_position, device_size),
        ));
    }
    actions
}

/// On a screen that is large enough, the magnified part lies on the screen, and the
/// cursor in it, where the cursor is on the screen.
pub proof fn magnified_part_is_on_screen(cursor: DeviceIntPoint, size: DeviceIntSize)
    requires
        size.width >= 64,
        size.height >= 64,
        0 <= cursor.x < size.width,
        0 <= cursor.y < size.height,
    ensures
        ({
            let source = spec_zoom_rects(cursor, size).source;
            &&& 0 <= source.min.x && source.max.x <= size.width
            &&& 0 <= source.min.y && source.max.y <= size.height
            &&& source.has(cursor.x as int, cursor.y as int)
        }),
{
}

/// A texture that is shown.
#[derive(Clone, Copy, Debug, PartialEq, Eq, Structural)]
pub struct ShownTexture {
    pub id: u32,
    pub width: i32,
    pub height: i32,
    pub size_in_bytes: usize,
    /// The texture is shared by many images.
    pub is_shared: bool,
}

/// Where textures are shown.
#[derive(Clone, Copy, Debug, PartialEq, Eq, Structural)]
pub struct BlitLayout {
    pub fb_width: i32,
    pub fb_height: i32,
    /// The side of each texture.
    pub size: i32,
    /// The room between them.
    pub spacing: i32,
    /// The room below them.
    pub bottom: i32,
}

/// A texture with its label.
pub struct TextureBlit {
    pub texture: u32,
    pub src: DeviceIntSize,
    pub dest: DeviceIntRect,
    pub tag: DeviceIntRect,
    /// Where the text of the label starts.
    pub text_x: i32,
    pub text_y: i32,
    pub text: String,
    pub is_shared: bool,
}

/// Textures of full size do not fit beside each other.
pub fn must_shrink(num_textures: i32, fb_width: i32) -> (r: bool)
    requires
        0 <= num_textures * 528 <= i32::MAX,
    ensures
        r == (num_textures * 528 > fb_width),
{
    num_textures * (512 + 16) > fb_width
}

/// The place of a texture in a list by size: after all that are not larger.
pub open spec fn size_place(sorted: Seq<ShownTexture>, size: usize) -> int
    decreases sorted.len(),
{
    if sorted.len() == 0 {
        0
    } else if sorted.last().size_in_bytes <= size {
        sorted.len() as int
    } else {
        size_place(sorted.drop_last(), size)
    }
}

/// The textures by size, those of the same size in the order they came in.
pub open spec fn by_size(textures: Seq<ShownTexture>) -> Seq<ShownTexture>
    decreases textures.len(),
{
    if textures.len() == 0 {
        textures
    } else {
        let before = by_size(textures.drop_last());
        before.insert(
            size_place(before, textures.last().size_in_bytes),
            textures.last(),
        )
    }
}

proof fn lemma_size_place(sorted: Seq<ShownTexture>, size: usize)
    ensures
        0 <= size_place(sorted, size) <= sorted.len(),
        forall|i: int|
            size_place(sorted, size) <= i < sorted.len() ==> (
            #[trigger] sorted[i]).size_in_bytes > size,
        size_place(sorted, size) > 0 ==> sorted[size_place(sorted, size) - 1].size_in_bytes <= size,
    decreases sorted.len(),
{
    if sorted.len() > 0 && sorted.last().size_in_bytes > size {
        let rest = sorted.drop_last();
        lemma_size_place(rest, size);
        assert forall|i: int| size_place(sorted, size) <= i < sorted.len() implies (
        #[trigger] sorted[i]).size_in_bytes > size by {
            if i < rest.len() {
                assert(rest[i] == sorted[i]);
            }
        }
    }
}

/// No texture is lost when they are sorted, and larger ones come later.
pub proof fn textures_are_sorted(textures: Seq<ShownTexture>)
    ensures
        by_size(textures).len() == textures.len(),
        by_size(textures).to_multiset() =~= textures.to_multiset(),
        forall|i: int, j: int|
            0 <= i <= j < by_size(textures).len() ==> (
            #[trigger] by_size(textures)[i]).size_in_bytes <= (
            #[trigger] by_size(textures)[j]).size_in_bytes,
    decreases textures.len(),
{
    broadcast use vstd::seq_lib::group_to_multiset_ensures;

    if textures.len() > 0 {
        let before = by_size(textures.drop_last());
        let last = textures.last();
        let place = size_place(before, last.size_in_bytes);
        textures_are_sorted(textures.drop_last());
        lemma_size_place(before, last.size_in_bytes);
        let after = before.insert(place, last);
        assert(after.remove(place) =~= before);
        assert(after[place] == last);
        assert(after.contains(last));
        assert(textures =~= textures.drop_last().push(last));
        assert(after.to_multiset() =~= before.to_multiset().insert(last));
        assert forall|i: int, j: int| 0 <= i <= j < after.len() implies (
        #[trigger] after[i]).size_in_bytes <= (#[trigger] after[j]).size_in_bytes by {
            let a = if i < place {
                i
            } else {
                i - 1
            };
            let b = if j < place {
                j
            } else {
                j - 1
            };
            if i != place && j != place {
                assert(after[i] == before[a]);
                assert(after[j] == before[b]);
            } else if i == place && j != place {
                assert(after[j] == before[b]);
            } else if j == place && i != place {
                assert(after[i] == before[a]);
                assert(before[place - 1].size_in_bytes <= last.size_in_bytes);
            }
        }
    } else {
        assert(by_size(textures) =~= textures);
    }
}

fn sort_by_size(textures: &Vec<ShownTexture>) -> (r: Vec<ShownTexture>)
    ensures
        r@ == by_size(textures@),
{
    let mut r: Vec<ShownTexture> = Vec::new();
    let mut i: usize = 0;
    assert(r@ =~= by_size(textures@.take(0)));
    while i < textures.len()
        invariant
            i <= textures@.len(),
            r@ == by_size(textures@.take(i as int)),
        decreases textures@.len() - i,
    {
        let ghost next = textures@.take(i as int + 1);
        assert(next.drop_last() =~= textures@.take(i as int));
        let texture = textures[i];
        let mut place: usize = r.len();
        assert(r@.take(place as int) =~= r@);
        while place > 0 && r[place - 1].size_in_bytes > texture.size_in_bytes
            invariant
                place <= r@.len(),
                size_place(r@.take(place as int), texture.size_in_bytes) == size_place(
                    r@,
                    texture.size_in_bytes,
                ),
            decreases place,
        {
            assert(r@.take(place as int).drop_last() =~= r@.take(place - 1));
            place = place - 1;
        }
        proof {
            let now = r@.take(place as int);
            if place > 0 {
                assert(now.last() == r@[place - 1]);
            }
            assert(size_place(now, texture.size_in_bytes) == place);
        }
        r.insert(place, texture);
        i = i + 1;
        assert(r@ =~= by_size(next));
    }
    assert(textures@.take(i as int) =~= textures@);
    r
}

/// The left side of a texture: they are shown from the right.
pub open spec fn blit_x(layout: BlitLayout, i: int) -> int {
    layout.fb_width - (layout.spacing + layout.size) * (i + 1)
}

pub open spec fn tag_y(layout: BlitLayout) -> int {
    layout.fb_height - (layout.bottom + layout.spacing + 16)
}

/// The text of a label.
pub open spec fn size_text(width: i32, height: i32) -> Seq<char> {
    decimal(width as nat) + "x"@ + decimal(height as nat)
}

/// A texture is shown at a place.
pub open spec fn is_blit(blit: TextureBlit, texture: ShownTexture, layout: BlitLayout, i: int) -> bool {
    let x = blit_x(layout, i);
    let y = tag_y(layout);
    &&& blit.texture == texture.id
    &&& blit.src == (DeviceIntSize { width: texture.width, height: texture.height })
    &&& blit.dest == square(x, y - layout.size, layout.size as int)
    &&& blit.tag == (DeviceIntRect {
        min: DeviceIntPoint { x: x as i32, y: y as i32 },
        max: DeviceIntPoint { x: (x + layout.size) as i32, y: (y + 16) as i32 },
    })
    &&& blit.text_x == x + 1
    &&& blit.text_y == y + 15
    &&& blit.text@ == size_text(texture.width, texture.height)
    &&& blit.is_shared == texture.is_shared
}

/// The places of all textures can be computed.
pub open spec fn layout_ok(layout: BlitLayout, count: int) -> bool {
    &&& 0 <= layout.fb_width <= 0xFFFF
    &&& 0 <= layout.fb_height <= 0xFFFF
    &&& 0 <= layout.size <= 512
    &&& 0 <= layout.spacing <= 16
    &&& 0 <= layout.bottom <= 0xFFFF
    &&& count <= 0xFFFF
}

/// The textures with their labels, the largest ones on the left.
pub fn do_debug_blit(textures: &Vec<ShownTexture>, layout: &BlitLayout) -> (r: Vec<TextureBlit>)
    requires
        layout_ok(*layout, textures@.len() as int),
        forall|i: int|
            0 <= i < textures@.len() ==> (#[trigger] textures@[i]).width >= 0
                && textures@[i].height >= 0,
    ensures
        r@.len() == textures@.len(),
        forall|i: int|
            0 <= i < r@.len() ==> is_blit(
                #[trigger] r@[i],
                by_size(textures@)[i],
                *layout,
                i,
            ),
{
    let sorted = sort_by_size(textures);
    proof {
        textures_are_sorted(textures@);
        lemma_sorted_from(textures@);
    }
    let tag_y: i32 = layout.fb_height - (layout.bottom + layout.spacing + 16);
    let image_y: i32 = tag_y - layout.size;
    let mut r: Vec<TextureBlit> = Vec::new();
    let mut i: usize = 0;
    let step: i32 = layout.spacing + layout.size;
    while i < sorted.len()
        invariant
            i <= sorted@.len(),
            sorted@ == by_size(textures@),
            sorted@.len() == textures@.len(),
            layout_ok(*layout, textures@.len() as int),
            step == layout.spacing + layout.size,
            tag_y == self::tag_y(*layout),
            image_y == tag_y - layout.size,
            forall|i: int|
                0 <= i < sorted@.len() ==> (#[trigger] sorted@[i]).width >= 0
                    && sorted@[i].height >= 0,
            r@.len() == i,
            forall|j: int|
                0 <= j < i ==> is_blit(
                    #[trigger] r@[j],
                    by_size(textures@)[j],
                    *layout,
                    j,
                ),
        decreases sorted@.len() - i,
    {
        let texture = sorted[i];
        assert(0 <= step * (i as int + 1) <= 528 * 0x1_0000) by (nonlinear_arith)
            requires
                0 <= step <= 528,
                0 <= i as int,
                i as int + 1 <= 0x1_0000,
        ;
        let x: i32 = layout.fb_width - step * (i as i32 + 1);
        let mut text = to_decimal(texture.width as u64);
        text.append("x");
        let height_text = to_decimal(texture.height as u64);
        text.append(height_text.as_str());
        let blit = TextureBlit {
            texture: texture.id,
            src: DeviceIntSize { width: texture.width, height: texture.height },
            dest: DeviceIntRect {
                min: DeviceIntPoint { x, y: image_y },
                max: DeviceIntPoint { x: x + layout.size, y: image_y + layout.size },
            },
            tag: DeviceIntRect {
                min: DeviceIntPoint { x, y: tag_y },
                max: DeviceIntPoint { x: x + layout.size, y: tag_y + 16 },
            },
            text_x: x + 1,
            text_y: tag_y + 15,
            text,
            is_shared: texture.is_shared,
        };
        assert(blit.text@ =~= size_text(texture.width, texture.height));
        r.push(blit);
        i = i + 1;
    }
    r
}

/// What is sorted is what was there.
proof fn lemma_sorted_from(textures: Seq<ShownTexture>)
    requires
        forall|i: int|
            0 <= i < textures.len() ==> (#[trigger] textures[i]).width >= 0 && textures[i].height
                >= 0,
    ensures
        forall|i: int|
            0 <= i < by_size(textures).len() ==> (#[trigger] by_size(textures)[i]).width >= 0
                && by_size(textures)[i].height >= 0,
{
    broadcast use vstd::seq_lib::group_to_multiset_ensures;

    textures_are_sorted(textures);
    assert forall|i: int| 0 <= i < by_size(textures).len() implies (
    #[trigger] by_size(textures)[i]).width >= 0 && by_size(textures)[i].height >= 0 by {
        let t = by_size(textures)[i];
        assert(by_size(textures).contains(t));
        assert(textures.to_multiset().count(t) > 0);
        assert(textures.contains(t));
    }
}

/// The room below the textures of the cache: that of the render targets, where those are
/// shown too.
pub fn texture_cache_bottom(debug_flags: &DebugFlags) -> (r: i32)
    ensures
        r == (if debug_flags.render_target_dbg {
            544i32
        } else {
            0i32
        }),
{
    if debug_flags.render_target_dbg {
        544
    } else {
        0
    }
}

/// The color of the text about the visibility of the window.
pub fn visibility_color(is_fully_occluded: bool) -> (r: ColorU)
    ensures
        r == (if is_fully_occluded {
            ColorU { r: 255, g: 0, b: 0, a: 255 }
        } else {
            ColorU { r: 0, g: 0, b: 255, a: 255 }
        }),
{
    if is_fully_occluded {
        ColorU { r: 255, g: 0, b: 0, a: 255 }
    } else {
        ColorU { r: 0, g: 0, b: 255, a: 255 }
    }
}

} // verus!
