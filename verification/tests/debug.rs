use webrender::float_bits::FloatBits;
use webrender::renderer::commands::{DrawCommand, IntRect, TextureLayer};
use webrender::renderer::debug::{
    bind_debug_overlay, do_debug_blit, draw_external_composite_borders_debug,
    draw_frame_debug_items, draw_zoom_debug, must_shrink, texture_cache_bottom,
    unbind_debug_overlay, update_debug_overlay, visibility_color, zoom_rects, BlitLayout, ColorU,
    CompositorKind, DebugCoord, DebugDraw, DebugFlags, DebugItem, DebugOverlayState,
    DebugRenderer, GlyphQuad, LazyInitializedDebugRenderer, LazyStep, OverlayAction,
    OverlayTarget, ShownTexture, ZoomAction,
};
use webrender::renderer::debugger::{
    draw_render_target_debug, draw_texture_cache_debug, get_passes_for_debugger, LayeredTexture,
    ShrunkLayers,
};
use webrender::renderer::textures::TextureId;
use webrender::units::{DeviceIntPoint, DeviceIntRect, DeviceIntSize};

const RED: ColorU = ColorU { r: 255, g: 0, b: 0, a: 255 };

fn flags() -> DebugFlags {
    DebugFlags {
        profiler_dbg: false,
        render_target_dbg: false,
        texture_cache_dbg: false,
        epochs: false,
        picture_caching_dbg: false,
        picture_borders: false,
        zoom_dbg: false,
        window_visibility_dbg: false,
        external_composite_borders: false,
        show_overdraw: false,
    }
}

fn rect(x0: i32, y0: i32, x1: i32, y1: i32) -> DeviceIntRect {
    DeviceIntRect::new(DeviceIntPoint::new(x0, y0), DeviceIntPoint::new(x1, y1))
}

fn coord(n: u32) -> DebugCoord {
    DebugCoord::Bits(FloatBits(n))
}

#[test]
fn quads_are_two_triangles_of_four_corners() {
    let mut debug = DebugRenderer::new();
    debug.add_quad(coord(1), coord(2), coord(3), coord(4), RED, RED);
    debug.add_quad(coord(5), coord(6), coord(7), coord(8), RED, RED);
    assert_eq!(debug.tri_vertices.len(), 8);
    assert_eq!(debug.tri_indices[..6], [0, 1, 2, 2, 1, 3]);
    assert_eq!(debug.tri_indices[6..], [4, 5, 6, 6, 5, 7]);
    debug.add_rect(&rect(0, 0, 10, 10), 2, RED);
    assert_eq!(debug.tri_vertices.len(), 24);
    debug.add_line(0, 0, RED, 5, 5, RED);
    let glyph = GlyphQuad {
        x0: FloatBits(0),
        y0: FloatBits(0),
        x1: FloatBits(1),
        y1: FloatBits(1),
        s0: FloatBits(0),
        t0: FloatBits(0),
        s1: FloatBits(1),
        t1: FloatBits(1),
    };
    debug.add_text(&vec![glyph, glyph], RED);
    assert_eq!(
        debug.render(true),
        vec![
            DebugDraw::Setup,
            DebugDraw::Triangles { indices: 36 },
            DebugDraw::Lines { vertices: 2 },
            DebugDraw::Glyphs { indices: 12 },
        ]
    );
    assert!(debug.tri_vertices.is_empty() && debug.font_indices.is_empty());
}

#[test]
fn a_debug_renderer_that_failed_is_not_made_again() {
    let mut lazy = LazyInitializedDebugRenderer::new();
    assert!(matches!(lazy.next_step(), LazyStep::Create));
    lazy.created(false);
    assert!(matches!(lazy.next_step(), LazyStep::Failed));
    let mut lazy = LazyInitializedDebugRenderer::new();
    lazy.created(true);
    assert!(matches!(lazy.next_step(), LazyStep::Ready));
}

#[test]
fn the_overlay_is_made_when_it_is_needed() {
    let size = DeviceIntSize::new(80, 60);
    let mut state = DebugOverlayState::new();
    assert!(update_debug_overlay(CompositorKind::Native, &mut state, &flags(), size, false).is_empty());
    assert!(!state.is_enabled);
    let actions = update_debug_overlay(CompositorKind::Native, &mut state, &flags(), size, true);
    assert_eq!(
        actions,
        vec![OverlayAction::CreateSurface { size }, OverlayAction::CreateTile]
    );
    assert!(state.is_enabled);
    assert!(update_debug_overlay(CompositorKind::Native, &mut state, &flags(), size, true).is_empty());
    let (_, target) = bind_debug_overlay(CompositorKind::Native, &state, size);
    assert_eq!(target, Some(OverlayTarget::NativeSurface { size }));
    assert_eq!(
        unbind_debug_overlay(CompositorKind::Native, &state),
        vec![OverlayAction::Unbind, OverlayAction::AddSurface { size }]
    );
    let actions = update_debug_overlay(CompositorKind::Native, &mut state, &flags(), size, false);
    assert_eq!(actions, vec![OverlayAction::DestroySurface]);
}

#[test]
fn the_magnifier_stays_on_screen() {
    let size = DeviceIntSize::new(800, 600);
    assert!(zoom_rects(&flags(), DeviceIntPoint::new(5, 5), size).is_none());
    let mut on = flags();
    on.zoom_dbg = true;
    let rects = zoom_rects(&on, DeviceIntPoint::new(5, 5), size).unwrap();
    assert_eq!(rects.source.min, DeviceIntPoint::new(0, 0));
    assert_eq!(rects.source.width(), 64);
    let rects = zoom_rects(&on, DeviceIntPoint::new(5000, 5000), size).unwrap();
    assert_eq!(rects.source.max, DeviceIntPoint::new(800, 600));
}

#[test]
fn textures_are_shown_side_by_side() {
    let texture = |id, is_shared, size_in_bytes| ShownTexture {
        id,
        width: 512,
        height: 512,
        size_in_bytes,
        is_shared,
    };
    let layout = BlitLayout { fb_width: 1000, fb_height: 800, size: 100, spacing: 10, bottom: 0 };
    let blits = do_debug_blit(
        &vec![texture(1, true, 10), texture(2, false, 5), texture(3, true, 20)],
        &layout,
    );
    assert_eq!(blits.len(), 3);
    assert_eq!(blits[0].src, DeviceIntSize::new(512, 512));
    assert!(blits[0].dest.min.x != blits[1].dest.min.x);
    assert!(must_shrink(3, 1000));
    assert!(!must_shrink(1, 1000));
}

#[test]
fn occluded_windows_are_told_apart() {
    assert!(visibility_color(true) != visibility_color(false));
    assert!(texture_cache_bottom(&flags()) >= 0);
    let mut debug = DebugRenderer::new();
    draw_frame_debug_items(
        &mut debug,
        &vec![DebugItem::Text { glyphs: Vec::new(), color: RED }],
    );
    assert!(debug.font_vertices.is_empty());
}

#[test]
fn passes_are_told_to_the_debugger() {
    assert!(get_passes_for_debugger(&Vec::new()).is_empty());
}

#[test]
fn layers_are_shown_only_on_demand() {
    let off = webrender::renderer::DebugFlags::empty();
    let shrunk = ShrunkLayers { size: 485, spacing: 15 };
    let texture = LayeredTexture { texture: TextureId(1), width: 64, height: 32, layers: 2 };
    let mut out = Vec::new();
    draw_texture_cache_debug(&mut out, &off, &vec![texture], 1000, &shrunk);
    assert!(out.is_empty());
    let mut on = off;
    on.texture_cache_dbg = true;
    draw_render_target_debug(&mut out, &on, &vec![texture], 1000, &shrunk);
    assert!(out.is_empty());
    on.render_target_dbg = true;
    draw_texture_cache_debug(&mut out, &on, &vec![texture], 1000, &shrunk);
    let layer = |layer| DrawCommand::BindReadTarget {
        target: Some(TextureLayer { texture: TextureId(1), layer }),
    };
    let blit = |x, y, size| DrawCommand::Blit {
        src: IntRect { x: 0, y: 0, width: 64, height: 32 },
        dest: IntRect { x, y, width: size, height: size },
    };
    assert_eq!(out, vec![layer(0), blit(500, 543, 485), layer(1), blit(0, 543, 485)]);
    // On a screen that is wide enough, the layers have their full size.
    let mut wide = Vec::new();
    draw_render_target_debug(&mut wide, &on, &vec![texture], 1056, &shrunk);
    assert_eq!(wide, vec![layer(0), blit(528, 16, 512), layer(1), blit(0, 16, 512)]);
}

#[test]
fn the_magnifier_makes_its_texture_once() {
    let size = DeviceIntSize::new(2000, 2000);
    let cursor = DeviceIntPoint::new(500, 600);
    let mut debug = DebugRenderer::new();
    let mut has_texture = false;
    assert!(draw_zoom_debug(&mut debug, &flags(), &mut has_texture, cursor, size).is_empty());
    assert!(!has_texture && debug.line_vertices.is_empty());
    let mut on = flags();
    on.zoom_dbg = true;
    let actions = draw_zoom_debug(&mut debug, &on, &mut has_texture, cursor, size);
    let rects = zoom_rects(&on, cursor, size).unwrap();
    let texture = DeviceIntRect::from_size(DeviceIntSize::new(64, 64));
    assert_eq!(
        actions,
        vec![
            ZoomAction::CreateTexture { size: DeviceIntSize::new(64, 64) },
            ZoomAction::CopyToTexture { source: rects.source, dest: texture },
            ZoomAction::CopyToScreen { source: texture, dest: rects.target },
        ]
    );
    assert_eq!(rects.source.min, DeviceIntPoint::new(468, 568));
    assert_eq!(rects.target.min, DeviceIntPoint::new(912, 912));
    assert_eq!(debug.line_vertices.len(), 8);
    assert_eq!(draw_zoom_debug(&mut debug, &on, &mut has_texture, cursor, size).len(), 2);
}

#[test]
fn frames_of_outside_surfaces_are_drawn_on_demand() {
    let item = DebugItem::Rect {
        rect: DeviceIntRect::from_size(DeviceIntSize::new(10, 10)),
        inner_x0: FloatBits(0),
        inner_y0: FloatBits(0),
        inner_x1: FloatBits(0),
        inner_y1: FloatBits(0),
        inner_alpha: FloatBits(0),
        inner_color: RED,
        outer_alpha: FloatBits(1.0f32.to_bits()),
        outer_color: RED,
        thickness: 1,
    };
    let mut debug = DebugRenderer::new();
    let items = vec![item];
    draw_external_composite_borders_debug(&mut debug, &flags(), &items);
    assert!(debug.line_vertices.is_empty());
    let mut on = flags();
    on.external_composite_borders = true;
    draw_external_composite_borders_debug(&mut debug, &on, &items);
    assert_eq!(debug.line_vertices.len(), 8);
}
