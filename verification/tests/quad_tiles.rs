use webrender::quad::tiles::{ClipMode, QuadTileClassifier, QuadTileInfo, QuadTileKind};
use webrender::units::{DeviceIntPoint, DeviceIntRect};

const P: QuadTileKind = QuadTileKind::Pattern { has_mask: false };

const M: QuadTileKind = QuadTileKind::Pattern { has_mask: true };

fn rect(x0: i32, y0: i32, x1: i32, y1: i32) -> DeviceIntRect {
    DeviceIntRect::new(DeviceIntPoint::new(x0, y0), DeviceIntPoint::new(x1, y1))
}

fn qc_new(x0: i32, y0: i32, w: i32, h: i32) -> QuadTileClassifier {
    let mut qc = QuadTileClassifier::new();
    qc.reset(rect(x0, y0, x0 + w, y0 + h), false);
    qc
}

fn all_tiles(mut qc: QuadTileClassifier) -> Vec<QuadTileInfo> {
    let mut tiles = qc.classify();
    let mut all = Vec::new();
    while let Some(tile) = tiles.next() {
        all.push(tile);
    }
    all
}

fn qc_verify(qc: QuadTileClassifier, expected: &[QuadTileKind]) {
    let tiles = all_tiles(qc);
    let mut n = 0;
    for (tile, ex) in tiles.iter().zip(expected.iter()) {
        assert_eq!(tile.kind, *ex, "Failed for tile {:?}", tile.rect);
        n += 1;
    }
    assert_eq!(n, expected.len());
}

#[test]
fn quad_classify_1() {
    let qc = qc_new(0, 0, 768, 768);
    qc_verify(qc, &[P, P, P]);
}

#[test]
fn quad_classify_2() {
    let mut qc = qc_new(0, 0, 768, 768);
    qc.add_clip_rect(rect(0, 0, 768, 768), ClipMode::Clip);
    qc_verify(qc, &[P, P, P]);
}

#[test]
fn quad_classify_3() {
    let mut qc = qc_new(0, 0, 768, 768);
    qc.add_clip_rect(rect(230, 230, 460, 460), ClipMode::Clip);
    qc_verify(qc, &[P]);
}

#[test]
fn quad_classify_4() {
    let mut qc = qc_new(0, 0, 768, 768);
    qc.add_clip_rect(rect(230, 230, 537, 537), ClipMode::Clip);
    qc_verify(qc, &[P, P, P]);
}

#[test]
fn quad_classify_5() {
    let mut qc = qc_new(0, 0, 768, 768);
    qc.add_clip_rect(rect(230, 230, 537, 537), ClipMode::ClipOut);
    qc_verify(qc, &[M, M, M, M]);
}

#[test]
fn quad_classify_6() {
    let mut qc = qc_new(0, 0, 768, 768);
    qc.add_clip_rect(rect(40, 40, 60, 60), ClipMode::ClipOut);
    qc_verify(qc, &[M, M, M]);
}

#[test]
fn quad_classify_7() {
    let mut qc = qc_new(0, 0, 768, 768);
    qc.add_mask_region(rect(154, 77, 691, 614));
    qc_verify(qc, &[M, M, M]);
}

#[test]
fn quad_classify_8() {
    let mut qc = qc_new(0, 0, 768, 768);
    qc.add_mask_region(rect(307, 307, 460, 460));
    qc_verify(qc, &[P, P, M, P, P]);
}

#[test]
fn quad_classify_9() {
    let mut qc = qc_new(100, 200, 1024, 1024);
    qc.add_mask_region(rect(90, 180, 250, 650));
    qc_verify(qc, &[M, P, M, P, P, P]);
}

#[test]
fn quad_classify_10() {
    let mut qc = qc_new(100, 200, 1024, 1024);
    qc.add_mask_region(rect(90, 180, 510, 710));
    qc.add_clip_rect(rect(120, 220, 714, 1015), ClipMode::Clip);
    qc_verify(qc, &[M, P, M, P, P, P]);
}

#[test]
fn quad_classify_11() {
    let mut qc = qc_new(100, 200, 1024, 1024);
    qc.add_mask_region(rect(90, 180, 510, 710));
    qc.add_clip_rect(rect(120, 220, 714, 1015), ClipMode::Clip);
    qc.add_clip_rect(rect(130, 200, 714, 609), ClipMode::ClipOut);
    qc_verify(qc, &[M, M, M, M]);
}

#[test]
fn quad_classify_12() {
    let mut qc = qc_new(100, 200, 1024, 1024);
    qc.add_clip_rect(rect(130, 200, 714, 609), ClipMode::ClipOut);
    qc.add_clip_rect(rect(120, 220, 714, 1015), ClipMode::Clip);
    qc.add_mask_region(rect(90, 180, 510, 710));
    qc_verify(qc, &[M, M, M, M]);
}

#[test]
fn tiles_of_a_plain_quad_are_joined_by_row() {
    let tiles = all_tiles(qc_new(0, 0, 768, 768));
    assert_eq!(
        tiles,
        vec![
            QuadTileInfo { rect: rect(0, 0, 768, 256), kind: P },
            QuadTileInfo { rect: rect(0, 256, 768, 512), kind: P },
            QuadTileInfo { rect: rect(0, 512, 768, 768), kind: P },
        ]
    );
}

#[test]
fn masked_tiles_stay_narrow() {
    let mut qc = QuadTileClassifier::new();
    qc.reset(rect(0, 0, 2048, 2048), true);
    let tiles = all_tiles(qc);
    assert_eq!(tiles.len(), 8);
    for tile in &tiles {
        assert_eq!(tile.kind, M);
        assert_eq!(tile.rect.width(), 1024);
        assert_eq!(tile.rect.height(), 512);
    }
    assert_eq!(tiles[1].rect, rect(1024, 0, 2048, 512));
}

#[test]
fn plain_tiles_are_as_wide_as_the_quad() {
    let tiles = all_tiles(qc_new(0, 0, 4096, 4096));
    assert_eq!(tiles.len(), 4);
    assert_eq!(tiles[0].rect, rect(0, 0, 4096, 1024));
}

#[test]
fn every_pixel_of_an_unclipped_quad_is_drawn_once() {
    let mut qc = qc_new(3, 5, 777, 901);
    qc.add_mask_region(rect(300, 300, 310, 310));
    let tiles = all_tiles(qc);
    let area: i64 = tiles
        .iter()
        .map(|t| t.rect.width() as i64 * t.rect.height() as i64)
        .sum();
    assert_eq!(area, 777 * 901);
    assert!(tiles.iter().any(|t| t.kind == M && t.rect.contains_box(&rect(300, 300, 310, 310))));
}

#[test]
fn small_quads_are_one_tile() {
    let tiles = all_tiles(qc_new(10, 20, 30, 40));
    assert_eq!(tiles, vec![QuadTileInfo { rect: rect(10, 20, 40, 60), kind: P }]);
}

#[test]
fn an_empty_mask_region_changes_nothing() {
    let mut qc = qc_new(0, 0, 768, 768);
    qc.add_mask_region(rect(50, 50, 50, 90));
    qc_verify(qc, &[P, P, P]);
}

#[test]
fn nothing_is_drawn_outside_of_the_clip() {
    let mut qc = qc_new(0, 0, 768, 768);
    qc.add_clip_rect(rect(1000, 1000, 1100, 1100), ClipMode::Clip);
    assert!(all_tiles(qc).is_empty());
}

#[test]
fn regions_can_be_added_in_any_order() {
    let forward = |qc: &mut QuadTileClassifier| {
        qc.add_mask_region(rect(10, 10, 300, 300));
        qc.add_clip_rect(rect(0, 0, 600, 768), ClipMode::Clip);
        qc.add_clip_rect(rect(256, 256, 512, 512), ClipMode::ClipOut);
    };
    let backward = |qc: &mut QuadTileClassifier| {
        qc.add_clip_rect(rect(256, 256, 512, 512), ClipMode::ClipOut);
        qc.add_clip_rect(rect(0, 0, 600, 768), ClipMode::Clip);
        qc.add_mask_region(rect(10, 10, 300, 300));
    };
    let mut one = qc_new(0, 0, 768, 768);
    let mut other = qc_new(0, 0, 768, 768);
    forward(&mut one);
    backward(&mut other);
    assert_eq!(all_tiles(one), all_tiles(other));
}

#[test]
fn joined_tiles_are_as_wide_as_they_may_be() {
    let mut qc = QuadTileClassifier::new();
    qc.reset(rect(0, 0, 2560, 2560), true);
    let tiles = all_tiles(qc);
    // Of eight columns of 320 pixels, three go into a masked tile.
    assert_eq!(tiles[0].rect, rect(0, 0, 960, 640));
    assert_eq!(tiles[1].rect, rect(960, 0, 1920, 640));
    assert_eq!(tiles[2].rect, rect(1920, 0, 2560, 640));
    assert_eq!(tiles.len(), 12);
}

#[test]
fn low_quads_are_covered_where_their_last_rows_are_empty() {
    let tiles = all_tiles(qc_new(0, 0, 512, 1));
    assert_eq!(tiles[0].rect, rect(0, 0, 512, 1));
    assert_eq!(tiles.len(), 2);
    assert!(tiles[1].rect.is_empty());
    // Above the origin the first row is the empty one, and swallows the other.
    assert!(all_tiles(qc_new(0, -1, 512, 1)).iter().all(|tile| tile.rect.is_empty()));
}

#[test]
fn a_rectangle_that_is_turned_round_has_such_tiles() {
    let mut qc = QuadTileClassifier::new();
    qc.reset(rect(900, 0, 0, 500), true);
    let tiles = all_tiles(qc);
    assert_eq!(tiles, vec![QuadTileInfo { rect: rect(900, 0, 0, 500), kind: M }]);
    let mut qc = QuadTileClassifier::new();
    qc.reset(rect(0, 500, 512, 0), false);
    let tiles = all_tiles(qc);
    assert_eq!(tiles[0].rect, rect(0, 500, 512, 250));
    assert_eq!(tiles[1].rect, rect(0, 250, 512, 0));
}
