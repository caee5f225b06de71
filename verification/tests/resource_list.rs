use webrender::resource_list::{
    FontKey, Glyph, GlyphKey, ImageKey, ImageRendering, ResourceList,
};

fn sorted<T: std::fmt::Debug>(items: Vec<T>) -> Vec<String> {
    let mut texts: Vec<String> = items.iter().map(|item| format!("{:?}", item)).collect();
    texts.sort();
    texts
}

#[test]
fn nothing_is_needed_at_first() {
    let list = ResourceList::new();
    assert!(list.for_each_image().is_empty());
    assert!(list.for_each_glyph().is_empty());
    assert!(list.for_each_raster().is_empty());
}

#[test]
fn images_are_listed_once() {
    let mut list = ResourceList::new();
    list.add_image(ImageKey(1, 2), ImageRendering::Auto);
    list.add_image(ImageKey(1, 2), ImageRendering::Auto);
    list.add_image(ImageKey(1, 2), ImageRendering::Pixelated);
    list.add_image(ImageKey(2, 1), ImageRendering::CrispEdges);
    let expected = vec![
        (ImageKey(1, 2), ImageRendering::Auto),
        (ImageKey(1, 2), ImageRendering::Pixelated),
        (ImageKey(2, 1), ImageRendering::CrispEdges),
    ];
    assert_eq!(sorted(list.for_each_image()), sorted(expected));
}

#[test]
fn glyphs_are_listed_once_for_each_font() {
    let mut list = ResourceList::new();
    let glyph = Glyph { size: -60, blur_radius: 3, index: u32::MAX };
    let other = Glyph { size: 720, blur_radius: 0, index: 4 };
    list.add_glyph(FontKey(1, 1), glyph);
    list.add_glyph(FontKey(2, 1), glyph);
    list.add_glyph(FontKey(1, 1), other);
    list.add_glyph(FontKey(1, 1), glyph);
    let key = |font_key, glyph: Glyph| GlyphKey {
        font_key,
        size: glyph.size,
        blur_radius: glyph.blur_radius,
        index: glyph.index,
    };
    let glyphs = list.for_each_glyph();
    assert_eq!(glyphs[2].font_key, FontKey(2, 1));
    assert_eq!(
        sorted(glyphs),
        sorted(vec![
            key(FontKey(1, 1), glyph),
            key(FontKey(1, 1), other),
            key(FontKey(2, 1), glyph),
        ])
    );
}
