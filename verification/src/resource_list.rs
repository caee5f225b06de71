//! The resources that a frame needs, each listed once.

use crate::grouped::GroupKey;
use crate::table::Table;
use std::collections::HashSet;
use std::hash::BuildHasherDefault;
use vstd::prelude::*;

verus! {

/// A set of triples of numbers, hashed by `fnv::FnvHasher`.
#[verifier::external_body]
pub struct FnvSet {
    items: HashSet<(i64, i64, i64), BuildHasherDefault<fnv::FnvHasher>>,
}

/// The triples in a set.
pub uninterp spec fn set_items(set: FnvSet) -> Set<(i64, i64, i64)>;

impl FnvSet {
    /// `HashSet::with_hasher` with a builder of `fnv::FnvHasher`, which begins every hash
    /// from the same state: a set with nothing in it.
    #[verifier::external_body]
    pub(crate) fn new() -> (r: Self)
        ensures
            set_items(r) == Set::<(i64, i64, i64)>::empty(),
    {
        FnvSet { items: HashSet::with_hasher(Default::default()) }
    }

    /// `HashSet::insert`: the item is in the set from now on, and the result says whether
    /// it was not there before.
    #[verifier::external_body]
    pub(crate) fn insert(&mut self, item: (i64, i64, i64)) -> (r: bool)
        ensures
            set_items(*final(self)) == set_items(*old(self)).insert(item),
            r == !set_items(*old(self)).contains(item),
    {
        self.items.insert(item)
    }

    /// `HashSet::iter`: each item of the set once. Their order is left open.
    #[verifier::external_body]
    pub(crate) fn items(&self) -> (r: Vec<(i64, i64, i64)>)
        ensures
            r@.no_duplicates(),
            r@.to_set() == set_items(*self),
    {
        self.items.iter().copied().collect()
    }
}

#[derive(Clone, Copy, Debug, PartialEq, Eq, Structural)]
pub struct ImageKey(pub u32, pub u32);

#[derive(Clone, Copy, Debug, PartialEq, Eq, Structural)]
pub enum ImageRendering {
    Auto,
    CrispEdges,
    Pixelated,
}

#[derive(Clone, Copy, Debug, PartialEq, Eq, Structural)]
pub struct FontKey(pub u32, pub u32);

impl GroupKey for FontKey {
    fn same(&self, other: &Self) -> (r: bool) {
        *self == *other
    }
}

/// A glyph of a font. Sizes are in sixtieths of a pixel.
#[derive(Clone, Copy, Debug, PartialEq, Eq, Structural)]
pub struct Glyph {
    pub size: i32,
    pub blur_radius: i32,
    pub index: u32,
}

/// A glyph together with its font.
#[derive(Clone, Copy, Debug, PartialEq, Eq, Structural)]
pub struct GlyphKey {
    pub font_key: FontKey,
    pub size: i32,
    pub blur_radius: i32,
    pub index: u32,
}

/// The resources that are needed.
pub struct ResourceList {
    pub required_images: FnvSet,
    pub required_glyphs: Table<FontKey, FnvSet>,
    pub required_rasters: FnvSet,
}

/// The triple that stands for an image.
pub open spec fn image_item(key: ImageKey, rendering: ImageRendering) -> (i64, i64, i64) {
    (
        key.0 as i64,
        key.1 as i64,
        match rendering {
            ImageRendering::Auto => 0,
            ImageRendering::CrispEdges => 1,
            ImageRendering::Pixelated => 2,
        },
    )
}

/// The triple that stands for a glyph.
pub open spec fn glyph_item(glyph: Glyph) -> (i64, i64, i64) {
    (glyph.size as i64, glyph.blur_radius as i64, glyph.index as i64)
}

/// The needed resources as a mathematical value.
#[verifier::ext_equal]
pub struct Resources {
    pub images: Set<(ImageKey, ImageRendering)>,
    pub glyphs: Set<GlyphKey>,
}

/// The triple stands for an image.
pub open spec fn is_image_item(item: (i64, i64, i64)) -> bool {
    0 <= item.0 <= u32::MAX && 0 <= item.1 <= u32::MAX && 0 <= item.2 <= 2
}

/// The triple stands for a glyph.
pub open spec fn is_glyph_item(item: (i64, i64, i64)) -> bool {
    i32::MIN <= item.0 <= i32::MAX && i32::MIN <= item.1 <= i32::MAX && 0 <= item.2 <= u32::MAX
}

fn image_of(item: (i64, i64, i64)) -> (r: (ImageKey, ImageRendering))
    requires
        is_image_item(item),
    ensures
        image_item(r.0, r.1) == item,
{
    let rendering = if item.2 == 0 {
        ImageRendering::Auto
    } else if item.2 == 1 {
        ImageRendering::CrispEdges
    } else {
        ImageRendering::Pixelated
    };
    (ImageKey(item.0 as u32, item.1 as u32), rendering)
}

fn glyph_of(item: (i64, i64, i64)) -> (r: Glyph)
    requires
        is_glyph_item(item),
    ensures
        glyph_item(r) == item,
{
    Glyph { size: item.0 as i32, blur_radius: item.1 as i32, index: item.2 as u32 }
}

impl ResourceList {
    /// Every triple stands for something.
    pub open spec fn wf(self) -> bool {
        &&& self.required_glyphs.wf()
        &&& forall|item: (i64, i64, i64)| #[trigger]
            set_items(self.required_images).contains(item) ==> is_image_item(item)
        &&& forall|font: FontKey, item: (i64, i64, i64)|
            self.required_glyphs@.dom().contains(font) && #[trigger] set_items(
                self.required_glyphs@[font],
            ).contains(item) ==> is_glyph_item(item)
    }

    pub open spec fn has_image(self, key: ImageKey, rendering: ImageRendering) -> bool {
        set_items(self.required_images).contains(image_item(key, rendering))
    }

    pub open spec fn has_glyph(self, key: GlyphKey) -> bool {
        self.required_glyphs@.dom().contains(key.font_key) && set_items(
            self.required_glyphs@[key.font_key],
        ).contains(
            glyph_item(
                Glyph { size: key.size, blur_radius: key.blur_radius, index: key.index },
            ),
        )
    }

    pub open spec fn view(self) -> Resources {
        Resources {
            images: Set::new(|image: (ImageKey, ImageRendering)| self.has_image(image.0, image.1)),
            glyphs: Set::new(|key: GlyphKey| self.has_glyph(key)),
        }
    }

    /// A list on which nothing is needed.
    pub fn new() -> (r: Self)
        ensures
            r.wf(),
            r@ == (Resources { images: Set::empty(), glyphs: Set::empty() }),
            r.required_glyphs@ == Map::<FontKey, FnvSet>::empty(),
            set_items(r.required_images) == Set::<(i64, i64, i64)>::empty(),
            set_items(r.required_rasters) == Set::<(i64, i64, i64)>::empty(),
    {
        let r = ResourceList {
            required_images: FnvSet::new(),
            required_glyphs: Table::new(),
            required_rasters: FnvSet::new(),
        };
        assert(r@ =~= (Resources { images: Set::empty(), glyphs: Set::empty() }));
        r
    }

    pub fn add_image(&mut self, key: ImageKey, image_rendering: ImageRendering)
        requires
            old(self).wf(),
        ensures
            final(self).wf(),
            final(self)@ == (Resources {
                images: old(self)@.images.insert((key, image_rendering)),
                ..old(self)@
            }),
            final(self).required_rasters == old(self).required_rasters,
    {
        let rendering: i64 = match image_rendering {
            ImageRendering::Auto => 0,
            ImageRendering::CrispEdges => 1,
            ImageRendering::Pixelated => 2,
        };
        let _ = self.required_images.insert((key.0 as i64, key.1 as i64, rendering));
        assert(self@ =~= (Resources {
            images: old(self)@.images.insert((key, image_rendering)),
            ..old(self)@
        }));
    }

    pub fn add_glyph(&mut self, font_key: FontKey, glyph: Glyph)
        requires
            old(self).wf(),
        ensures
            final(self).wf(),
            final(self)@ == (Resources {
                glyphs: old(self)@.glyphs.insert(
                    GlyphKey {
                        font_key,
                        size: glyph.size,
                        blur_radius: glyph.blur_radius,
                        index: glyph.index,
                    },
                ),
                ..old(self)@
            }),
            final(self).required_rasters == old(self).required_rasters,
    {
        let item = (glyph.size as i64, glyph.blur_radius as i64, glyph.index as i64);
        if !self.required_glyphs.contains(&font_key) {
            self.required_glyphs.insert(font_key, FnvSet::new());
        }
        let ghost before = self.required_glyphs@;
        match self.required_glyphs.get_mut(&font_key) {
            Some(glyphs) => {
                let _ = glyphs.insert(item);
            },
            None => {},
        }
        proof {
            assert(set_items(self.required_glyphs@[font_key]) == set_items(
                before[font_key],
            ).insert(item));
            assert forall|font: FontKey, other: (i64, i64, i64)|
                self.required_glyphs@.dom().contains(font) && #[trigger] set_items(
                    self.required_glyphs@[font],
                ).contains(other) implies is_glyph_item(other) by {
                if font == font_key {
                    if other != item {
                        assert(set_items(before[font]).contains(other));
                    }
                }
            }
            assert(self@ =~= (Resources {
                glyphs: old(self)@.glyphs.insert(
                    GlyphKey {
                        font_key,
                        size: glyph.size,
                        blur_radius: glyph.blur_radius,
                        index: glyph.index,
                    },
                ),
                ..old(self)@
            }));
        }
    }
}

/// Different images are different triples.
pub proof fn images_are_told_apart(
    a: (ImageKey, ImageRendering),
    b: (ImageKey, ImageRendering),
)
    ensures
        image_item(a.0, a.1) == image_item(b.0, b.1) ==> a == b,
{
}

/// Different glyphs are different triples.
pub proof fn glyphs_are_told_apart(a: Glyph, b: Glyph)
    ensures
        glyph_item(a) == glyph_item(b) ==> a == b,
{
}

/// The glyphs of one font.
pub open spec fn glyphs_of(font_key: FontKey, set: FnvSet) -> Set<GlyphKey> {
    Set::new(
        |key: GlyphKey|
            key.font_key == font_key && set_items(set).contains(
                glyph_item(
                    Glyph { size: key.size, blur_radius: key.blur_radius, index: key.index },
                ),
            ),
    )
}

impl ResourceList {
    /// The images that are needed, each once. Their order is left open.
    pub fn for_each_image(&self) -> (r: Vec<(ImageKey, ImageRendering)>)
        requires
            self.wf(),
        ensures
            r@.no_duplicates(),
            r@.to_set() == self@.images,
    {
        let items = self.required_images.items();
        let mut r: Vec<(ImageKey, ImageRendering)> = Vec::new();
        let mut i: usize = 0;
        while i < items.len()
            invariant
                i <= items@.len(),
                self.wf(),
                items@.to_set() == set_items(self.required_images),
                r@.len() == i,
                forall|j: int|
                    0 <= j < i ==> image_item((#[trigger] r@[j]).0, r@[j].1) == items@[j],
            decreases items@.len() - i,
        {
            assert(items@.contains(items@[i as int]));
            assert(items@.to_set().contains(items@[i as int]));
            r.push(image_of(items[i]));
            i = i + 1;
        }
        proof {
            assert forall|j: int, k: int| 0 <= j < r@.len() && 0 <= k < r@.len() && j != k implies
            r@[j] != r@[k] by {
                assert(items@[j] != items@[k]);
            }
            assert forall|image: (ImageKey, ImageRendering)| #[trigger]
                r@.to_set().contains(image) == self@.images.contains(image) by {
                if r@.contains(image) {
                    let j = r@.index_of(image);
                    assert(items@.contains(items@[j]));
                    assert(items@.to_set().contains(items@[j]));
                }
                if self.has_image(image.0, image.1) {
                    let item = image_item(image.0, image.1);
                    assert(items@.to_set().contains(item));
                    let j = items@.index_of(item);
                    images_are_told_apart(r@[j], image);
                    assert(r@[j] == image);
                }
            }
            assert(r@.to_set() =~= self@.images);
        }
        r
    }

    /// Adds the glyphs of one font.
    fn add_glyphs_of(&self, font_key: FontKey, set: &FnvSet, all: &mut Vec<GlyphKey>)
        requires
            forall|item: (i64, i64, i64)| #[trigger]
                set_items(*set).contains(item) ==> is_glyph_item(item),
            old(all)@.no_duplicates(),
            forall|i: int| 0 <= i < old(all)@.len() ==> (#[trigger] old(all)@[i]).font_key
                != font_key,
        ensures
            final(all)@.no_duplicates(),
            final(all)@.to_set() == old(all)@.to_set() + glyphs_of(font_key, *set),
    {
        let items = set.items();
        let ghost before = all@;
        let mut i: usize = 0;
        while i < items.len()
            invariant
                i <= items@.len(),
                items@.no_duplicates(),
                items@.to_set() == set_items(*set),
                forall|item: (i64, i64, i64)| #[trigger]
                    set_items(*set).contains(item) ==> is_glyph_item(item),
                before == old(all)@,
                all@.len() == before.len() + i,
                forall|j: int| 0 <= j < before.len() ==> all@[j] == before[j],
                forall|j: int|
                    before.len() <= j < all@.len() ==> (#[trigger] all@[j]).font_key == font_key
                        && glyph_item(
                        Glyph {
                            size: all@[j].size,
                            blur_radius: all@[j].blur_radius,
                            index: all@[j].index,
                        },
                    ) == items@[j - before.len()],
            decreases items@.len() - i,
        {
            assert(items@.contains(items@[i as int]));
            assert(items@.to_set().contains(items@[i as int]));
            let glyph = glyph_of(items[i]);
            all.push(
                GlyphKey {
                    font_key,
                    size: glyph.size,
                    blur_radius: glyph.blur_radius,
                    index: glyph.index,
                },
            );
            i = i + 1;
        }
        proof {
            let n = before.len() as int;
            assert forall|j: int, k: int| 0 <= j < all@.len() && 0 <= k < all@.len() && j != k implies
            all@[j] != all@[k] by {
                if j >= n && k >= n {
                    assert(items@[j - n] != items@[k - n]);
                } else if j < n && k < n {
                    assert(before[j] != before[k]);
                } else if j < n {
                    assert(before[j].font_key != font_key);
                    assert(all@[k].font_key == font_key);
                } else {
                    assert(before[k].font_key != font_key);
                    assert(all@[j].font_key == font_key);
                }
            }
            assert forall|key: GlyphKey| #[trigger]
                all@.to_set().contains(key) == (before.to_set() + glyphs_of(
                    font_key,
                    *set,
                )).contains(key) by {
                if all@.contains(key) {
                    let j = all@.index_of(key);
                    if j < n {
                        assert(before.contains(before[j]));
                    } else {
                        assert(items@.contains(items@[j - n]));
                        assert(items@.to_set().contains(items@[j - n]));
                    }
                }
                if before.contains(key) {
                    assert(all@[before.index_of(key)] == key);
                }
                if glyphs_of(font_key, *set).contains(key) {
                    let item = glyph_item(
                        Glyph { size: key.size, blur_radius: key.blur_radius, index: key.index },
                    );
                    assert(items@.to_set().contains(item));
                    let j = items@.index_of(item);
                    assert(all@[n + j].font_key == font_key);
                    assert(all@[n + j] == key);
                }
            }
            assert(all@.to_set() =~= before.to_set() + glyphs_of(font_key, *set));
        }
    }

    /// The glyphs that are needed, each once, those of a font together. The order of the
    /// glyphs of a font is left open.
    pub fn for_each_glyph(&self) -> (r: Vec<GlyphKey>)
        requires
            self.wf(),
        ensures
            r@.no_duplicates(),
            r@.to_set() == self@.glyphs,
    {
        let mut r: Vec<GlyphKey> = Vec::new();
        let total: usize = self.required_glyphs.keys.len();
        let ghost fonts = self.required_glyphs.keys@;
        let mut i: usize = 0;
        while i < total
            invariant
                i <= total,
                total == fonts.len(),
                fonts == self.required_glyphs.keys@,
                self.wf(),
                r@.no_duplicates(),
                forall|key: GlyphKey| #[trigger]
                    r@.to_set().contains(key) == (self@.glyphs.contains(key) && fonts.take(
                        i as int,
                    ).contains(key.font_key)),
            decreases total - i,
        {
            let font_key = self.required_glyphs.keys[i];
            let ghost before = r@;
            proof {
                assert(fonts.contains(font_key));
                assert(fonts.take(i as int + 1) =~= fonts.take(i as int).push(font_key));
                assert forall|j: int| 0 <= j < before.len() implies (
                #[trigger] before[j]).font_key != font_key by {
                    assert(before.contains(before[j]));
                    assert(before.to_set().contains(before[j]));
                    if before[j].font_key == font_key {
                        let k = fonts.take(i as int).index_of(font_key);
                        assert(fonts[k] == fonts[i as int]);
                    }
                }
            }
            match self.required_glyphs.get(&font_key) {
                Some(set) => {
                    self.add_glyphs_of(font_key, set, &mut r);
                },
                None => {},
            }
            proof {
                let earlier = fonts.take(i as int);
                assert forall|key: GlyphKey| #[trigger]
                    r@.to_set().contains(key) == (self@.glyphs.contains(key) && fonts.take(
                        i as int + 1,
                    ).contains(key.font_key)) by {
                    assert(before.to_set().contains(key) == (self@.glyphs.contains(key)
                        && earlier.contains(key.font_key)));
                    assert(earlier.push(font_key).contains(key.font_key) == (earlier.contains(
                        key.font_key,
                    ) || key.font_key == font_key)) by {
                        assert(earlier.push(font_key)[i as int] == font_key);
                        if earlier.contains(key.font_key) {
                            assert(earlier.push(font_key)[earlier.index_of(key.font_key)]
                                == key.font_key);
                        }
                    }
                }
            }
            i = i + 1;
        }
        proof {
            assert(fonts.take(i as int) =~= fonts);
            assert(r@.to_set() =~= self@.glyphs);
        }
        r
    }

    /// What has to be rasterized, each once. Their order is left open.
    pub fn for_each_raster(&self) -> (r: Vec<(i64, i64, i64)>)
        ensures
            r@.no_duplicates(),
            r@.to_set() == set_items(self.required_rasters),
    {
        self.required_rasters.items()
    }
}

} // verus!
