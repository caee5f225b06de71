//! The textures that are read, and where they come from.

use crate::internal_types::ImageFormat;
use crate::renderer::cache_texture::{
    grown, patched, update_ok, CacheTexture, CacheView, GpuBlockData, GpuCacheAddress,
    GpuCacheUpdate,
};
use vstd::prelude::*;

verus! {

/// A texture of the device.
#[derive(Clone, Copy, Debug, PartialEq, Eq, Structural)]
pub struct TextureId(pub u32);

/// The kind of a texture of the device.
#[derive(Clone, Copy, Debug, PartialEq, Eq, Structural)]
pub enum TextureTarget {
    Default,
    Array,
    Rect,
    External,
}

/// A texture that the embedder owns.
#[derive(Clone, Copy, Debug, PartialEq, Eq, Structural)]
pub struct ExternalTexture {
    pub id: u32,
    pub target: TextureTarget,
}

/// One channel of an image that the embedder owns.
#[derive(Clone, Copy, Debug, PartialEq, Eq, Structural)]
pub struct ExternalImageKey {
    pub id: u64,
    pub channel_index: u8,
}

/// What a draw call reads.
#[derive(Clone, Copy, Debug, PartialEq, Eq, Structural)]
pub enum SourceTexture {
    Invalid,
    /// The alpha targets of the pass before.
    CacheA8,
    /// The color targets of the pass before.
    CacheRGBA8,
    External(ExternalImageKey),
    /// A texture of the texture cache.
    TextureCache(usize),
}

/// What a sampler is bound to.
#[derive(Clone, Copy, Debug, PartialEq, Eq, Structural)]
pub enum Binding {
    /// The sampler is left alone.
    Unchanged,
    Texture(TextureId),
    External(ExternalTexture),
}

/// Knows the textures of the device that stand behind what is read.
pub struct SourceTextureResolver {
    /// By place in the texture cache.
    pub cache_texture_map: Vec<TextureId>,
    pub external_images: Vec<(ExternalImageKey, ExternalTexture)>,
    /// Read in place of the targets of the pass before, where there are none.
    pub dummy_cache_texture: TextureId,
    pub cache_rgba8_texture: Option<TextureId>,
    pub cache_a8_texture: Option<TextureId>,
}

/// The resolver as a mathematical value.
#[verifier::ext_equal]
pub struct ResolverView {
    pub cache_texture_map: Seq<TextureId>,
    pub external_images: Seq<(ExternalImageKey, ExternalTexture)>,
    pub dummy_cache_texture: TextureId,
    pub cache_rgba8_texture: Option<TextureId>,
    pub cache_a8_texture: Option<TextureId>,
}

/// The place of an image, or the number of images where it is not there.
pub open spec fn image_place(
    images: Seq<(ExternalImageKey, ExternalTexture)>,
    key: ExternalImageKey,
) -> int
    decreases images.len(),
{
    if images.len() == 0 {
        0
    } else {
        let place = image_place(images.drop_last(), key);
        if place < images.len() - 1 || images.last().0 == key {
            place
        } else {
            images.len() as int
        }
    }
}

/// The place of an image is that of the first entry with its key, or the end.
pub proof fn lemma_image_place(
    images: Seq<(ExternalImageKey, ExternalTexture)>,
    key: ExternalImageKey,
)
    ensures
        0 <= image_place(images, key) <= images.len(),
        image_place(images, key) < images.len() ==> images[image_place(images, key)].0 == key,
        forall|i: int| 0 <= i < image_place(images, key) ==> (#[trigger] images[i]).0 != key,
    decreases images.len(),
{
    if images.len() > 0 {
        let before = images.drop_last();
        lemma_image_place(before, key);
        let place = image_place(before, key);
        assert forall|i: int| 0 <= i < image_place(images, key) implies (
        #[trigger] images[i]).0 != key by {
            if i < images.len() - 1 {
                assert(images[i] == before[i]);
            }
        }
        if place < images.len() - 1 {
            assert(images[place] == before[place]);
        }
    }
}

/// The texture of an image.
pub open spec fn image_texture(
    images: Seq<(ExternalImageKey, ExternalTexture)>,
    key: ExternalImageKey,
) -> Option<ExternalTexture> {
    let place = image_place(images, key);
    if place < images.len() {
        Some(images[place].1)
    } else {
        None
    }
}

/// The images with one more, or with another texture for one that was there.
pub open spec fn with_image(
    images: Seq<(ExternalImageKey, ExternalTexture)>,
    key: ExternalImageKey,
    texture: ExternalTexture,
) -> Seq<(ExternalImageKey, ExternalTexture)> {
    let place = image_place(images, key);
    if place < images.len() {
        images.update(place, (key, texture))
    } else {
        images.push((key, texture))
    }
}

/// The texture that an image was given is the one that is found, and the textures of all
/// other images stay.
pub proof fn image_is_found_again(
    images: Seq<(ExternalImageKey, ExternalTexture)>,
    key: ExternalImageKey,
    texture: ExternalTexture,
    other: ExternalImageKey,
)
    ensures
        image_texture(with_image(images, key, texture), key) == Some(texture),
        other != key ==> image_texture(with_image(images, key, texture), other) == image_texture(
            images,
            other,
        ),
{
    let after = with_image(images, key, texture);
    lemma_image_place(images, key);
    lemma_image_place(images, other);
    lemma_image_place(after, key);
    lemma_image_place(after, other);
    let p = image_place(images, key);
    assert(after[p].0 == key);
    let r = image_place(after, key);
    if r < p {
        assert(images[r].0 == key);
    }
    if other != key {
        let q = image_place(images, other);
        let s = image_place(after, other);
        if q < images.len() {
            assert(after[q].0 == other);
            if s < q {
                assert(images[s].0 == other);
            }
        } else if s < after.len() {
            if s < images.len() {
                assert(images[s].0 == other);
            }
        }
    }
}

/// A list with what there is of an optional value at its end.
pub open spec fn with_optional(list: Seq<TextureId>, texture: Option<TextureId>) -> Seq<TextureId> {
    match texture {
        Some(t) => list.push(t),
        None => list,
    }
}

pub fn push_optional(list: &mut Vec<TextureId>, texture: Option<TextureId>)
    ensures
        final(list)@ == with_optional(old(list)@, texture),
{
    if let Some(t) = texture {
        list.push(t);
    }
}

pub open spec fn dummy_or(texture: Option<TextureId>, dummy: TextureId) -> TextureId {
    match texture {
        Some(t) => t,
        None => dummy,
    }
}

impl SourceTextureResolver {
    pub open spec fn view(self) -> ResolverView {
        ResolverView {
            cache_texture_map: self.cache_texture_map@,
            external_images: self.external_images@,
            dummy_cache_texture: self.dummy_cache_texture,
            cache_rgba8_texture: self.cache_rgba8_texture,
            cache_a8_texture: self.cache_a8_texture,
        }
    }

    /// A resolver that knows only a texture of one pixel.
    pub fn new(dummy_cache_texture: TextureId) -> (r: Self)
        ensures
            r@ == (ResolverView {
                cache_texture_map: Seq::empty(),
                external_images: Seq::empty(),
                dummy_cache_texture,
                cache_rgba8_texture: None,
                cache_a8_texture: None,
            }),
    {
        SourceTextureResolver {
            cache_texture_map: Vec::new(),
            external_images: Vec::new(),
            dummy_cache_texture,
            cache_a8_texture: None,
            cache_rgba8_texture: None,
        }
    }

    /// The textures that are to be deleted with the resolver.
    pub fn deinit(self) -> (r: Vec<TextureId>)
        ensures
            r@ == seq![self.dummy_cache_texture] + self.cache_texture_map@,
    {
        let mut r: Vec<TextureId> = Vec::new();
        r.push(self.dummy_cache_texture);
        let mut textures = self.cache_texture_map;
        r.append(&mut textures);
        assert(r@ =~= seq![self.dummy_cache_texture] + self.cache_texture_map@);
        r
    }

    /// Ends a pass: the targets of the pass before go back to the pools, and those of
    /// this pass are kept for the next one, or go back too after the last pass.
    pub fn end_pass(
        &mut self,
        pass_index: usize,
        pass_count: usize,
        a8_texture: Option<TextureId>,
        rgba8_texture: Option<TextureId>,
        a8_pool: &mut Vec<TextureId>,
        rgba8_pool: &mut Vec<TextureId>,
    )
        requires
            pass_count > 0,
        ensures
            ({
                let last = pass_index == pass_count - 1;
                let a8 = pass_ended(
                    old(a8_pool)@,
                    old(self).cache_a8_texture,
                    a8_texture,
                    last,
                );
                let rgba8 = pass_ended(
                    old(rgba8_pool)@,
                    old(self).cache_rgba8_texture,
                    rgba8_texture,
                    last,
                );
                &&& final(a8_pool)@ == a8.0
                &&& final(rgba8_pool)@ == rgba8.0
                &&& *final(self) == (SourceTextureResolver {
                    cache_a8_texture: a8.1,
                    cache_rgba8_texture: rgba8.1,
                    ..*old(self)
                })
            }),
    {
        push_optional(rgba8_pool, self.cache_rgba8_texture);
        push_optional(a8_pool, self.cache_a8_texture);
        if pass_index == pass_count - 1 {
            self.cache_rgba8_texture = None;
            self.cache_a8_texture = None;
            push_optional(rgba8_pool, rgba8_texture);
            push_optional(a8_pool, a8_texture);
        } else {
            self.cache_rgba8_texture = rgba8_texture;
            self.cache_a8_texture = a8_texture;
        }
    }

    /// The texture can be bound: it is in the cache, or the image was resolved.
    pub open spec fn can_bind(self, source: SourceTexture) -> bool {
        match source {
            SourceTexture::External(key) => image_texture(self.external_images@, key) is Some,
            SourceTexture::TextureCache(index) => index < self.cache_texture_map@.len(),
            _ => true,
        }
    }

    pub open spec fn spec_bind(self, source: SourceTexture) -> Binding {
        match source {
            SourceTexture::Invalid => Binding::Unchanged,
            SourceTexture::CacheA8 => Binding::Texture(
                dummy_or(self.cache_a8_texture, self.dummy_cache_texture),
            ),
            SourceTexture::CacheRGBA8 => Binding::Texture(
                dummy_or(self.cache_rgba8_texture, self.dummy_cache_texture),
            ),
            SourceTexture::External(key) => Binding::External(
                image_texture(self.external_images@, key)->0,
            ),
            SourceTexture::TextureCache(index) => Binding::Texture(
                self.cache_texture_map@[index as int],
            ),
        }
    }

    /// What a sampler is bound to that reads a source.
    pub fn bind(&self, texture_id: &SourceTexture) -> (r: Binding)
        requires
            self.can_bind(*texture_id),
        ensures
            r == self.spec_bind(*texture_id),
    {
        match *texture_id {
            SourceTexture::Invalid => Binding::Unchanged,
            SourceTexture::CacheA8 => Binding::Texture(
                match self.cache_a8_texture {
                    Some(texture) => texture,
                    None => self.dummy_cache_texture,
                },
            ),
            SourceTexture::CacheRGBA8 => Binding::Texture(
                match self.cache_rgba8_texture {
                    Some(texture) => texture,
                    None => self.dummy_cache_texture,
                },
            ),
            SourceTexture::External(key) => {
                let place = self.find_image(key);
                Binding::External(self.external_images[place].1)
            },
            SourceTexture::TextureCache(index) => Binding::Texture(self.cache_texture_map[index]),
        }
    }

    /// The texture of the device behind a source. Images of the embedder can only be
    /// bound.
    pub fn resolve(&self, texture_id: &SourceTexture) -> (r: Option<TextureId>)
        requires
            self.can_bind(*texture_id),
            !(*texture_id is External),
        ensures
            r == (match self.spec_bind(*texture_id) {
                Binding::Texture(texture) => Some(texture),
                _ => None,
            }),
    {
        match self.bind(texture_id) {
            Binding::Texture(texture) => Some(texture),
            _ => None,
        }
    }

    fn find_image(&self, key: ExternalImageKey) -> (r: usize)
        ensures
            r == image_place(self.external_images@, key),
    {
        proof {
            lemma_image_place(self.external_images@, key);
        }
        let mut i: usize = 0;
        while i < self.external_images.len()
            invariant
                i <= image_place(self.external_images@, key) <= self.external_images@.len(),
                image_place(self.external_images@, key) < self.external_images@.len()
                    ==> self.external_images@[image_place(self.external_images@, key)].0 == key,
                forall|j: int|
                    0 <= j < image_place(self.external_images@, key) ==> (
                    #[trigger] self.external_images@[j]).0 != key,
            decreases self.external_images@.len() - i,
        {
            if self.external_images[i].0 == key {
                return i;
            }
            i = i + 1;
        }
        i
    }

    /// Notes the texture of an image.
    pub fn insert_image(&mut self, key: ExternalImageKey, texture: ExternalTexture)
        ensures
            final(self)@ == (ResolverView {
                external_images: with_image(old(self)@.external_images, key, texture),
                ..old(self)@
            }),
    {
        let place = self.find_image(key);
        if place < self.external_images.len() {
            self.external_images.set(place, (key, texture));
        } else {
            self.external_images.push((key, texture));
        }
    }

    /// Forgets the images of the embedder, which are to be unlocked.
    pub fn unlock_external_images(&mut self) -> (r: Vec<ExternalImageKey>)
        ensures
            r@ == old(self).external_images@.map_values(
                |i: (ExternalImageKey, ExternalTexture)| i.0,
            ),
            final(self)@ == (ResolverView { external_images: Seq::empty(), ..old(self)@ }),
    {
        let mut r: Vec<ExternalImageKey> = Vec::new();
        let mut i: usize = 0;
        while i < self.external_images.len()
            invariant
                i <= self.external_images@.len(),
                *self == *old(self),
                r@ == self.external_images@.take(i as int).map_values(
                    |i: (ExternalImageKey, ExternalTexture)| i.0,
                ),
            decreases self.external_images@.len() - i,
        {
            r.push(self.external_images[i].0);
            i = i + 1;
            assert(r@ =~= self.external_images@.take(i as int).map_values(
                |i: (ExternalImageKey, ExternalTexture)| i.0,
            ));
        }
        assert(self.external_images@.take(i as int) =~= self.external_images@);
        self.external_images = Vec::new();
        r
    }
}

/// A pool and a kept texture after a pass.
pub open spec fn pass_ended(
    pool: Seq<TextureId>,
    kept: Option<TextureId>,
    texture: Option<TextureId>,
    last: bool,
) -> (Seq<TextureId>, Option<TextureId>) {
    if last {
        (with_optional(with_optional(pool, kept), texture), None)
    } else {
        (with_optional(pool, kept), texture)
    }
}

/// How often a texture is there.
pub open spec fn times(pool: Seq<TextureId>, kept: Option<TextureId>, texture: TextureId) -> nat {
    pool.to_multiset().count(texture) + (if kept == Some(texture) {
        1nat
    } else {
        0nat
    })
}

/// Ending a pass neither loses nor duplicates a texture, and after the last pass all of
/// them are in the pool.
pub proof fn end_pass_keeps_textures(
    pool: Seq<TextureId>,
    kept: Option<TextureId>,
    texture: Option<TextureId>,
    last: bool,
    any: TextureId,
)
    ensures
        ({
            let after = pass_ended(pool, kept, texture, last);
            &&& times(after.0, after.1, any) == times(pool, kept, any) + (if texture == Some(any) {
                1nat
            } else {
                0nat
            })
            &&& last ==> after.1 is None
        }),
{
    broadcast use vstd::seq_lib::group_to_multiset_ensures;

}

/// What the embedder hands over for an image.
#[derive(Clone, Copy, Debug, PartialEq, Eq, Structural)]
pub enum ExternalReply {
    /// Pixels, of which there are so many bytes.
    RawData { len: usize },
    NativeTexture { id: u32 },
    Invalid,
}

/// How the embedder holds an image.
#[derive(Clone, Copy, Debug, PartialEq, Eq, Structural)]
pub enum ExternalImageType {
    Texture2DHandle,
    Texture2DArrayHandle,
    TextureRectHandle,
    TextureExternalHandle,
    ExternalBuffer,
}

pub open spec fn texture_target(image_type: ExternalImageType) -> TextureTarget {
    match image_type {
        ExternalImageType::Texture2DHandle => TextureTarget::Default,
        ExternalImageType::Texture2DArrayHandle => TextureTarget::Array,
        ExternalImageType::TextureRectHandle => TextureTarget::Rect,
        ExternalImageType::TextureExternalHandle => TextureTarget::External,
        ExternalImageType::ExternalBuffer => TextureTarget::Default,
    }
}

/// An image of the embedder that a frame reads, with what the embedder answered.
#[derive(Clone, Copy, Debug, PartialEq, Eq)]
pub struct DeferredResolve {
    pub key: ExternalImageKey,
    pub image_type: ExternalImageType,
    pub address: GpuCacheAddress,
    pub reply: ExternalReply,
    /// The part of the texture that the image takes.
    pub uv: GpuBlockData,
}

/// The image is a texture, not pixels.
pub open spec fn resolve_ok(resolve: DeferredResolve) -> bool {
    !(resolve.image_type is ExternalBuffer) && !(resolve.reply is RawData)
}

/// The texture of an image; the texture zero where the embedder has none.
pub open spec fn resolved_texture(resolve: DeferredResolve) -> ExternalTexture {
    ExternalTexture {
        id: match resolve.reply {
            ExternalReply::NativeTexture { id } => id,
            _ => 0,
        },
        target: texture_target(resolve.image_type),
    }
}

pub open spec fn resolve_update(resolve: DeferredResolve) -> GpuCacheUpdate {
    GpuCacheUpdate { block_index: 0, block_count: 1, address: resolve.address }
}

pub open spec fn resolve_blocks(resolve: DeferredResolve) -> Seq<GpuBlockData> {
    seq![resolve.uv, GpuBlockData::spec_empty()]
}

/// The resolver and the cache after several images.
pub open spec fn all_resolved(
    images: Seq<(ExternalImageKey, ExternalTexture)>,
    cache: CacheView,
    resolves: Seq<DeferredResolve>,
) -> (Seq<(ExternalImageKey, ExternalTexture)>, CacheView)
    decreases resolves.len(),
{
    if resolves.len() == 0 {
        (images, cache)
    } else {
        let (i, c) = all_resolved(images, cache, resolves.drop_last());
        let resolve = resolves.last();
        (
            with_image(i, resolve.key, resolved_texture(resolve)),
            patched(c, resolve_update(resolve), resolve_blocks(resolve)),
        )
    }
}

/// Notes the textures of the images of a frame, and writes into the cache which part of
/// them is read.
pub fn update_deferred_resolves(
    resolver: &mut SourceTextureResolver,
    cache: &mut CacheTexture,
    resolves: &Vec<DeferredResolve>,
)
    requires
        old(cache).wf(),
        forall|i: int|
            0 <= i < resolves@.len() ==> resolve_ok(#[trigger] resolves@[i])
                && resolves@[i].address.u < 1024,
    ensures
        final(cache).wf(),
        ({
            let after = all_resolved(old(resolver)@.external_images, old(cache)@, resolves@);
            &&& final(resolver)@ == (ResolverView { external_images: after.0, ..old(resolver)@ })
            &&& final(cache)@ == after.1
        }),
{
    let mut i: usize = 0;
    assert(resolves@.take(0) =~= Seq::<DeferredResolve>::empty());
    while i < resolves.len()
        invariant
            i <= resolves@.len(),
            cache.wf(),
            forall|i: int|
                0 <= i < resolves@.len() ==> resolve_ok(#[trigger] resolves@[i])
                    && resolves@[i].address.u < 1024,
            resolver@ == (ResolverView {
                external_images: all_resolved(
                    old(resolver)@.external_images,
                    old(cache)@,
                    resolves@.take(i as int),
                ).0,
                ..old(resolver)@
            }),
            cache@ == all_resolved(
                old(resolver)@.external_images,
                old(cache)@,
                resolves@.take(i as int),
            ).1,
        decreases resolves@.len() - i,
    {
        let ghost next = resolves@.take(i as int + 1);
        assert(next.drop_last() =~= resolves@.take(i as int));
        let resolve = resolves[i];
        assert(resolve_ok(resolve));
        let target = match resolve.image_type {
            ExternalImageType::Texture2DHandle => TextureTarget::Default,
            ExternalImageType::Texture2DArrayHandle => TextureTarget::Array,
            ExternalImageType::TextureRectHandle => TextureTarget::Rect,
            ExternalImageType::TextureExternalHandle => TextureTarget::External,
            ExternalImageType::ExternalBuffer => TextureTarget::Default,
        };
        let id: u32 = match resolve.reply {
            ExternalReply::NativeTexture { id } => id,
            _ => 0,
        };
        resolver.insert_image(resolve.key, ExternalTexture { id, target });
        let update = GpuCacheUpdate { block_index: 0, block_count: 1, address: resolve.address };
        let mut blocks: Vec<GpuBlockData> = Vec::new();
        blocks.push(resolve.uv);
        blocks.push(GpuBlockData::empty());
        assert(blocks@ =~= resolve_blocks(resolve));
        assert(update_ok(cache@, update, blocks@)) by {
            let v = update.address.v as int;
            assert(grown(cache@, v + 1).blocks.len() >= 1024 * (v + 1));
        }
        cache.apply_patch(&update, &blocks);
        i = i + 1;
    }
    assert(resolves@.take(i as int) =~= resolves@);
}

/// How a texture is read between its texels.
#[derive(Clone, Copy, Debug, PartialEq, Eq, Structural)]
pub enum TextureFilter {
    Nearest,
    Linear,
}

/// A rectangle of a texture.
#[derive(Clone, Copy, Debug, PartialEq, Eq, Structural)]
pub struct DeviceUintRect {
    pub x: u32,
    pub y: u32,
    pub width: u32,
    pub height: u32,
}

/// Where new pixels come from.
#[derive(Clone, Copy, Debug, PartialEq, Eq, Structural)]
pub enum TextureUpdateSource {
    /// A buffer of the frame, with its length.
    Bytes { buffer: u64, len: usize },
    External(ExternalImageKey),
}

/// What the texture cache asks of one of its textures.
#[derive(Clone, Copy, Debug, PartialEq, Eq, Structural)]
pub enum TextureUpdateOp {
    Create {
        width: u32,
        height: u32,
        format: ImageFormat,
        filter: TextureFilter,
        is_target: bool,
        layer_count: i32,
    },
    Update {
        rect: DeviceUintRect,
        stride: Option<u32>,
        offset: u32,
        layer_index: i32,
        source: TextureUpdateSource,
    },
    Free,
}

/// A request of the texture cache.
#[derive(Clone, Copy, Debug, PartialEq, Eq, Structural)]
pub struct TextureUpdate {
    pub id: usize,
    pub op: TextureUpdateOp,
}

/// What is asked of the device for a texture of the texture cache.
#[derive(Clone, Copy, Debug, PartialEq, Eq, Structural)]
pub enum TextureCommand {
    /// A new texture, whose place is that after the last one.
    Create { index: usize },
    Init { index: usize, op: TextureUpdateOp },
    BindBuffer,
    /// Hands the bytes from the offset on to the bound buffer.
    FillBuffer { buffer: u64, offset: u32 },
    /// Locks an image, hands its pixels to the bound buffer, and unlocks it.
    FillFromImage { key: ExternalImageKey, offset: u32, stride: Option<u32>, rect: DeviceUintRect },
    /// Copies the bound buffer to a part of a layer.
    CopyToTexture { index: usize, rect: DeviceUintRect, layer_index: i32, stride: Option<u32> },
    UnbindBuffer,
    FreeStorage { index: usize },
}

pub open spec fn fill_command(
    source: TextureUpdateSource,
    offset: u32,
    stride: Option<u32>,
    rect: DeviceUintRect,
) -> TextureCommand {
    match source {
        TextureUpdateSource::Bytes { buffer, .. } => TextureCommand::FillBuffer { buffer, offset },
        TextureUpdateSource::External(key) => TextureCommand::FillFromImage {
            key,
            offset,
            stride,
            rect,
        },
    }
}

/// What the device is told for one request, when the cache has so many textures.
pub open spec fn update_commands(update: TextureUpdate, count: int) -> Seq<TextureCommand> {
    match update.op {
        TextureUpdateOp::Create { .. } => if update.id == count {
            seq![
                TextureCommand::Create { index: update.id },
                TextureCommand::Init { index: update.id, op: update.op },
            ]
        } else {
            seq![TextureCommand::Init { index: update.id, op: update.op }]
        },
        TextureUpdateOp::Update { rect, stride, offset, layer_index, source } => seq![
            TextureCommand::BindBuffer,
            fill_command(source, offset, stride, rect),
            TextureCommand::CopyToTexture { index: update.id, rect, layer_index, stride },
            TextureCommand::UnbindBuffer,
        ],
        TextureUpdateOp::Free => seq![TextureCommand::FreeStorage { index: update.id }],
    }
}

/// How many textures the cache has after a request.
pub open spec fn count_after(update: TextureUpdate, count: int) -> int {
    if update.op is Create && update.id == count {
        count + 1
    } else {
        count
    }
}

/// The request speaks of a texture that there is, or of the next one, and of bytes that
/// there are.
pub open spec fn texture_update_ok(update: TextureUpdate, count: int) -> bool {
    match update.op {
        TextureUpdateOp::Create { .. } => update.id <= count,
        TextureUpdateOp::Update { source, offset, .. } => update.id < count && match source {
            TextureUpdateSource::Bytes { len, .. } => offset <= len,
            TextureUpdateSource::External(_) => true,
        },
        TextureUpdateOp::Free => update.id < count,
    }
}

pub open spec fn counts_after(updates: Seq<TextureUpdate>, count: int) -> int
    decreases updates.len(),
{
    if updates.len() == 0 {
        count
    } else {
        count_after(updates.last(), counts_after(updates.drop_last(), count))
    }
}

pub open spec fn all_commands(updates: Seq<TextureUpdate>, count: int) -> Seq<TextureCommand>
    decreases updates.len(),
{
    if updates.len() == 0 {
        Seq::empty()
    } else {
        all_commands(updates.drop_last(), count) + update_commands(
            updates.last(),
            counts_after(updates.drop_last(), count),
        )
    }
}

pub open spec fn texture_updates_ok(updates: Seq<TextureUpdate>, count: int) -> bool {
    forall|i: int|
        0 <= i < updates.len() ==> #[trigger] texture_update_ok(
            updates[i],
            counts_after(updates.take(i), count),
        )
}

/// Turns the requests of the texture cache into commands, and counts its textures.
pub fn update_texture_cache(texture_count: &mut usize, updates: &Vec<TextureUpdate>) -> (r: Vec<
    TextureCommand,
>)
    requires
        texture_updates_ok(updates@, *old(texture_count) as int),
        *old(texture_count) + updates@.len() <= usize::MAX,
    ensures
        r@ == all_commands(updates@, *old(texture_count) as int),
        *final(texture_count) == counts_after(updates@, *old(texture_count) as int),
{
    let ghost start = *texture_count as int;
    let mut r: Vec<TextureCommand> = Vec::new();
    let mut i: usize = 0;
    assert(updates@.take(0) =~= Seq::<TextureUpdate>::empty());
    while i < updates.len()
        invariant
            i <= updates@.len(),
            start == *old(texture_count),
            texture_updates_ok(updates@, start),
            *texture_count == counts_after(updates@.take(i as int), start),
            *texture_count <= start + i,
            start + updates@.len() <= usize::MAX,
            r@ == all_commands(updates@.take(i as int), start),
        decreases updates@.len() - i,
    {
        let ghost next = updates@.take(i as int + 1);
        assert(next.drop_last() =~= updates@.take(i as int));
        assert(texture_update_ok(updates@[i as int], counts_after(updates@.take(i as int), start)));
        let ghost before = r@;
        let ghost count = *texture_count as int;
        let update = updates[i];
        match update.op {
            TextureUpdateOp::Create { .. } => {
                if update.id == *texture_count {
                    r.push(TextureCommand::Create { index: update.id });
                    *texture_count = *texture_count + 1;
                }
                r.push(TextureCommand::Init { index: update.id, op: update.op });
            },
            TextureUpdateOp::Update { rect, stride, offset, layer_index, source } => {
                r.push(TextureCommand::BindBuffer);
                match source {
                    TextureUpdateSource::Bytes { buffer, .. } => {
                        r.push(TextureCommand::FillBuffer { buffer, offset });
                    },
                    TextureUpdateSource::External(key) => {
                        r.push(TextureCommand::FillFromImage { key, offset, stride, rect });
                    },
                }
                r.push(
                    TextureCommand::CopyToTexture { index: update.id, rect, layer_index, stride },
                );
                r.push(TextureCommand::UnbindBuffer);
            },
            TextureUpdateOp::Free => {
                r.push(TextureCommand::FreeStorage { index: update.id });
            },
        }
        assert(r@ =~= before + update_commands(update, count));
        i = i + 1;
    }
    assert(updates@.take(i as int) =~= updates@);
    r
}

/// What is handed to a buffer for an image of the embedder.
#[derive(Clone, Copy, Debug, PartialEq, Eq, Structural)]
pub enum ImagePixels {
    /// The pixels, from the offset on.
    Data { offset: u32 },
    /// So many bytes of opaque white, where the embedder has no image.
    White { size: u32 },
}

/// The number of bytes of a part of an image.
pub open spec fn dummy_size(rect: DeviceUintRect, stride: Option<u32>, bytes_per_pixel: u32) -> int {
    match stride {
        Some(stride) => stride * rect.height,
        None => rect.width * bytes_per_pixel * rect.height,
    }
}

/// The embedder answered with pixels or with nothing, and the bytes can be counted.
pub open spec fn pixels_ok(
    reply: ExternalReply,
    rect: DeviceUintRect,
    stride: Option<u32>,
    offset: u32,
    bytes_per_pixel: u32,
) -> bool {
    match reply {
        ExternalReply::RawData { len } => offset <= len,
        ExternalReply::Invalid => {
            &&& dummy_size(rect, stride, bytes_per_pixel) <= u32::MAX
            &&& stride is None ==> rect.width * bytes_per_pixel <= u32::MAX
        },
        ExternalReply::NativeTexture { .. } => false,
    }
}

/// What is copied for an image, by what the embedder answered.
pub fn external_pixels(
    reply: ExternalReply,
    rect: DeviceUintRect,
    stride: Option<u32>,
    offset: u32,
    bytes_per_pixel: u32,
) -> (r: ImagePixels)
    requires
        pixels_ok(reply, rect, stride, offset, bytes_per_pixel),
    ensures
        r == (match reply {
            ExternalReply::RawData { .. } => ImagePixels::Data { offset },
            _ => ImagePixels::White { size: dummy_size(rect, stride, bytes_per_pixel) as u32 },
        }),
{
    match reply {
        ExternalReply::RawData { .. } => ImagePixels::Data { offset },
        _ => {
            let width: u32 = match stride {
                Some(stride) => stride,
                None => rect.width * bytes_per_pixel,
            };
            ImagePixels::White { size: width * rect.height }
        },
    }
}

/// Every texture of the cache that is spoken of was created before, by these requests or
/// by earlier ones, and textures are created one after the other.
pub proof fn texture_cache_only_grows(updates: Seq<TextureUpdate>, count: int, i: int)
    requires
        0 <= i < updates.len(),
        texture_updates_ok(updates, count),
    ensures
        count <= counts_after(updates.take(i), count) <= count + i,
        updates[i].id < counts_after(updates.take(i + 1), count),
    decreases i,
{
    assert(texture_update_ok(updates[i], counts_after(updates.take(i), count)));
    assert(updates.take(i + 1).drop_last() =~= updates.take(i));
    if i > 0 {
        texture_cache_only_grows(updates, count, i - 1);
        assert(updates.take(i).drop_last() =~= updates.take(i - 1));
    } else {
        assert(updates.take(0) =~= Seq::<TextureUpdate>::empty());
    }
}

/// What the device is told for a request speaks of the texture that was asked for. Pixels go
/// through a buffer that is bound before it is filled and unbound after it was copied, to
/// the rectangle and the layer of the request. Only a request for the next texture
/// makes a new one, before it is given its storage.
pub proof fn texture_requests_are_carried_out(update: TextureUpdate, count: int)
    ensures
        ({
            let c = update_commands(update, count);
            match update.op {
                TextureUpdateOp::Create { .. } => {
                    &&& c.last() == (TextureCommand::Init { index: update.id, op: update.op })
                    &&& c.len() == if update.id == count {
                        2int
                    } else {
                        1int
                    }
                    &&& update.id == count ==> c[0] == (TextureCommand::Create {
                        index: update.id,
                    }) && count_after(update, count) == count + 1
                    &&& update.id != count ==> count_after(update, count) == count
                },
                TextureUpdateOp::Update { rect, stride, offset, layer_index, source } => {
                    &&& c.len() == 4
                    &&& c[0] is BindBuffer
                    &&& c[1] matches TextureCommand::FillBuffer { buffer, offset: o } ==> o
                        == offset && (source matches TextureUpdateSource::Bytes { buffer: b, .. }
                        && b == buffer)
                    &&& c[1] matches TextureCommand::FillFromImage {
                        key,
                        offset: o,
                        stride: s,
                        rect: r,
                    } ==> source == TextureUpdateSource::External(key) && o == offset && s
                        == stride && r == rect
                    &&& c[1] is FillBuffer || c[1] is FillFromImage
                    &&& c[2] matches TextureCommand::CopyToTexture {
                        index,
                        rect: r,
                        layer_index: l,
                        stride: s,
                    } && index == update.id && r == rect && l == layer_index && s == stride
                    &&& c[3] is UnbindBuffer
                    &&& count_after(update, count) == count
                },
                TextureUpdateOp::Free => {
                    &&& c.len() == 1
                    &&& c[0] == (TextureCommand::FreeStorage { index: update.id })
                    &&& count_after(update, count) == count
                },
            }
        }),
{
}

/// A sampler that reads what the pass before has drawn is bound to the texture that was kept
/// of it, or to a dummy where nothing was kept; alpha and colors are not mixed up.
pub proof fn sources_bind_their_textures(resolver: SourceTextureResolver, index: usize)
    ensures
        resolver.cache_a8_texture matches Some(t) ==> resolver.spec_bind(SourceTexture::CacheA8)
            == Binding::Texture(t),
        resolver.cache_rgba8_texture matches Some(t) ==> resolver.spec_bind(
            SourceTexture::CacheRGBA8,
        ) == Binding::Texture(t),
        resolver.cache_a8_texture is None ==> resolver.spec_bind(SourceTexture::CacheA8)
            == Binding::Texture(resolver.dummy_cache_texture),
        resolver.cache_rgba8_texture is None ==> resolver.spec_bind(SourceTexture::CacheRGBA8)
            == Binding::Texture(resolver.dummy_cache_texture),
        resolver.spec_bind(SourceTexture::TextureCache(index)) == Binding::Texture(
            resolver.cache_texture_map@[index as int],
        ),
        resolver.spec_bind(SourceTexture::Invalid) is Unchanged,
{
}

} // verus!
