//! The shaders that put finished surfaces on the screen.

use crate::renderer::shade::loader::{
    is_available, shaders_add_up, ShaderDesc, ShaderFeatures, ShaderHandle, ShaderKind,
    ShaderLoader,
};
use crate::renderer::shade::{
    buffer_feature, get_feature, has_platform_support, DeviceCapabilities, ImageBufferKind,
    ShaderError, ShaderFeature, ShaderName, TextureExternalVersion, IMAGE_BUFFER_KINDS,
};
use vstd::prelude::*;

verus! {

/// The format of a surface.
#[derive(Clone, Copy, Debug, PartialEq, Eq, Structural)]
pub enum CompositeSurfaceFormat {
    Rgba,
    Yuv,
}

/// What a surface does without.
#[derive(Clone, Copy, Debug, PartialEq, Eq, Structural)]
pub struct CompositeFeatures {
    pub no_uv_clamp: bool,
    pub no_color_modulation: bool,
    pub no_clip_mask: bool,
}

/// The shaders that composite one kind of image buffer.
#[derive(Clone, Copy, Debug, PartialEq, Eq, Structural)]
pub enum CompositeVariant {
    YuvClip,
    YuvFast,
    Rgba,
    /// Without clamped coordinates and without a color to multiply by.
    RgbaFastPath,
}

/// The features of a variant for a kind of image buffer.
pub open spec fn composite_features(variant: CompositeVariant, buffer: ShaderFeature) -> Seq<
    ShaderFeature,
> {
    match variant {
        CompositeVariant::YuvClip => seq![ShaderFeature::Yuv, buffer],
        CompositeVariant::YuvFast => seq![ShaderFeature::Yuv, ShaderFeature::FastPath, buffer],
        CompositeVariant::Rgba => seq![buffer],
        CompositeVariant::RgbaFastPath => seq![ShaderFeature::FastPath, buffer],
    }
}

pub open spec fn composite_desc(
    variant: CompositeVariant,
    kind: ImageBufferKind,
    version: TextureExternalVersion,
) -> ShaderDesc {
    ShaderDesc {
        kind: ShaderKind::Composite,
        name: ShaderName::Composite,
        features: composite_features(variant, buffer_feature(kind, version)),
    }
}

/// The kind of image buffer can be composited. Shaders of version 1 cannot read YUV.
pub open spec fn composites(
    variant: CompositeVariant,
    kind: ImageBufferKind,
    device: DeviceCapabilities,
) -> bool {
    &&& device.supports(kind)
    &&& (variant is YuvClip || variant is YuvFast) ==> !(kind is TextureExternal
        && device.external_version() == TextureExternalVersion::ESSL1)
}

/// The shaders for one kind of image buffer, in the order in which they are made.
pub open spec fn kind_plan(kind: ImageBufferKind, device: DeviceCapabilities) -> Seq<ShaderDesc> {
    let version = device.external_version();
    let yuv = seq![
        composite_desc(CompositeVariant::YuvClip, kind, version),
        composite_desc(CompositeVariant::YuvFast, kind, version),
    ];
    let rgba = seq![
        composite_desc(CompositeVariant::Rgba, kind, version),
        composite_desc(CompositeVariant::RgbaFastPath, kind, version),
    ];
    if !device.supports(kind) {
        Seq::empty()
    } else if composites(CompositeVariant::YuvClip, kind, device) {
        yuv + rgba
    } else {
        rgba
    }
}

/// The shaders for the first `n` kinds of image buffer.
pub open spec fn composite_plan(n: int, device: DeviceCapabilities) -> Seq<ShaderDesc>
    decreases n,
{
    if n <= 0 {
        Seq::empty()
    } else {
        composite_plan(n - 1, device) + kind_plan(ImageBufferKind::spec_at(n - 1), device)
    }
}

/// The handle is there exactly where the kind can be composited, and is that of the
/// right shader.
pub open spec fn handle_fits(
    handle: Option<ShaderHandle>,
    variant: CompositeVariant,
    kind: ImageBufferKind,
    device: DeviceCapabilities,
    loader: ShaderLoader,
) -> bool {
    match handle {
        Some(h) => composites(variant, kind, device) && loader.has(
            h,
            composite_desc(variant, kind, device.external_version()),
        ),
        None => !composites(variant, kind, device),
    }
}

pub struct CompositorShaders {
    /// By kind of image buffer, as are the others.
    pub rgba: Vec<Option<ShaderHandle>>,
    /// Faster, for surfaces without clamped coordinates and without a color.
    pub rgba_fast_path: Vec<Option<ShaderHandle>>,
    pub yuv_clip: Vec<Option<ShaderHandle>>,
    pub yuv_fast: Vec<Option<ShaderHandle>>,
}

impl CompositorShaders {
    pub open spec fn list(self, variant: CompositeVariant) -> Seq<Option<ShaderHandle>> {
        match variant {
            CompositeVariant::YuvClip => self.yuv_clip@,
            CompositeVariant::YuvFast => self.yuv_fast@,
            CompositeVariant::Rgba => self.rgba@,
            CompositeVariant::RgbaFastPath => self.rgba_fast_path@,
        }
    }

    /// A list holds the right handle for a kind.
    pub open spec fn place_fits(
        self,
        variant: CompositeVariant,
        i: int,
        device: DeviceCapabilities,
        loader: ShaderLoader,
    ) -> bool {
        handle_fits(
            self.list(variant)[i],
            variant,
            ImageBufferKind::spec_at(i),
            device,
            loader,
        )
    }

    /// The lists hold the right handles for the first `n` kinds.
    pub open spec fn fits_up_to(
        self,
        n: int,
        device: DeviceCapabilities,
        loader: ShaderLoader,
    ) -> bool {
        forall|variant: CompositeVariant, i: int|
            0 <= i < n ==> #[trigger] self.place_fits(variant, i, device, loader)
    }

    pub open spec fn sized(self) -> bool {
        forall|variant: CompositeVariant|
            (#[trigger] self.list(variant)).len() == IMAGE_BUFFER_KINDS
    }

    /// Every list holds the right handle for every kind of image buffer.
    pub open spec fn fits(self, device: DeviceCapabilities, loader: ShaderLoader) -> bool {
        self.sized() && self.fits_up_to(IMAGE_BUFFER_KINDS as int, device, loader)
    }
}

/// Adds a shader that is in the list of those that there are.
pub(crate) fn add_shader(
    loader: &mut ShaderLoader,
    kind: ShaderKind,
    name: ShaderName,
    features: Vec<ShaderFeature>,
    list: &ShaderFeatures,
) -> (r: Result<ShaderHandle, ShaderError>)
    requires
        is_available((ShaderDesc { kind, name, features: features@ }), *list),
    ensures
        r matches Ok(handle) && final(loader).has(
            handle,
            (ShaderDesc { kind, name, features: features@ }),
        ),
        final(loader).adds(
            *old(loader),
            seq![(ShaderDesc { kind, name, features: features@ })],
        ),
{
    let r = loader.create_shader(kind, name, &features, list);
    proof {
        let descs = seq![(ShaderDesc { kind, name, features: features@ })];
        assert(loader.shaders@[old(loader).shaders@.len() as int].is_made_from(descs[0]));
    }
    r
}

fn add_composite(
    loader: &mut ShaderLoader,
    variant: CompositeVariant,
    kind: ImageBufferKind,
    version: TextureExternalVersion,
    list: &ShaderFeatures,
) -> (r: Result<ShaderHandle, ShaderError>)
    requires
        is_available(composite_desc(variant, kind, version), *list),
    ensures
        r matches Ok(handle) && final(loader).has(handle, composite_desc(variant, kind, version)),
        final(loader).adds(*old(loader), seq![composite_desc(variant, kind, version)]),
{
    let buffer = get_feature(kind, version);
    let features: Vec<ShaderFeature> = match variant {
        CompositeVariant::YuvClip => vec![ShaderFeature::Yuv, buffer],
        CompositeVariant::YuvFast => vec![ShaderFeature::Yuv, ShaderFeature::FastPath, buffer],
        CompositeVariant::Rgba => vec![buffer],
        CompositeVariant::RgbaFastPath => vec![ShaderFeature::FastPath, buffer],
    };
    assert(features@ =~= composite_features(variant, buffer));
    add_shader(loader, ShaderKind::Composite, ShaderName::Composite, features, list)
}

fn add_kind(
    shaders: &mut CompositorShaders,
    index: usize,
    device: &DeviceCapabilities,
    loader: &mut ShaderLoader,
    list: &ShaderFeatures,
) -> (r: Result<(), ShaderError>)
    requires
        index < IMAGE_BUFFER_KINDS,
        old(shaders).sized(),
        old(shaders).fits_up_to(index as int, *device, *old(loader)),
        forall|variant: CompositeVariant|
            (#[trigger] old(shaders).list(variant))[index as int] is None,
        forall|i: int|
            0 <= i < kind_plan(ImageBufferKind::spec_at(index as int), *device).len()
                ==> is_available(
                #[trigger] kind_plan(ImageBufferKind::spec_at(index as int), *device)[i],
                *list,
            ),
    ensures
        r is Ok,
        final(shaders).sized(),
        final(shaders).fits_up_to(index + 1, *device, *final(loader)),
        forall|variant: CompositeVariant, i: int|
            #![trigger final(shaders).list(variant)[i]]
            index < i < IMAGE_BUFFER_KINDS ==> final(shaders).list(variant)[i] == old(
                shaders,
            ).list(variant)[i],
        final(loader).adds(
            *old(loader),
            kind_plan(ImageBufferKind::spec_at(index as int), *device),
        ),
{
    let kind = ImageBufferKind::at(index);
    let ghost descs = kind_plan(kind, *device);
    if !has_platform_support(kind, device) {
        proof {
            lemma_kept(*old(shaders), *shaders, index as int, *device, *old(loader), *loader);
            assert forall|variant: CompositeVariant, i: int|
                0 <= i < index + 1 implies #[trigger] shaders.place_fits(
                variant,
                i,
                *device,
                *loader,
            ) by {
                assert(shaders.list(variant)[index as int] is None);
            }
        }
        return Ok(());
    }
    let version = device.texture_external_version();
    let mut yuv_clip: Option<ShaderHandle> = None;
    let mut yuv_fast: Option<ShaderHandle> = None;
    let ghost mut so_far = Seq::<ShaderDesc>::empty();
    if kind != ImageBufferKind::TextureExternal || version == TextureExternalVersion::ESSL3 {
        assert(is_available(descs[0], *list));
        assert(is_available(descs[1], *list));
        assert(is_available(descs[2], *list));
        assert(is_available(descs[3], *list));
        match add_composite(loader, CompositeVariant::YuvClip, kind, version, list) {
            Ok(handle) => {
                yuv_clip = Some(handle);
            },
            Err(e) => {
                return Err(e);
            },
        }
        let ghost first = *loader;
        match add_composite(loader, CompositeVariant::YuvFast, kind, version, list) {
            Ok(handle) => {
                yuv_fast = Some(handle);
            },
            Err(e) => {
                return Err(e);
            },
        }
        proof {
            shaders_add_up(*old(loader), first, *loader, seq![descs[0]], seq![descs[1]]);
            so_far = seq![descs[0]] + seq![descs[1]];
        }
    } else {
        assert(is_available(descs[0], *list));
        assert(is_available(descs[1], *list));
    }
    let ghost second = *loader;
    let rgba = match add_composite(loader, CompositeVariant::Rgba, kind, version, list) {
        Ok(handle) => handle,
        Err(e) => {
            return Err(e);
        },
    };
    let ghost third = *loader;
    let fast = match add_composite(loader, CompositeVariant::RgbaFastPath, kind, version, list) {
        Ok(handle) => handle,
        Err(e) => {
            return Err(e);
        },
    };
    proof {
        let c = composite_desc(CompositeVariant::Rgba, kind, version);
        let d = composite_desc(CompositeVariant::RgbaFastPath, kind, version);
        shaders_add_up(*old(loader), second, third, so_far, seq![c]);
        shaders_add_up(*old(loader), third, *loader, so_far + seq![c], seq![d]);
        assert(so_far + seq![c] + seq![d] =~= descs);
        assert(old(shaders).list(CompositeVariant::YuvClip).len() == IMAGE_BUFFER_KINDS);
        assert(old(shaders).list(CompositeVariant::YuvFast).len() == IMAGE_BUFFER_KINDS);
        assert(old(shaders).list(CompositeVariant::Rgba).len() == IMAGE_BUFFER_KINDS);
        assert(old(shaders).list(CompositeVariant::RgbaFastPath).len() == IMAGE_BUFFER_KINDS);
    }
    shaders.yuv_clip.set(index, yuv_clip);
    shaders.yuv_fast.set(index, yuv_fast);
    shaders.rgba.set(index, Some(rgba));
    shaders.rgba_fast_path.set(index, Some(fast));
    proof {
        lemma_kept(*old(shaders), *shaders, index as int, *device, *old(loader), *loader);
        assert forall|variant: CompositeVariant, i: int|
            0 <= i < index + 1 implies #[trigger] shaders.place_fits(
            variant,
            i,
            *device,
            *loader,
        ) by {}
    }
    Ok(())
}

/// Handles stay right where shaders are added and other places of the lists change.
proof fn lemma_kept(
    before: CompositorShaders,
    after: CompositorShaders,
    n: int,
    device: DeviceCapabilities,
    old_loader: ShaderLoader,
    loader: ShaderLoader,
)
    requires
        before.fits_up_to(n, device, old_loader),
        loader.extends(old_loader),
        forall|variant: CompositeVariant, i: int|
            #![trigger after.list(variant)[i]]
            0 <= i < n ==> after.list(variant)[i] == before.list(variant)[i],
    ensures
        after.fits_up_to(n, device, loader),
{
    assert forall|variant: CompositeVariant, i: int|
        0 <= i < n implies #[trigger] after.place_fits(variant, i, device, loader) by {
        let h = before.list(variant)[i];
        assert(before.place_fits(variant, i, device, old_loader));
        assert(after.list(variant)[i] == h);
        if let Some(handle) = h {
            assert(loader.shaders@[handle.0 as int] == old_loader.shaders@[handle.0 as int]);
        }
    }
}

fn no_handles() -> (r: Vec<Option<ShaderHandle>>)
    ensures
        r@ == Seq::new(IMAGE_BUFFER_KINDS as nat, |i: int| None::<ShaderHandle>),
{
    let r: Vec<Option<ShaderHandle>> = vec![None, None, None, None];
    assert(r@ =~= Seq::new(IMAGE_BUFFER_KINDS as nat, |i: int| None::<ShaderHandle>));
    r
}

impl CompositorShaders {
    /// Makes the shaders for every kind of image buffer that the device can read.
    pub fn new(
        device: &DeviceCapabilities,
        loader: &mut ShaderLoader,
        shader_list: &ShaderFeatures,
    ) -> (r: Result<Self, ShaderError>)
        requires
            forall|i: int|
                0 <= i < composite_plan(IMAGE_BUFFER_KINDS as int, *device).len() ==> is_available(
                    #[trigger] composite_plan(IMAGE_BUFFER_KINDS as int, *device)[i],
                    *shader_list,
                ),
        ensures
            r matches Ok(shaders) && shaders.fits(*device, *final(loader)),
            final(loader).adds(
                *old(loader),
                composite_plan(IMAGE_BUFFER_KINDS as int, *device),
            ),
    {
        let mut shaders = CompositorShaders {
            rgba: no_handles(),
            rgba_fast_path: no_handles(),
            yuv_clip: no_handles(),
            yuv_fast: no_handles(),
        };
        let mut index: usize = 0;
        while index < IMAGE_BUFFER_KINDS
            invariant
                index <= IMAGE_BUFFER_KINDS,
                shaders.sized(),
                shaders.fits_up_to(index as int, *device, *loader),
                forall|variant: CompositeVariant, i: int|
                    #![trigger shaders.list(variant)[i]]
                    index <= i < IMAGE_BUFFER_KINDS ==> shaders.list(variant)[i] is None,
                loader.adds(*old(loader), composite_plan(index as int, *device)),
                forall|i: int|
                    0 <= i < composite_plan(IMAGE_BUFFER_KINDS as int, *device).len()
                        ==> is_available(
                        #[trigger] composite_plan(IMAGE_BUFFER_KINDS as int, *device)[i],
                        *shader_list,
                    ),
            decreases IMAGE_BUFFER_KINDS - index,
        {
            let ghost done = composite_plan(index as int, *device);
            let ghost added = kind_plan(ImageBufferKind::spec_at(index as int), *device);
            proof {
                lemma_plan_prefix(index + 1, IMAGE_BUFFER_KINDS as int, *device);
                assert(composite_plan(index + 1, *device) == done + added);
                assert forall|i: int| 0 <= i < added.len() implies is_available(
                    #[trigger] added[i],
                    *shader_list,
                ) by {
                    let whole = composite_plan(IMAGE_BUFFER_KINDS as int, *device);
                    assert(composite_plan(index + 1, *device)[done.len() + i] == added[i]);
                    assert(whole[done.len() + i] == added[i]);
                    assert(is_available(whole[done.len() + i], *shader_list));
                }
                assert forall|variant: CompositeVariant|
                    (#[trigger] shaders.list(variant))[index as int] is None by {}
            }
            let ghost before = *loader;
            match add_kind(&mut shaders, index, device, loader, shader_list) {
                Ok(_) => {},
                Err(e) => {
                    return Err(e);
                },
            }
            proof {
                shaders_add_up(*old(loader), before, *loader, done, added);
            }
            index = index + 1;
        }
        Ok(shaders)
    }

    /// The list of handles that a surface is composited with.
    pub open spec fn variant_for(
        format: CompositeSurfaceFormat,
        features: CompositeFeatures,
    ) -> CompositeVariant {
        match format {
            CompositeSurfaceFormat::Rgba => if features.no_uv_clamp
                && features.no_color_modulation && features.no_clip_mask {
                CompositeVariant::RgbaFastPath
            } else {
                CompositeVariant::Rgba
            },
            CompositeSurfaceFormat::Yuv => if features.no_clip_mask {
                CompositeVariant::YuvFast
            } else {
                CompositeVariant::YuvClip
            },
        }
    }

    /// The shader for a surface, which must be one that the device can composite.
    pub fn get_handle(
        &self,
        format: CompositeSurfaceFormat,
        buffer_kind: ImageBufferKind,
        features: CompositeFeatures,
    ) -> (r: ShaderHandle)
        requires
            self.sized(),
            self.list(Self::variant_for(format, features))[buffer_kind.spec_index() as int] is Some,
        ensures
            Some(r) == self.list(Self::variant_for(format, features))[buffer_kind.spec_index() as int],
    {
        let index: usize = buffer_kind.index();
        assert(self.list(CompositeVariant::YuvClip).len() == IMAGE_BUFFER_KINDS);
        assert(self.list(CompositeVariant::YuvFast).len() == IMAGE_BUFFER_KINDS);
        assert(self.list(CompositeVariant::Rgba).len() == IMAGE_BUFFER_KINDS);
        assert(self.list(CompositeVariant::RgbaFastPath).len() == IMAGE_BUFFER_KINDS);
        let handle = match format {
            CompositeSurfaceFormat::Rgba => {
                if features.no_uv_clamp && features.no_color_modulation && features.no_clip_mask {
                    self.rgba_fast_path[index]
                } else {
                    self.rgba[index]
                }
            },
            CompositeSurfaceFormat::Yuv => {
                if features.no_clip_mask {
                    self.yuv_fast[index]
                } else {
                    self.yuv_clip[index]
                }
            },
        };
        match handle {
            Some(handle) => handle,
            None => ShaderHandle(0),
        }
    }
}

/// The plan for fewer kinds begins the plan for more.
pub proof fn lemma_plan_prefix(n: int, m: int, device: DeviceCapabilities)
    requires
        0 <= n <= m,
    ensures
        composite_plan(n, device).is_prefix_of(composite_plan(m, device)),
    decreases m,
{
    if n < m {
        lemma_plan_prefix(n, m - 1, device);
    }
}

} // verus!
