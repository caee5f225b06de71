//! Shaders that are compiled when they are first used.

use crate::float_bits::{FloatBits, ONE_BITS};
use crate::renderer::shade::{
    join_features, joined, sort_features, sorted, ShaderError, ShaderFeature, ShaderName,
};
use crate::renderer::RendererError;
use std::collections::VecDeque;
use vstd::prelude::*;

verus! {

/// The layout of the instances of a draw call.
#[derive(Clone, Copy, Debug, PartialEq, Eq, Structural)]
pub enum VertexArrayKind {
    Primitive,
    Blur,
    Border,
    Scale,
    LineDecoration,
    SvgFilterNode,
    Composite,
    Clear,
    Copy,
    Mask,
}

/// What a shader is for.
#[derive(Clone, Copy, Debug, PartialEq, Eq, Structural)]
pub enum ShaderKind {
    Primitive,
    Cache(VertexArrayKind),
    Text,
    Composite,
    Clear,
    Copy,
}

impl ShaderKind {
    pub open spec fn format(self) -> VertexArrayKind {
        match self {
            ShaderKind::Primitive => VertexArrayKind::Primitive,
            ShaderKind::Text => VertexArrayKind::Primitive,
            ShaderKind::Cache(format) => format,
            ShaderKind::Composite => VertexArrayKind::Composite,
            ShaderKind::Clear => VertexArrayKind::Clear,
            ShaderKind::Copy => VertexArrayKind::Copy,
        }
    }

    /// The layout of the instances that a shader reads.
    pub fn vertex_format(self) -> (r: VertexArrayKind)
        ensures
            r == self.format(),
    {
        match self {
            ShaderKind::Primitive | ShaderKind::Text => VertexArrayKind::Primitive,
            ShaderKind::Cache(format) => format,
            ShaderKind::Composite => VertexArrayKind::Composite,
            ShaderKind::Clear => VertexArrayKind::Clear,
            ShaderKind::Copy => VertexArrayKind::Copy,
        }
    }
}

/// How far shaders are prepared ahead of their first use.
#[derive(Clone, Copy, Debug, PartialEq, Eq, Structural)]
pub struct ShaderPrecacheFlags {
    /// The compilation is begun.
    pub async_compile: bool,
    /// The program is compiled and linked.
    pub full_compile: bool,
}

/// A program of the device.
#[derive(Clone, Copy, Debug, PartialEq, Eq, Structural)]
pub struct Program {
    pub id: u32,
    /// The program is linked.
    pub is_initialized: bool,
}

/// A projection, as the bits of its sixteen entries.
#[derive(Clone, Copy, Debug)]
pub struct Projection {
    pub m: [FloatBits; 16],
}

impl Projection {
    /// The entries are equal as numbers.
    pub open spec fn same(self, other: Self) -> bool {
        forall|i: int| 0 <= i < 16 ==> (#[trigger] self.m[i]).spec_equals(other.m[i])
    }

    pub open spec fn is_identity(self) -> bool {
        forall|i: int|
            0 <= i < 16 ==> #[trigger] self.m[i] == FloatBits(
                if i % 5 == 0 {
                    ONE_BITS
                } else {
                    0
                },
            )
    }

    pub fn identity() -> (r: Self)
        ensures
            r.is_identity(),
    {
        let o = FloatBits(ONE_BITS);
        let z = FloatBits(0);
        Projection { m: [o, z, z, z, z, o, z, z, z, z, o, z, z, z, z, o] }
    }

    pub fn equals(&self, other: &Self) -> (r: bool)
        ensures
            r == self.same(*other),
    {
        let mut i: usize = 0;
        while i < 16
            invariant
                i <= 16,
                forall|j: int| 0 <= j < i ==> (#[trigger] self.m[j]).spec_equals(other.m[j]),
            decreases 16 - i,
        {
            if !self.m[i].equals(other.m[i]) {
                return false;
            }
            i = i + 1;
        }
        true
    }
}

/// The shaders that there are, each with the features it can be compiled with.
pub struct ShaderFeatures {
    pub available: Vec<(ShaderName, String)>,
}

impl ShaderFeatures {
    pub open spec fn lists(self, name: ShaderName, config: Seq<char>) -> bool {
        exists|i: int|
            0 <= i < self.available@.len() && (#[trigger] self.available@[i]).0 == name
                && self.available@[i].1@ == config
    }
}

/// What a shader is made from. The order of the features does not matter.
pub struct ShaderDesc {
    pub kind: ShaderKind,
    pub name: ShaderName,
    pub features: Seq<ShaderFeature>,
}

/// The shader is in the list of those that there are.
pub open spec fn is_available(desc: ShaderDesc, list: ShaderFeatures) -> bool {
    list.lists(desc.name, joined(sorted(desc.features)))
}

/// A shader that is compiled when it is first used.
pub struct LazilyCompiledShader {
    pub program: Option<Program>,
    pub name: ShaderName,
    pub kind: ShaderKind,
    /// The projection that the program was given last.
    pub cached_projection: Projection,
    pub features: Vec<ShaderFeature>,
}

/// What is to be done next for a program to be ready.
#[derive(Clone, Copy, Debug, PartialEq, Eq, Structural)]
pub enum ShaderStep {
    /// Create the program from its source and its features.
    Create,
    /// Link the program for the layout, and bind its samplers.
    Link { format: VertexArrayKind },
    Ready { program: Program },
}

/// What binding a shader does.
#[derive(Clone, Copy, Debug, PartialEq, Eq, Structural)]
pub enum BindAction {
    BindProgram { program: u32 },
    SetTextureSize { program: u32, width: FloatBits, height: FloatBits },
    SetUniforms { program: u32 },
}

pub open spec fn texture_size_action(program: u32, size: Option<(FloatBits, FloatBits)>) -> Seq<
    BindAction,
> {
    match size {
        Some(s) => seq![BindAction::SetTextureSize { program, width: s.0, height: s.1 }],
        None => Seq::empty(),
    }
}

pub open spec fn uniforms_action(program: u32, changed: bool) -> Seq<BindAction> {
    if changed {
        seq![BindAction::SetUniforms { program }]
    } else {
        Seq::empty()
    }
}

impl LazilyCompiledShader {
    /// The shader is made from the description.
    pub open spec fn is_made_from(self, desc: ShaderDesc) -> bool {
        &&& self.kind == desc.kind
        &&& self.name == desc.name
        &&& self.features@ == sorted(desc.features)
    }

    /// A shader that is not compiled yet.
    pub fn new(
        kind: ShaderKind,
        name: ShaderName,
        unsorted_features: &Vec<ShaderFeature>,
        shader_list: &ShaderFeatures,
    ) -> (r: Result<Self, ShaderError>)
        requires
            is_available((ShaderDesc { kind, name, features: unsorted_features@ }), *shader_list),
        ensures
            r matches Ok(shader) && shader.is_made_from(
                (ShaderDesc { kind, name, features: unsorted_features@ }),
            ) && shader.program is None && shader.cached_projection.is_identity(),
    {
        Ok(
            LazilyCompiledShader {
                program: None,
                name,
                kind,
                cached_projection: Projection::identity(),
                features: sort_features(unsorted_features),
            },
        )
    }

    /// The features as they stand in the list of available shaders.
    pub fn config(&self) -> (r: String)
        ensures
            r@ == joined(self.features@),
    {
        join_features(&self.features)
    }

    pub open spec fn spec_next_step(self, flags: ShaderPrecacheFlags) -> ShaderStep {
        match self.program {
            None => ShaderStep::Create,
            Some(program) => if flags.full_compile && !program.is_initialized {
                ShaderStep::Link { format: self.kind.format() }
            } else {
                ShaderStep::Ready { program }
            },
        }
    }

    /// What is still to be done for the program to be as ready as the flags ask.
    pub fn get_internal(&self, precache_flags: ShaderPrecacheFlags) -> (r: ShaderStep)
        ensures
            r == self.spec_next_step(precache_flags),
    {
        match self.program {
            None => ShaderStep::Create,
            Some(program) => {
                if precache_flags.full_compile && !program.is_initialized {
                    ShaderStep::Link { format: self.kind.vertex_format() }
                } else {
                    ShaderStep::Ready { program }
                }
            },
        }
    }

    /// Takes the program that was created.
    pub fn created(&mut self, program: Result<Program, ShaderError>) -> (r: Result<
        (),
        ShaderError,
    >)
        ensures
            match program {
                Ok(p) => r is Ok && *final(self) == (LazilyCompiledShader {
                    program: Some(p),
                    ..*old(self)
                }),
                Err(e) => r == Err::<(), ShaderError>(e) && *final(self) == *old(self),
            },
    {
        match program {
            Ok(p) => {
                self.program = Some(p);
                Ok(())
            },
            Err(e) => Err(e),
        }
    }

    /// Takes the result of linking. A program that could not be linked is kept, and
    /// linked again the next time.
    pub fn linked(&mut self, result: Result<(), ShaderError>) -> (r: Result<(), ShaderError>)
        requires
            old(self).program is Some,
        ensures
            r == result,
            *final(self) == (match result {
                Ok(_) => LazilyCompiledShader {
                    program: Some(
                        Program { is_initialized: true, ..old(self).program->0 },
                    ),
                    ..*old(self)
                },
                Err(_) => *old(self),
            }),
    {
        if let Ok(_) = &result {
            if let Some(program) = self.program {
                self.program = Some(Program { is_initialized: true, ..program });
            }
        }
        result
    }

    /// Makes the program the one that draws. The projection is only handed over where
    /// it differs from the last one. A program that could not be made is reported, and
    /// nothing is bound.
    pub fn bind(
        &mut self,
        program: Result<Program, ShaderError>,
        projection: &Projection,
        texture_size: Option<(FloatBits, FloatBits)>,
        renderer_errors: &mut Vec<RendererError>,
    ) -> (r: Vec<BindAction>)
        ensures
            match program {
                Err(e) => {
                    &&& r@ == Seq::<BindAction>::empty()
                    &&& *final(self) == *old(self)
                    &&& final(renderer_errors)@ == old(renderer_errors)@.push(
                        RendererError::Shader(e),
                    )
                },
                Ok(p) => {
                    let changed = !old(self).cached_projection.same(*projection);
                    &&& r@ == seq![BindAction::BindProgram { program: p.id }]
                        + texture_size_action(p.id, texture_size) + uniforms_action(p.id, changed)
                    &&& *final(self) == (LazilyCompiledShader {
                        cached_projection: if changed {
                            *projection
                        } else {
                            old(self).cached_projection
                        },
                        ..*old(self)
                    })
                    &&& final(renderer_errors)@ == old(renderer_errors)@
                },
            },
    {
        let mut actions: Vec<BindAction> = Vec::new();
        let update_projection = !self.cached_projection.equals(projection);
        match program {
            Err(e) => {
                renderer_errors.push(RendererError::Shader(e));
            },
            Ok(p) => {
                actions.push(BindAction::BindProgram { program: p.id });
                if let Some((width, height)) = texture_size {
                    actions.push(BindAction::SetTextureSize { program: p.id, width, height });
                }
                if update_projection {
                    actions.push(BindAction::SetUniforms { program: p.id });
                    self.cached_projection = *projection;
                }
                assert(actions@ =~= seq![BindAction::BindProgram { program: p.id }]
                    + texture_size_action(p.id, texture_size) + uniforms_action(
                    p.id,
                    update_projection,
                ));
            },
        }
        actions
    }

    /// The program that is to be deleted with the shader.
    pub fn deinit(self) -> (r: Option<Program>)
        ensures
            r == self.program,
    {
        self.program
    }
}

/// Once a program was created and linked, it is ready, whatever is asked of it.
pub proof fn two_steps_make_a_program_ready(shader: LazilyCompiledShader, program: Program)
    ensures
        ({
            let made = LazilyCompiledShader { program: Some(program), ..shader };
            let ready = LazilyCompiledShader {
                program: Some(Program { is_initialized: true, ..program }),
                ..shader
            };
            &&& forall|flags: ShaderPrecacheFlags|
                (#[trigger] ready.spec_next_step(flags)) is Ready
            &&& forall|flags: ShaderPrecacheFlags|
                (#[trigger] made.spec_next_step(flags)) is Link ==> flags.full_compile
        }),
{
}

/// A projection without a NaN is the same as itself, so that binding with it once more
/// hands nothing over.
pub proof fn same_projection_is_kept(projection: Projection)
    requires
        forall|i: int| 0 <= i < 16 ==> !(#[trigger] projection.m[i]).not_a_number(),
    ensures
        projection.same(projection),
{
}

/// A shader of the loader.
#[derive(Clone, Copy, Debug, PartialEq, Eq, Structural)]
pub struct ShaderHandle(pub usize);

/// All the shaders, in the order in which they were made.
pub struct ShaderLoader {
    pub shaders: Vec<LazilyCompiledShader>,
}

impl Default for ShaderLoader {
    fn default() -> (r: Self)
        ensures
            r.shaders@ == Seq::<LazilyCompiledShader>::empty(),
    {
        ShaderLoader { shaders: Vec::new() }
    }
}

impl ShaderLoader {
    /// The handle is that of a shader that is made from the description.
    pub open spec fn has(self, handle: ShaderHandle, desc: ShaderDesc) -> bool {
        handle.0 < self.shaders@.len() && self.shaders@[handle.0 as int].is_made_from(desc)
    }

    /// Every shader of the other loader is at the same place in this one.
    pub open spec fn extends(self, other: Self) -> bool {
        &&& other.shaders@.len() <= self.shaders@.len()
        &&& forall|i: int|
            0 <= i < other.shaders@.len() ==> #[trigger] self.shaders@[i] == other.shaders@[i]
    }

    /// The loader has the shaders of the other one, followed by those of the descriptions
    /// in order, none of which is compiled.
    pub open spec fn adds(self, other: Self, descs: Seq<ShaderDesc>) -> bool {
        &&& self.extends(other)
        &&& self.shaders@.len() == other.shaders@.len() + descs.len()
        &&& forall|i: int|
            0 <= i < descs.len() ==> self.shaders@[other.shaders@.len()
                + i].is_made_from(#[trigger] descs[i])
        &&& forall|i: int|
            other.shaders@.len() <= i < self.shaders@.len() ==> (
            #[trigger] self.shaders@[i]).program is None
    }

    pub fn new() -> (r: Self)
        ensures
            r.shaders@ == Seq::<LazilyCompiledShader>::empty(),
    {
        ShaderLoader { shaders: Vec::new() }
    }

    /// Adds a shader at the end.
    pub fn create_shader(
        &mut self,
        kind: ShaderKind,
        name: ShaderName,
        unsorted_features: &Vec<ShaderFeature>,
        shader_list: &ShaderFeatures,
    ) -> (r: Result<ShaderHandle, ShaderError>)
        requires
            is_available((ShaderDesc { kind, name, features: unsorted_features@ }), *shader_list),
        ensures
            r matches Ok(handle) && handle.0 == old(self).shaders@.len(),
            final(self).adds(
                *old(self),
                seq![(ShaderDesc { kind, name, features: unsorted_features@ })],
            ),
    {
        let index: usize = self.shaders.len();
        match LazilyCompiledShader::new(kind, name, unsorted_features, shader_list) {
            Ok(shader) => {
                self.shaders.push(shader);
                Ok(ShaderHandle(index))
            },
            Err(e) => Err(e),
        }
    }

    /// What is to be done to prepare a shader; nothing where the flags do not ask for it.
    pub fn precache(&self, shader: ShaderHandle, flags: ShaderPrecacheFlags) -> (r: Option<
        ShaderStep,
    >)
        requires
            shader.0 < self.shaders@.len(),
        ensures
            r == (if flags.async_compile || flags.full_compile {
                Some(self.shaders@[shader.0 as int].spec_next_step(flags))
            } else {
                None
            }),
    {
        if !(flags.async_compile || flags.full_compile) {
            return None;
        }
        Some(self.shaders[shader.0].get_internal(flags))
    }

    /// The handles of all shaders, in the order in which they were made.
    pub fn all_handles(&self) -> (r: VecDeque<ShaderHandle>)
        ensures
            r@ == Seq::new(self.shaders@.len(), |i: int| ShaderHandle(i as usize)),
    {
        let mut r: VecDeque<ShaderHandle> = VecDeque::new();
        let mut i: usize = 0;
        while i < self.shaders.len()
            invariant
                i <= self.shaders@.len(),
                r@ == Seq::new(i as nat, |i: int| ShaderHandle(i as usize)),
            decreases self.shaders@.len() - i,
        {
            r.push_back(ShaderHandle(i));
            i = i + 1;
            assert(r@ =~= Seq::new(i as nat, |i: int| ShaderHandle(i as usize)));
        }
        r
    }

    pub fn get(&mut self, handle: ShaderHandle) -> (r: &mut LazilyCompiledShader)
        requires
            handle.0 < old(self).shaders@.len(),
        ensures
            *r == old(self).shaders@[handle.0 as int],
            final(self).shaders@ == old(self).shaders@.update(handle.0 as int, *final(r)),
    {
        &mut self.shaders[handle.0]
    }
}

/// What a shader reads from a texture.
#[derive(Clone, Copy, Debug, PartialEq, Eq, Structural)]
pub enum TextureSampler {
    Color0,
    Color1,
    Color2,
    Dither,
    TransformPalette,
    RenderTasks,
    PrimitiveHeadersF,
    PrimitiveHeadersI,
    ClipMask,
    GpuBufferF,
    GpuBufferI,
}

impl TextureSampler {
    pub open spec fn text(self) -> Seq<char> {
        match self {
            TextureSampler::Color0 => "sColor0"@,
            TextureSampler::Color1 => "sColor1"@,
            TextureSampler::Color2 => "sColor2"@,
            TextureSampler::Dither => "sDither"@,
            TextureSampler::TransformPalette => "sTransformPalette"@,
            TextureSampler::RenderTasks => "sRenderTasks"@,
            TextureSampler::PrimitiveHeadersF => "sPrimitiveHeadersF"@,
            TextureSampler::PrimitiveHeadersI => "sPrimitiveHeadersI"@,
            TextureSampler::ClipMask => "sClipMask"@,
            TextureSampler::GpuBufferF => "sGpuBufferF"@,
            TextureSampler::GpuBufferI => "sGpuBufferI"@,
        }
    }

    /// The name that shaders know the texture by.
    pub fn name(self) -> (r: &'static str)
        ensures
            r@ == self.text(),
    {
        match self {
            TextureSampler::Color0 => "sColor0",
            TextureSampler::Color1 => "sColor1",
            TextureSampler::Color2 => "sColor2",
            TextureSampler::Dither => "sDither",
            TextureSampler::TransformPalette => "sTransformPalette",
            TextureSampler::RenderTasks => "sRenderTasks",
            TextureSampler::PrimitiveHeadersF => "sPrimitiveHeadersF",
            TextureSampler::PrimitiveHeadersI => "sPrimitiveHeadersI",
            TextureSampler::ClipMask => "sClipMask",
            TextureSampler::GpuBufferF => "sGpuBufferF",
            TextureSampler::GpuBufferI => "sGpuBufferI",
        }
    }
}

pub open spec fn spec_shader_samplers() -> Seq<TextureSampler> {
    seq![
        TextureSampler::Color0,
        TextureSampler::Color1,
        TextureSampler::Color2,
        TextureSampler::Dither,
        TextureSampler::TransformPalette,
        TextureSampler::RenderTasks,
        TextureSampler::PrimitiveHeadersF,
        TextureSampler::PrimitiveHeadersI,
        TextureSampler::ClipMask,
        TextureSampler::GpuBufferF,
        TextureSampler::GpuBufferI,
    ]
}

/// What is bound to every program, right after it was linked.
pub fn shader_samplers() -> (r: Vec<TextureSampler>)
    ensures
        r@ == spec_shader_samplers(),
{
    let r: Vec<TextureSampler> = vec![
        TextureSampler::Color0,
        TextureSampler::Color1,
        TextureSampler::Color2,
        TextureSampler::Dither,
        TextureSampler::TransformPalette,
        TextureSampler::RenderTasks,
        TextureSampler::PrimitiveHeadersF,
        TextureSampler::PrimitiveHeadersI,
        TextureSampler::ClipMask,
        TextureSampler::GpuBufferF,
        TextureSampler::GpuBufferI,
    ];
    assert(r@ =~= spec_shader_samplers());
    r
}

/// Every texture that a shader can read is bound exactly once.
pub proof fn samplers_are_bound_once(sampler: TextureSampler)
    ensures
        spec_shader_samplers().contains(sampler),
        spec_shader_samplers().no_duplicates(),
{
    let all = spec_shader_samplers();
    assert(all.contains(sampler)) by {
        assert(all[0] == TextureSampler::Color0);
        assert(all[1] == TextureSampler::Color1);
        assert(all[2] == TextureSampler::Color2);
        assert(all[3] == TextureSampler::Dither);
        assert(all[4] == TextureSampler::TransformPalette);
        assert(all[5] == TextureSampler::RenderTasks);
        assert(all[6] == TextureSampler::PrimitiveHeadersF);
        assert(all[7] == TextureSampler::PrimitiveHeadersI);
        assert(all[8] == TextureSampler::ClipMask);
        assert(all[9] == TextureSampler::GpuBufferF);
        assert(all[10] == TextureSampler::GpuBufferI);
    }
}

/// Shaders that are added in two steps are all added, in the order of the steps.
pub proof fn shaders_add_up(
    first: ShaderLoader,
    second: ShaderLoader,
    third: ShaderLoader,
    a: Seq<ShaderDesc>,
    b: Seq<ShaderDesc>,
)
    requires
        second.adds(first, a),
        third.adds(second, b),
    ensures
        third.adds(first, a + b),
{
    assert forall|i: int| 0 <= i < (a + b).len() implies third.shaders@[first.shaders@.len()
        + i].is_made_from(#[trigger] (a + b)[i]) by {
        if i < a.len() {
            assert(second.shaders@[first.shaders@.len() + i].is_made_from(a[i]));
        } else {
            assert(third.shaders@[second.shaders@.len() + (i - a.len())].is_made_from(
                b[i - a.len()],
            ));
        }
    }
    assert forall|i: int| first.shaders@.len() <= i < third.shaders@.len() implies (
    #[trigger] third.shaders@[i]).program is None by {
        if i < second.shaders@.len() {
            assert(second.shaders@[i].program is None);
        }
    }
}

/// A shader stays where it is when others are added.
pub proof fn shaders_stay_in_place(
    before: ShaderLoader,
    after: ShaderLoader,
    handle: ShaderHandle,
    desc: ShaderDesc,
)
    requires
        after.extends(before),
        before.has(handle, desc),
    ensures
        after.has(handle, desc),
{
    assert(after.shaders@[handle.0 as int] == before.shaders@[handle.0 as int]);
}

/// The shaders that are still to be prepared.
pub struct PendingShadersToPrecache {
    pub precache_flags: ShaderPrecacheFlags,
    pub remaining_shaders: VecDeque<ShaderHandle>,
}

impl PendingShadersToPrecache {
    /// The next shader to be prepared, which is not pending any more; nothing where all
    /// are done.
    pub fn next(&mut self) -> (r: Option<ShaderHandle>)
        ensures
            final(self).precache_flags == old(self).precache_flags,
            match r {
                Some(handle) => old(self).remaining_shaders@ == seq![handle]
                    + final(self).remaining_shaders@,
                None => old(self).remaining_shaders@.len() == 0 && final(self).remaining_shaders@
                    == old(self).remaining_shaders@,
            },
    {
        let ghost before = self.remaining_shaders@;
        let r = self.remaining_shaders.pop_front();
        proof {
            if let Some(handle) = r {
                assert(before =~= seq![handle] + self.remaining_shaders@);
            }
        }
        r
    }
}

} // verus!
