//! The renderer: what it owns, what it draws and in which order.

use crate::renderer::shade::{GlType, ShaderError};
use vstd::prelude::*;

pub mod cache_texture;
pub mod commands;
pub mod debug;
pub mod debugger;
pub mod draw;
pub mod frame;
pub mod gpu_buffer;
pub mod init;
pub mod render;
pub mod shade;
pub mod state;
pub mod textures;

verus! {

/// What can go wrong in the renderer.
#[derive(Debug)]
pub enum RendererError {
    Shader(ShaderError),
    /// A thread could not be started, with the reason.
    Thread(String),
    /// The device cannot hold textures that are large enough.
    MaxTextureSize,
}

/// The programming interface of the device.
#[derive(Clone, Copy, Debug, PartialEq, Eq, Structural)]
pub enum GraphicsApi {
    OpenGL,
}

/// The programming interface of the device, and who provides it.
#[derive(Debug)]
pub struct GraphicsApiInfo {
    pub kind: GraphicsApi,
    pub renderer: String,
    pub version: String,
}

/// How the texels of an image are stored.
#[derive(Clone, Copy, Debug, PartialEq, Eq, Structural)]
pub enum ImageBufferKind {
    Texture2D,
    TextureRect,
    TextureExternal,
    Texture2DArray,
}

/// The number of kinds of image buffer.
pub const IMAGE_BUFFER_KINDS: usize = 4;

impl ImageBufferKind {
    pub open spec fn spec_index(self) -> usize {
        match self {
            ImageBufferKind::Texture2D => 0,
            ImageBufferKind::TextureRect => 1,
            ImageBufferKind::TextureExternal => 2,
            ImageBufferKind::Texture2DArray => 3,
        }
    }

    /// The place of the kind in a list with one entry for each.
    pub fn index(self) -> (r: usize)
        ensures
            r == self.spec_index(),
            r < IMAGE_BUFFER_KINDS,
    {
        match self {
            ImageBufferKind::Texture2D => 0,
            ImageBufferKind::TextureRect => 1,
            ImageBufferKind::TextureExternal => 2,
            ImageBufferKind::Texture2DArray => 3,
        }
    }

    pub open spec fn spec_at(index: int) -> Self {
        if index == 0 {
            ImageBufferKind::Texture2D
        } else if index == 1 {
            ImageBufferKind::TextureRect
        } else if index == 2 {
            ImageBufferKind::TextureExternal
        } else {
            ImageBufferKind::Texture2DArray
        }
    }

    /// The kind at a place.
    pub fn at(index: usize) -> (r: Self)
        requires
            index < IMAGE_BUFFER_KINDS,
        ensures
            r == Self::spec_at(index as int),
            r.spec_index() == index,
    {
        if index == 0 {
            ImageBufferKind::Texture2D
        } else if index == 1 {
            ImageBufferKind::TextureRect
        } else if index == 2 {
            ImageBufferKind::TextureExternal
        } else {
            ImageBufferKind::Texture2DArray
        }
    }

    pub open spec fn spec_feature_string(self) -> Seq<char> {
        match self {
            ImageBufferKind::Texture2D => "TEXTURE_2D"@,
            ImageBufferKind::Texture2DArray => ""@,
            ImageBufferKind::TextureRect => "TEXTURE_RECT"@,
            ImageBufferKind::TextureExternal => "TEXTURE_EXTERNAL"@,
        }
    }

    /// The feature that a shader is compiled with to read the kind; nothing for arrays.
    pub fn get_feature_string(&self) -> (r: &'static str)
        ensures
            r@ == self.spec_feature_string(),
    {
        match *self {
            ImageBufferKind::Texture2D => "TEXTURE_2D",
            ImageBufferKind::Texture2DArray => "",
            ImageBufferKind::TextureRect => "TEXTURE_RECT",
            ImageBufferKind::TextureExternal => "TEXTURE_EXTERNAL",
        }
    }

    pub open spec fn spec_has_platform_support(self, gl_type: GlType) -> bool {
        !(self is TextureExternal) || gl_type == GlType::Gles
    }

    /// Images of the kind can be read. Only the embedded flavor of OpenGL has external
    /// textures.
    pub fn has_platform_support(&self, gl_type: &GlType) -> (r: bool)
        ensures
            r == self.spec_has_platform_support(*gl_type),
    {
        match *gl_type {
            GlType::Gles => match *self {
                ImageBufferKind::Texture2D => true,
                ImageBufferKind::Texture2DArray => true,
                ImageBufferKind::TextureRect => true,
                ImageBufferKind::TextureExternal => true,
            },
            GlType::Gl => match *self {
                ImageBufferKind::Texture2D => true,
                ImageBufferKind::Texture2DArray => true,
                ImageBufferKind::TextureRect => true,
                ImageBufferKind::TextureExternal => false,
            },
        }
    }
}

/// What draws.
#[derive(Clone, Copy, Debug, PartialEq, Eq, Structural)]
pub enum RendererKind {
    Native,
    OSMesa,
}

/// The order of the channels of pixels that are read back.
#[derive(Clone, Copy, Debug, PartialEq, Eq, Structural)]
pub enum ReadPixelsFormat {
    Rgba8,
    Bgra8,
}

/// What is drawn on top of a frame for debugging.
#[derive(Clone, Copy, Debug, PartialEq, Eq, Structural)]
pub struct DebugFlags {
    /// The profiler.
    pub profiler_dbg: bool,
    /// The render targets.
    pub render_target_dbg: bool,
    /// The textures of the texture cache.
    pub texture_cache_dbg: bool,
    /// Frames around blended primitives.
    pub alpha_prim_dbg: bool,
}

impl DebugFlags {
    pub open spec fn spec_empty() -> Self {
        DebugFlags {
            profiler_dbg: false,
            render_target_dbg: false,
            texture_cache_dbg: false,
            alpha_prim_dbg: false,
        }
    }

    #[verifier::when_used_as_spec(spec_empty)]
    pub fn empty() -> (r: Self)
        ensures
            r == Self::spec_empty(),
    {
        DebugFlags {
            profiler_dbg: false,
            render_target_dbg: false,
            texture_cache_dbg: false,
            alpha_prim_dbg: false,
        }
    }

    pub open spec fn spec_bits(self) -> int {
        (if self.profiler_dbg {
            1int
        } else {
            0
        }) + (if self.render_target_dbg {
            2int
        } else {
            0
        }) + (if self.texture_cache_dbg {
            4int
        } else {
            0
        }) + (if self.alpha_prim_dbg {
            8int
        } else {
            0
        })
    }

    /// The flags as one number, with a bit for each.
    pub fn bits(&self) -> (r: u32)
        ensures
            r == self.spec_bits(),
    {
        let mut bits: u32 = 0;
        if self.profiler_dbg {
            bits = bits + 1;
        }
        if self.render_target_dbg {
            bits = bits + 2;
        }
        if self.texture_cache_dbg {
            bits = bits + 4;
        }
        if self.alpha_prim_dbg {
            bits = bits + 8;
        }
        bits
    }
}

/// The pixels of an image that the embedder owns.
pub enum ExternalImageSource<'a> {
    /// A buffer with the pixels.
    RawData(&'a [u8]),
    /// The number of a texture of the device.
    NativeTexture(u32),
    Invalid,
}

/// Is told when a thread starts and stops.
pub trait ThreadListener {
    fn thread_started(&self, thread_name: &str);

    fn thread_stopped(&self, thread_name: &str);
}

/// Would send what a debugger asks for; no debugger is there.
#[derive(Clone, Copy, Debug, PartialEq, Eq, Structural)]
pub struct DebugServer {}

impl DebugServer {
    pub fn new() -> (r: DebugServer)
        ensures
            r == (DebugServer {}),
    {
        DebugServer {}
    }

    /// Drops a message, since there is no one to send it to.
    pub fn send(&mut self, _message: String)
        ensures
            *final(self) == *old(self),
    {
    }
}

} // verus!
