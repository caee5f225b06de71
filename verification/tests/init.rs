use webrender::renderer::commands::{Shader, VertexArrayKind};
use webrender::renderer::init::{
    create_clip_shader, default_font_render_mode, dither_matrix, instance_attributes,
    max_device_size, new_renderer, program_of, quad_indices, worker_name, FontRenderMode,
    RendererOptions,
};
use webrender::renderer::shade::GlType;
use webrender::renderer::RendererError;

#[test]
fn texture_sizes_are_kept_usable() {
    assert_eq!(max_device_size(8192, None).ok(), Some(8192));
    assert_eq!(max_device_size(8192, Some(1024)).ok(), Some(1024));
    assert_eq!(max_device_size(8192, Some(16384)).ok(), Some(8192));
    assert_eq!(max_device_size(8192, Some(16)).ok(), Some(512));
    assert!(matches!(max_device_size(256, None), Err(RendererError::MaxTextureSize)));
}

#[test]
fn fonts_are_drawn_as_the_options_say() {
    let mut options = RendererOptions::default();
    assert_eq!(default_font_render_mode(&options), FontRenderMode::Alpha);
    options.enable_subpixel_aa = true;
    assert_eq!(default_font_render_mode(&options), FontRenderMode::Subpixel);
    options.enable_aa = false;
    assert_eq!(default_font_render_mode(&options), FontRenderMode::Mono);
}

#[test]
fn every_dither_threshold_is_there_once() {
    let mut all = dither_matrix().to_vec();
    all.sort();
    assert_eq!(all.len(), 64);
    all.dedup();
    assert_eq!(all.len(), 64);
}

#[test]
fn a_renderer_is_set_up() {
    let options = RendererOptions::default();
    let setup = new_renderer(4096, GlType::Gl, &options).ok().unwrap();
    assert_eq!(setup.max_device_size, 4096);
    assert!(setup.dither_matrix.is_some());
    assert!(!setup.precache_shaders);
    assert_eq!(setup.thread_name, "WRRenderBackend#0");
    let find = |shader| setup.shaders.iter().find(|request| request.shader == shader);
    assert_eq!(find(Shader::CsTextRun).unwrap().name, "cs_text_run");
    assert_eq!(find(Shader::CsBlurA8).unwrap().features, vec!["ALPHA_TARGET"]);
    assert_eq!(find(Shader::PsComposite).unwrap().name, "ps_composite");

    let plain = RendererOptions { enable_dithering: false, renderer_id: Some(3), ..options };
    let setup = new_renderer(4096, GlType::Gles, &plain).ok().unwrap();
    assert!(setup.dither_matrix.is_none());
    assert_eq!(setup.thread_name, "WRRenderBackend#3");
    assert!(new_renderer(100, GlType::Gl, &plain).is_err());
}

#[test]
fn programs_begin_with_their_features() {
    let setup = new_renderer(4096, GlType::Gl, &RendererOptions::default()).ok().unwrap();
    let request = setup.shaders.iter().find(|r| r.shader == Shader::CsBlurA8).unwrap();
    let program = program_of(request);
    assert_eq!(program.name, "cs_blur");
    assert_eq!(program.format, VertexArrayKind::Blur);
    assert!(program.prefix.starts_with("#define WR_MAX_VERTEX_TEXTURE_WIDTH 1024\n"));
    assert!(program.prefix.contains("WR_FEATURE_ALPHA_TARGET"));
    assert!(program.samplers.iter().any(|(name, _)| *name == "sColor0"));
    let clip = create_clip_shader("cs_clip_rectangle");
    assert_eq!(clip.format, VertexArrayKind::Clip);
    assert!(clip.prefix.contains("WR_FEATURE_TRANSFORM"));
}

#[test]
fn quads_are_two_triangles() {
    assert_eq!(quad_indices(), [0, 1, 2, 2, 1, 3]);
    assert_eq!(worker_name(12), "WRWorker#12");
    assert!(!instance_attributes(VertexArrayKind::Primitive).is_empty());
    assert!(!instance_attributes(VertexArrayKind::Clip).is_empty());
}
