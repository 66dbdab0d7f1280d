use std::cell::Cell;

use red::render::gpu::{
    BindingType, BlendFactor, BlendOperation, Backends, CullMode, FrontFace, IndexFormat,
    PowerPreference, PresentMode, PrimitiveTopology, TextureFormat, COLOR_WRITE_ALL,
    SHADER_STAGE_FRAGMENT, TEXTURE_USAGE_OUTPUT_ATTACHMENT,
};
use red::render::spirv::SPIRV_MAGIC;
use red::render::{
    context_setup, pipeline_state, CompileJob, DrawCommand, Material, MeshRenderer,
    PipelineState, ProgrammableStage, Shader, ShaderError, ShaderKind, ShaderManager,
};

fn le_bytes(words: &[u32]) -> Vec<u8> {
    words.iter().flat_map(|w| w.to_le_bytes()).collect()
}

fn be_bytes(words: &[u32]) -> Vec<u8> {
    words.iter().flat_map(|w| w.to_be_bytes()).collect()
}

const MODULE: [u32; 5] = [SPIRV_MAGIC, 0x0001_0000, 0x0008_000a, 0x0000_002e, 0];

fn compile_ok(_job: CompileJob) -> Result<Vec<u8>, String> {
    Ok(le_bytes(&MODULE))
}

fn words_as_module(w: Vec<u32>) -> Vec<u32> {
    w
}

#[test]
fn new_shader_defaults() {
    let s: Shader<u32> = Shader::new();
    assert_eq!(s.label, "Name");
    assert_eq!(s.entry, "main");
    assert!(s.code.is_none());
    assert!(s.tp.is_none());
    assert!(s.module.is_none());
}

#[test]
fn new_vs_is_a_vertex_shader() {
    let s: Shader<u32> = Shader::new_vs();
    assert_eq!(s.tp, Some(ShaderKind::Vertex));
    assert_eq!(s.label, "Name");
    assert!(s.code.is_none());
}

#[test]
fn setters_set_one_field_each() {
    let s: Shader<u32> = Shader::new()
        .set_label("sky.frag")
        .set_type(ShaderKind::Fragment)
        .load_code("void main() {}");
    assert_eq!(s.label, "sky.frag");
    assert_eq!(s.tp, Some(ShaderKind::Fragment));
    assert_eq!(s.code, Some("void main() {}"));
    assert_eq!(s.entry, "main");
    let t = s.set_type(ShaderKind::Compute);
    assert_eq!(t.tp, Some(ShaderKind::Compute));
    assert_eq!(t.label, "sky.frag");
}

#[test]
fn load_str_is_new_with_code() {
    let s: Shader<u32> = ShaderManager::<()>::load_str("void main() {}");
    assert_eq!(s.code, Some("void main() {}"));
    assert!(s.tp.is_none());
    assert_eq!(s.label, "Name");
    let _m = ShaderManager::new(7u8);
}

#[test]
fn material_new_sets_both_stages() {
    let m: Material<u32> = Material::new("test", "vs src", "fs src");
    assert_eq!(m.label, "test");
    assert_eq!(m.vs.tp, Some(ShaderKind::Vertex));
    assert_eq!(m.vs.code, Some("vs src"));
    assert_eq!(m.fs.tp, Some(ShaderKind::Fragment));
    assert_eq!(m.fs.code, Some("fs src"));
    assert_eq!(m.vs.label, "Name");
    assert_eq!(m.fs.entry, "main");
}

#[test]
fn create_module_without_code_gives_none() {
    let s: Shader<Vec<u32>> = Shader::new_vs();
    let calls = Cell::new(0);
    let compile = |j: CompileJob| {
        calls.set(calls.get() + 1);
        compile_ok(j)
    };
    let create = |w: Vec<u32>| {
        calls.set(calls.get() + 1);
        w
    };
    let r = s.create_module(&compile, &create);
    assert!(matches!(r, Ok(None)));
    assert_eq!(calls.get(), 0);
}

#[test]
fn create_module_hands_the_job_to_the_compiler() {
    let s: Shader<Vec<u32>> = Shader::new().set_label("a.vert").load_code("src").set_type(ShaderKind::Vertex);
    let seen: Cell<Option<(String, ShaderKind, String, String)>> = Cell::new(None);
    let compile = |j: CompileJob| {
        seen.set(Some((j.source.to_string(), j.kind, j.label.to_string(), j.entry.to_string())));
        compile_ok(j)
    };
    let r = s.create_module(&compile, &words_as_module);
    assert!(r.is_ok());
    assert_eq!(
        seen.take(),
        Some(("src".to_string(), ShaderKind::Vertex, "a.vert".to_string(), "main".to_string()))
    );
}

#[test]
fn create_module_decodes_little_endian_spirv() {
    let s: Shader<Vec<u32>> = Shader::new_vs().load_code("src");
    let r = s.create_module(&compile_ok, &words_as_module);
    match r {
        Ok(Some(words)) => assert_eq!(words, MODULE.to_vec()),
        _ => panic!("expected a module"),
    }
}

#[test]
fn create_module_decodes_big_endian_spirv() {
    let s: Shader<Vec<u32>> = Shader::new_vs().load_code("src");
    let compile = |_j: CompileJob| -> Result<Vec<u8>, String> { Ok(be_bytes(&MODULE)) };
    match s.create_module(&compile, &words_as_module) {
        Ok(Some(words)) => assert_eq!(words, MODULE.to_vec()),
        _ => panic!("expected a module"),
    }
}

#[test]
fn create_module_rejects_bytes_that_are_not_spirv() {
    let s: Shader<Vec<u32>> = Shader::new_vs().load_code("src");
    let bad_magic = |_j: CompileJob| -> Result<Vec<u8>, String> { Ok(le_bytes(&[1, 2, 3])) };
    assert!(matches!(s.create_module(&bad_magic, &words_as_module), Err(ShaderError::InvalidSpirv)));
    let ragged = |_j: CompileJob| -> Result<Vec<u8>, String> {
        let mut b = le_bytes(&MODULE);
        b.push(0);
        Ok(b)
    };
    assert!(matches!(s.create_module(&ragged, &words_as_module), Err(ShaderError::InvalidSpirv)));
    let empty = |_j: CompileJob| -> Result<Vec<u8>, String> { Ok(Vec::new()) };
    assert!(matches!(s.create_module(&empty, &words_as_module), Err(ShaderError::InvalidSpirv)));
}

#[test]
fn create_module_passes_on_compile_errors() {
    let s: Shader<Vec<u32>> = Shader::new_vs().load_code("src");
    let failing = |_j: CompileJob| -> Result<Vec<u8>, String> { Err("syntax error".to_string()) };
    match s.create_module(&failing, &words_as_module) {
        Err(ShaderError::Compile(msg)) => assert_eq!(msg, "syntax error"),
        _ => panic!("expected the compiler's error"),
    }
}

#[test]
fn get_stage_builds_the_module_once() {
    let mut s: Shader<Vec<u32>> = Shader::new_vs().load_code("src");
    let calls = Cell::new(0);
    let compile = |j: CompileJob| {
        calls.set(calls.get() + 1);
        compile_ok(j)
    };
    {
        let st = s.get_stage(&compile, &words_as_module).ok().unwrap();
        assert_eq!(st.entry_point, "main");
        assert_eq!(*st.module, MODULE.to_vec());
    }
    {
        let st = s.get_stage(&compile, &words_as_module).ok().unwrap();
        assert_eq!(*st.module, MODULE.to_vec());
    }
    assert_eq!(calls.get(), 1);
    assert!(s.module.is_some());
}

#[test]
fn get_stage_keeps_a_module_already_there() {
    let mut s: Shader<Vec<u32>> = Shader::new_vs();
    s.module = Some(vec![9, 9]);
    let never_compile = |_j: CompileJob| -> Result<Vec<u8>, String> { panic!("compiled") };
    let never_create = |_w: Vec<u32>| -> Vec<u32> { panic!("created") };
    let st = s.get_stage(never_compile, never_create).ok().unwrap();
    assert_eq!(*st.module, vec![9, 9]);
}

#[test]
fn get_stage_after_a_failed_compile_tries_again() {
    let mut s: Shader<Vec<u32>> = Shader::new_vs().load_code("src");
    let failing = |_j: CompileJob| -> Result<Vec<u8>, String> { Err("boom".to_string()) };
    assert!(matches!(s.get_stage(&failing, &words_as_module), Err(ShaderError::Compile(_))));
    assert!(s.module.is_none());
    assert!(s.get_stage(&compile_ok, &words_as_module).is_ok());
}

#[test]
fn get_stage_from_module_uses_the_entry_point() {
    let s: Shader<u32> = Shader::new();
    let m = 5u32;
    let st = s.get_stage_from_module(&m);
    assert_eq!(*st.module, 5);
    assert_eq!(st.entry_point, "main");
}

#[test]
fn material_get_stage_gives_both_stages() {
    let mut m: Material<Vec<u32>> = Material::new("test", "vs", "fs");
    let kinds: Cell<Vec<ShaderKind>> = Cell::new(Vec::new());
    let compile = |j: CompileJob| {
        let mut k = kinds.take();
        k.push(j.kind);
        kinds.set(k);
        compile_ok(j)
    };
    let (vs, fs) = m.get_stage(&compile, &words_as_module).ok().unwrap();
    assert_eq!(vs.entry_point, "main");
    assert_eq!(fs.entry_point, "main");
    assert_eq!(kinds.take(), vec![ShaderKind::Vertex, ShaderKind::Fragment]);
}

#[test]
fn material_get_stage_stops_at_the_vertex_shader() {
    let mut m: Material<Vec<u32>> = Material::new("test", "vs", "fs");
    let failing = |_j: CompileJob| -> Result<Vec<u8>, String> { Err("bad".to_string()) };
    assert!(m.get_stage(&failing, &words_as_module).is_err());
    assert!(m.vs.module.is_none());
    assert!(m.fs.module.is_none());
}

#[test]
fn uniform_layout_is_one_fragment_uniform_buffer() {
    let m: Material<u32> = Material::new("test", "vs", "fs");
    let d = m.get_uniform_layout(vec![1, 2, 3]);
    assert_eq!(d.bindings.len(), 1);
    assert_eq!(d.bindings[0].binding, 0);
    assert_eq!(d.bindings[0].visibility, SHADER_STAGE_FRAGMENT);
    assert_eq!(d.bindings[0].ty, BindingType::UniformBuffer { dynamic: false });
    assert_eq!(d.label, Some("uniform_bind_group_layout"));
    let e = m.get_uniform_layout(Vec::new());
    assert_eq!(e.bindings, d.bindings);
}

#[test]
fn context_setup_follows_the_window() {
    let c = context_setup(2048, 1440);
    assert_eq!(c.power_preference, PowerPreference::Default);
    assert_eq!(c.backends, Backends::Primary);
    assert!(!c.anisotropic_filtering);
    assert_eq!(c.max_bind_groups, 4);
    assert_eq!(c.swap_chain.usage, TEXTURE_USAGE_OUTPUT_ATTACHMENT);
    assert_eq!(c.swap_chain.format, TextureFormat::Bgra8UnormSrgb);
    assert_eq!(c.swap_chain.width, 2048);
    assert_eq!(c.swap_chain.height, 1440);
    assert_eq!(c.swap_chain.present_mode, PresentMode::Fifo);
}

#[test]
fn pipeline_state_values() {
    let p = pipeline_state();
    assert_eq!(p.front_face, FrontFace::Ccw);
    assert_eq!(p.cull_mode, CullMode::Disabled);
    assert_eq!(p.depth_bias, 0);
    assert_eq!(p.color_format, TextureFormat::Bgra8UnormSrgb);
    assert_eq!(p.color_blend.src_factor, BlendFactor::One);
    assert_eq!(p.color_blend.dst_factor, BlendFactor::Zero);
    assert_eq!(p.color_blend.operation, BlendOperation::Add);
    assert_eq!(p.alpha_blend, p.color_blend);
    assert_eq!(p.write_mask, COLOR_WRITE_ALL);
    assert_eq!(p.topology, PrimitiveTopology::TriangleList);
    assert!(!p.has_depth_stencil);
    assert_eq!(p.index_format, IndexFormat::Uint16);
    assert_eq!(p.sample_count, 1);
    assert_eq!(p.sample_mask, u32::MAX);
    assert!(!p.alpha_to_coverage_enabled);
}

type Built = (Vec<u32>, &'static str, Vec<u32>, &'static str, PipelineState);

fn build(vs: ProgrammableStage<'_, Vec<u32>>, fs: ProgrammableStage<'_, Vec<u32>>, st: PipelineState) -> Built {
    (vs.module.clone(), vs.entry_point, fs.module.clone(), fs.entry_point, st)
}

#[test]
fn new_renderer_has_no_pipeline() {
    let mut m: Material<Vec<u32>> = Material::new("test", "vs", "fs");
    let r: MeshRenderer<Vec<u32>, Built> = MeshRenderer::new(&mut m);
    assert!(r.pipeline.is_none());
    assert_eq!(r.material.label, "test");
}

#[test]
fn get_pipeline_builds_from_both_stages() {
    let mut m: Material<Vec<u32>> = Material::new("test", "vs", "fs");
    let mut r: MeshRenderer<Vec<u32>, Built> = MeshRenderer::new(&mut m);
    let p = r.get_pipeline(&compile_ok, &words_as_module, &build).ok().unwrap().unwrap();
    assert_eq!(p.0, MODULE.to_vec());
    assert_eq!(p.1, "main");
    assert_eq!(p.2, MODULE.to_vec());
    assert_eq!(p.3, "main");
    assert_eq!(p.4, pipeline_state());
    assert!(r.pipeline.is_none());
}

#[test]
fn update_pipeline_stores_the_pipeline() {
    let mut m: Material<Vec<u32>> = Material::new("test", "vs", "fs");
    let mut r: MeshRenderer<Vec<u32>, Built> = MeshRenderer::new(&mut m);
    assert!(r.update_pipeline(&compile_ok, &words_as_module, &build).is_ok());
    assert!(r.pipeline.is_some());
    let never_compile = |_j: CompileJob| -> Result<Vec<u8>, String> { panic!("compiled") };
    let never_create = |_w: Vec<u32>| -> Vec<u32> { panic!("created") };
    assert!(r.update_pipeline(&never_compile, &never_create, &build).is_ok());
    assert!(r.material.vs.module.is_some());
    assert!(r.material.fs.module.is_some());
}

#[test]
fn update_pipeline_failure_keeps_the_old_pipeline() {
    let mut m: Material<Vec<u32>> = Material::new("test", "vs", "fs");
    let mut r: MeshRenderer<Vec<u32>, Built> = MeshRenderer::new(&mut m);
    let failing = |_j: CompileJob| -> Result<Vec<u8>, String> { Err("bad".to_string()) };
    assert!(r.update_pipeline(&failing, &words_as_module, &build).is_err());
    assert!(r.pipeline.is_none());
}

#[test]
fn draw_without_pipeline_records_nothing() {
    let mut m: Material<Vec<u32>> = Material::new("test", "vs", "fs");
    let r: MeshRenderer<Vec<u32>, Built> = MeshRenderer::new(&mut m);
    let (vbo, ebo, ubo) = (1u8, 2u8, 3u16);
    assert!(r.draw(&vbo, &ebo, &ubo, 9).is_empty());
}

#[test]
fn draw_records_the_mesh_commands() {
    let mut m: Material<Vec<u32>> = Material::new("test", "vs", "fs");
    let mut r: MeshRenderer<Vec<u32>, Built> = MeshRenderer::new(&mut m);
    r.update_pipeline(&compile_ok, &words_as_module, &build).ok().unwrap();
    let (vbo, ebo, ubo) = (1u8, 2u8, 3u16);
    let cmds = r.draw(&vbo, &ebo, &ubo, 9);
    assert_eq!(cmds.len(), 5);
    assert!(matches!(cmds[0], DrawCommand::SetPipeline(p) if p.1 == "main"));
    assert!(matches!(cmds[1], DrawCommand::SetVertexBuffer { slot: 0, buffer: &1, offset: 0, size: 0 }));
    assert!(matches!(cmds[2], DrawCommand::SetIndexBuffer { buffer: &2, offset: 0, size: 0 }));
    assert!(matches!(cmds[3], DrawCommand::SetBindGroup { index: 0, group: &3 }));
    assert!(matches!(
        cmds[4],
        DrawCommand::DrawIndexed { first_index: 0, index_end: 9, base_vertex: 0, first_instance: 0, instance_end: 1 }
    ));
}

#[test]
fn setter_order_does_not_matter() {
    let a: Shader<u32> = Shader::new().set_type(ShaderKind::Geometry).set_label("g").load_code("c");
    let b: Shader<u32> = Shader::new().load_code("c").set_label("g").set_type(ShaderKind::Geometry);
    assert_eq!((a.label, a.code, a.tp, a.entry), (b.label, b.code, b.tp, b.entry));
}

#[test]
fn last_setting_wins() {
    let s: Shader<u32> = Shader::new()
        .set_type(ShaderKind::Vertex)
        .set_type(ShaderKind::Fragment)
        .load_code("one")
        .load_code("two")
        .set_label("x")
        .set_label("y");
    assert_eq!(s.tp, Some(ShaderKind::Fragment));
    assert_eq!(s.code, Some("two"));
    assert_eq!(s.label, "y");
}

#[test]
fn material_stages_are_built_once() {
    let mut m: Material<Vec<u32>> = Material::new("test", "vs", "fs");
    let calls = Cell::new(0);
    let compile = |j: CompileJob| {
        calls.set(calls.get() + 1);
        compile_ok(j)
    };
    assert!(m.get_stage(&compile, &words_as_module).is_ok());
    assert!(m.get_stage(&compile, &words_as_module).is_ok());
    assert_eq!(calls.get(), 2);
}

#[test]
fn get_stage_with_a_module_ignores_a_missing_kind() {
    let mut s: Shader<Vec<u32>> = ShaderManager::<()>::load_str("src");
    s.module = Some(vec![4]);
    let never_compile = |_j: CompileJob| -> Result<Vec<u8>, String> { panic!("compiled") };
    let never_create = |_w: Vec<u32>| -> Vec<u32> { panic!("created") };
    let st = s.get_stage(never_compile, never_create).ok().unwrap();
    assert_eq!(*st.module, vec![4]);
    assert!(s.tp.is_none());
}

#[test]
fn failed_compile_creates_no_module() {
    let s: Shader<Vec<u32>> = Shader::new_vs().load_code("src");
    let failing = |_j: CompileJob| -> Result<Vec<u8>, String> { Err("bad".to_string()) };
    let never_create = |_w: Vec<u32>| -> Vec<u32> { panic!("created") };
    assert!(matches!(s.create_module(failing, never_create), Err(ShaderError::Compile(_))));
    let not_spirv = |_j: CompileJob| -> Result<Vec<u8>, String> { Ok(vec![1, 2, 3, 4]) };
    assert!(matches!(s.create_module(not_spirv, never_create), Err(ShaderError::InvalidSpirv)));
}
