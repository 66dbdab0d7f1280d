//! Setting up a rendering context and drawing a mesh with a material.

pub mod gpu;
pub mod shader;
pub mod spirv;

pub use shader::{
    CompileJob, Material, ProgrammableStage, Shader, ShaderError, ShaderKind, ShaderManager,
};

use gpu::{
    blend_replace, spec_blend_replace, Backends, BlendDescriptor, CullMode, FrontFace, IndexFormat,
    PowerPreference, PresentMode, PrimitiveTopology, SwapChainDescriptor, TextureFormat,
    COLOR_WRITE_ALL, TEXTURE_USAGE_OUTPUT_ATTACHMENT,
};
use shader::outcome_of;

use vstd::prelude::*;

verus! {

/// What a rendering context asks of the adapter and the device, and the swap
/// chain it makes for its window.
#[derive(Clone, Copy, Debug, PartialEq, Eq, Structural)]
pub struct ContextSetup {
    pub power_preference: PowerPreference,
    pub backends: Backends,
    pub anisotropic_filtering: bool,
    /// The largest number of bind groups the device must allow.
    pub max_bind_groups: u32,
    pub swap_chain: SwapChainDescriptor,
}

/// The context set up for a window of the given inner size: any adapter of the
/// primary backends, no anisotropic filtering, the default device limits (four
/// bind groups), and a FIFO swap chain of sRGB
/// BGRA textures that are rendered into, as large as the window.
pub open spec fn spec_context_setup(width: u32, height: u32) -> ContextSetup {
    ContextSetup {
        power_preference: PowerPreference::Default,
        backends: Backends::Primary,
        anisotropic_filtering: false,
        max_bind_groups: 4,
        swap_chain: SwapChainDescriptor {
            usage: TEXTURE_USAGE_OUTPUT_ATTACHMENT,
            format: TextureFormat::Bgra8UnormSrgb,
            width,
            height,
            present_mode: PresentMode::Fifo,
        },
    }
}

/// What a rendering context for a window of the given inner size is made with.
pub fn context_setup(width: u32, height: u32) -> (r: ContextSetup)
    ensures
        r == spec_context_setup(width, height),
        r.swap_chain.width == width,
        r.swap_chain.height == height,
{
    ContextSetup {
        power_preference: PowerPreference::Default,
        backends: Backends::Primary,
        anisotropic_filtering: false,
        max_bind_groups: 4,
        swap_chain: SwapChainDescriptor {
            usage: TEXTURE_USAGE_OUTPUT_ATTACHMENT,
            format: TextureFormat::Bgra8UnormSrgb,
            width,
            height,
            present_mode: PresentMode::Fifo,
        },
    }
}

/// The fixed-function state of a render pipeline. The floating-point depth
/// bias parameters are not part of this description.
#[derive(Clone, Copy, Debug, PartialEq, Eq, Structural)]
pub struct PipelineState {
    pub front_face: FrontFace,
    pub cull_mode: CullMode,
    pub depth_bias: i32,
    pub color_format: TextureFormat,
    pub color_blend: BlendDescriptor,
    pub alpha_blend: BlendDescriptor,
    /// Bits of `wgpu::ColorWrite`.
    pub write_mask: u32,
    pub topology: PrimitiveTopology,
    pub has_depth_stencil: bool,
    pub index_format: IndexFormat,
    pub sample_count: u32,
    pub sample_mask: u32,
    pub alpha_to_coverage_enabled: bool,
}

/// The state a mesh is drawn with: counter-clockwise front faces, no culling,
/// no depth bias, one sRGB BGRA color target written whole with replacing
/// blends, triangle lists with 16-bit indices, no depth or stencil, one sample
/// with every bit of the mask set, and no alpha to coverage.
pub open spec fn spec_pipeline_state() -> PipelineState {
    PipelineState {
        front_face: FrontFace::Ccw,
        cull_mode: CullMode::Disabled,
        depth_bias: 0,
        color_format: TextureFormat::Bgra8UnormSrgb,
        color_blend: spec_blend_replace(),
        alpha_blend: spec_blend_replace(),
        write_mask: COLOR_WRITE_ALL,
        topology: PrimitiveTopology::TriangleList,
        has_depth_stencil: false,
        index_format: IndexFormat::Uint16,
        sample_count: 1,
        sample_mask: 0xffff_ffff,
        alpha_to_coverage_enabled: false,
    }
}

/// The state a mesh renderer builds its pipeline with.
pub fn pipeline_state() -> (r: PipelineState)
    ensures
        r == spec_pipeline_state(),
{
    PipelineState {
        front_face: FrontFace::Ccw,
        cull_mode: CullMode::Disabled,
        depth_bias: 0,
        color_format: TextureFormat::Bgra8UnormSrgb,
        color_blend: blend_replace(),
        alpha_blend: blend_replace(),
        write_mask: COLOR_WRITE_ALL,
        topology: PrimitiveTopology::TriangleList,
        has_depth_stencil: false,
        index_format: IndexFormat::Uint16,
        sample_count: 1,
        sample_mask: 0xffff_ffff,
        alpha_to_coverage_enabled: false,
    }
}

/// One command recorded into a render pass.
pub enum DrawCommand<'r, P, B, G> {
    SetPipeline(&'r P),
    SetVertexBuffer { slot: u32, buffer: &'r B, offset: u64, size: u64 },
    SetIndexBuffer { buffer: &'r B, offset: u64, size: u64 },
    /// Binds `group` at `index`, with no dynamic offsets.
    SetBindGroup { index: u32, group: &'r G },
    /// Draws the indices `first_index..index_end` of the instances
    /// `first_instance..instance_end`.
    DrawIndexed { first_index: u32, index_end: u32, base_vertex: i32, first_instance: u32, instance_end: u32 },
}

/// Draws a mesh with one material, through the pipeline built for it.
pub struct MeshRenderer<'a, M, P> {
    pub pipeline: Option<P>,
    pub material: &'a mut Material<'a, M>,
}

/// `p` is what `build` returned for the two stages of `mat`, whose modules are
/// both built, and the mesh pipeline state.
pub open spec fn built_from<'a, M, P, F>(mat: Material<'a, M>, build: F, p: P) -> bool where
    F: for <'m>FnOnce(ProgrammableStage<'m, M>, ProgrammableStage<'m, M>, PipelineState) -> P,
 {
    &&& mat.vs.module is Some
    &&& mat.fs.module is Some
    &&& exists|vs: ProgrammableStage<'a, M>, fs: ProgrammableStage<'a, M>|
        #![trigger build.ensures((vs, fs, spec_pipeline_state()), p)]
        *vs.module == mat.vs.module->0 && vs.entry_point == mat.vs.entry && *fs.module
            == mat.fs.module->0 && fs.entry_point == mat.fs.entry && build.ensures(
            (vs, fs, spec_pipeline_state()),
            p,
        )
}

impl<'a, M, P> MeshRenderer<'a, M, P> {
    /// A renderer of `mat` with no pipeline yet.
    pub fn new(mat: &'a mut Material<'a, M>) -> (r: Self)
        ensures
            r.pipeline is None,
            *r.material == *old(mat),
            *final(r.material) == *final(mat),
    {
        MeshRenderer { pipeline: None, material: mat }
    }

    /// Builds a pipeline for the material's two stages (building their modules
    /// where needed) with one call of `build`, and the mesh pipeline state.
    pub fn get_pipeline<C, K, F>(&mut self, compile: &C, create: &K, build: F) -> (r: Result<
        Option<P>,
        ShaderError,
    >) where
        C: Fn(CompileJob<'a>) -> Result<Vec<u8>, String>,
        K: Fn(Vec<u32>) -> M,
        F: for <'m>FnOnce(ProgrammableStage<'m, M>, ProgrammableStage<'m, M>, PipelineState) -> P,

        requires
            (*old(self).material).stages_allowed(compile, create),
            forall|vs: ProgrammableStage<'a, M>, fs: ProgrammableStage<'a, M>, st: PipelineState|
                build.requires((vs, fs, st)),
        ensures
            (*old(self).material).stage_step(*final(self).material, compile, create, outcome_of(r)),
            final(self).pipeline == old(self).pipeline,
            r is Ok ==> r->Ok_0 is Some && built_from(*final(self).material, build, r->Ok_0->Some_0),
    {
        let stages = self.material.get_stage(compile, create);
        match stages {
            Err(e) => Err(e),
            Ok((vs, fs)) => {
                let state = pipeline_state();
                let p = build(vs, fs, state);
                Ok(Some(p))
            },
        }
    }

    /// Replaces the pipeline by one built as `get_pipeline` does; where that
    /// fails the pipeline is left as it was.
    pub fn update_pipeline<C, K, F>(&mut self, compile: &C, create: &K, build: F) -> (r: Result<
        (),
        ShaderError,
    >) where
        C: Fn(CompileJob<'a>) -> Result<Vec<u8>, String>,
        K: Fn(Vec<u32>) -> M,
        F: for <'m>FnOnce(ProgrammableStage<'m, M>, ProgrammableStage<'m, M>, PipelineState) -> P,

        requires
            (*old(self).material).stages_allowed(compile, create),
            forall|vs: ProgrammableStage<'a, M>, fs: ProgrammableStage<'a, M>, st: PipelineState|
                build.requires((vs, fs, st)),
        ensures
            (*old(self).material).stage_step(*final(self).material, compile, create, r),
            r is Ok ==> final(self).pipeline is Some && built_from(
                *final(self).material,
                build,
                final(self).pipeline->0,
            ),
            r is Err ==> final(self).pipeline == old(self).pipeline,
    {
        match self.get_pipeline(compile, create, build) {
            Ok(p) => {
                self.pipeline = p;
                Ok(())
            },
            Err(e) => Err(e),
        }
    }

    /// The commands that draw `len` indices of the mesh with the uniforms in
    /// `ubo`, or none while there is no pipeline.
    pub open spec fn draw_commands<'r, B, G>(
        &'r self,
        vbo: &'r B,
        ebo: &'r B,
        ubo: &'r G,
        len: u32,
    ) -> Seq<DrawCommand<'r, P, B, G>> {
        match &self.pipeline {
            Some(p) => seq![
                DrawCommand::SetPipeline(p),
                DrawCommand::SetVertexBuffer { slot: 0, buffer: vbo, offset: 0, size: 0 },
                DrawCommand::SetIndexBuffer { buffer: ebo, offset: 0, size: 0 },
                DrawCommand::SetBindGroup { index: 0, group: ubo },
                DrawCommand::DrawIndexed {
                    first_index: 0,
                    index_end: len,
                    base_vertex: 0,
                    first_instance: 0,
                    instance_end: 1,
                },
            ],
            None => seq![],
        }
    }

    /// What to record into a render pass to draw the mesh: its pipeline, the
    /// vertex buffer in slot 0, the index buffer, the uniform bind group at 0,
    /// and the indices `0..len` of one instance; nothing without a pipeline.
    pub fn draw<'r, B, G>(&'r self, vbo: &'r B, ebo: &'r B, ubo: &'r G, len: u32) -> (r: Vec<
        DrawCommand<'r, P, B, G>,
    >)
        ensures
            r@ == self.draw_commands(vbo, ebo, ubo, len),
            self.pipeline is None ==> r@.len() == 0,
            self.pipeline is Some ==> r@.len() == 5,
            self.pipeline is Some ==> r@[4] is DrawIndexed && r@[4]->first_index == 0
                && r@[4]->index_end == len && r@[4]->base_vertex == 0 && r@[4]->first_instance == 0
                && r@[4]->instance_end == 1,
    {
        let mut cmds: Vec<DrawCommand<'r, P, B, G>> = Vec::new();
        match &self.pipeline {
            Some(p) => {
                cmds.push(DrawCommand::SetPipeline(p));
                cmds.push(DrawCommand::SetVertexBuffer { slot: 0, buffer: vbo, offset: 0, size: 0 });
                cmds.push(DrawCommand::SetIndexBuffer { buffer: ebo, offset: 0, size: 0 });
                cmds.push(DrawCommand::SetBindGroup { index: 0, group: ubo });
                cmds.push(
                    DrawCommand::DrawIndexed {
                        first_index: 0,
                        index_end: len,
                        base_vertex: 0,
                        first_instance: 0,
                        instance_end: 1,
                    },
                );
            },
            None => {},
        }
        cmds
    }
}

/// The swap chain of a context is exactly as large as the window, whatever its
/// size: neither side is clamped or rounded.
pub proof fn lemma_swap_chain_matches_window(width: u32, height: u32)
    ensures
        spec_context_setup(width, height).swap_chain.width == width,
        spec_context_setup(width, height).swap_chain.height == height,
        spec_context_setup(width, height).swap_chain.present_mode == PresentMode::Fifo,
        spec_context_setup(width, height).swap_chain.format == TextureFormat::Bgra8UnormSrgb,
        spec_context_setup(width, height).swap_chain.usage == 16,
        spec_context_setup(width, height).power_preference == PowerPreference::Default,
        spec_context_setup(width, height).backends == Backends::Primary,
        !spec_context_setup(width, height).anisotropic_filtering,
        spec_context_setup(width, height).max_bind_groups == 4,
{
}

/// The mesh pipeline state: counter-clockwise front faces, no culling, no
/// depth bias, a replacing sRGB BGRA color target written whole, triangle
/// lists with 16-bit indices, no depth or stencil, one sample, a full sample
/// mask and no alpha to coverage.
pub proof fn lemma_pipeline_state_values()
    ensures
        spec_pipeline_state().front_face == FrontFace::Ccw,
        spec_pipeline_state().cull_mode == CullMode::Disabled,
        spec_pipeline_state().depth_bias == 0,
        spec_pipeline_state().color_format == TextureFormat::Bgra8UnormSrgb,
        spec_pipeline_state().color_blend.src_factor == gpu::BlendFactor::One,
        spec_pipeline_state().color_blend.dst_factor == gpu::BlendFactor::Zero,
        spec_pipeline_state().color_blend.operation == gpu::BlendOperation::Add,
        spec_pipeline_state().alpha_blend == spec_pipeline_state().color_blend,
        spec_pipeline_state().write_mask == 15,
        spec_pipeline_state().topology == PrimitiveTopology::TriangleList,
        !spec_pipeline_state().has_depth_stencil,
        spec_pipeline_state().index_format == IndexFormat::Uint16,
        spec_pipeline_state().sample_count == 1,
        spec_pipeline_state().sample_mask == u32::MAX,
        !spec_pipeline_state().alpha_to_coverage_enabled,
{
}

/// A pipeline built by `get_pipeline` came from one call of `build` whose
/// first stage is the material's vertex shader (its module and entry point)
/// and whose second stage is its fragment shader: the two are never swapped.
pub proof fn lemma_pipeline_stages_in_order<'a, M, P, F>(mat: Material<'a, M>, build: F, p: P) where
    F: for <'m>FnOnce(ProgrammableStage<'m, M>, ProgrammableStage<'m, M>, PipelineState) -> P,

    requires
        built_from(mat, build, p),
    ensures
        (exists|vs: ProgrammableStage<'a, M>, fs: ProgrammableStage<'a, M>, st: PipelineState|
            #![trigger build.ensures((vs, fs, st), p)]
            mat.vs.module == Some(*vs.module) && vs.entry_point == mat.vs.entry && mat.fs.module
                == Some(*fs.module) && fs.entry_point == mat.fs.entry && st == spec_pipeline_state()
                && build.ensures((vs, fs, st), p)),
{
    let (vs, fs) = choose|vs: ProgrammableStage<'a, M>, fs: ProgrammableStage<'a, M>|
        #![trigger build.ensures((vs, fs, spec_pipeline_state()), p)]
        *vs.module == mat.vs.module->0 && vs.entry_point == mat.vs.entry && *fs.module
            == mat.fs.module->0 && fs.entry_point == mat.fs.entry && build.ensures(
            (vs, fs, spec_pipeline_state()),
            p,
        );
    assert(build.ensures((vs, fs, spec_pipeline_state()), p));
}

impl<'a, M, P> MeshRenderer<'a, M, P> {
    /// With a pipeline, drawing records five commands in this order: the
    /// pipeline, the vertex buffer in slot 0, the index buffer, the uniform
    /// bind group at 0, and an indexed draw of exactly the indices `0..len` of
    /// one instance, for every `len`; without a pipeline, nothing.
    pub proof fn lemma_draw_covers_all_indices<'r, B, G>(
        &'r self,
        vbo: &'r B,
        ebo: &'r B,
        ubo: &'r G,
        len: u32,
    )
        ensures
            self.pipeline is None ==> self.draw_commands(vbo, ebo, ubo, len).len() == 0,
            self.pipeline is Some ==> self.draw_commands(vbo, ebo, ubo, len).len() == 5,
            self.pipeline is Some ==> self.draw_commands(vbo, ebo, ubo, len)[0] is SetPipeline
                && *self.draw_commands(vbo, ebo, ubo, len)[0]->SetPipeline_0 == self.pipeline->0,
            self.pipeline is Some ==> self.draw_commands(vbo, ebo, ubo, len)[1] is SetVertexBuffer
                && self.draw_commands(vbo, ebo, ubo, len)[1]->slot == 0
                && self.draw_commands(vbo, ebo, ubo, len)[1]->SetVertexBuffer_buffer == vbo
                && self.draw_commands(vbo, ebo, ubo, len)[1]->SetVertexBuffer_offset == 0
                && self.draw_commands(vbo, ebo, ubo, len)[1]->SetVertexBuffer_size == 0,
            self.pipeline is Some ==> self.draw_commands(vbo, ebo, ubo, len)[2] is SetIndexBuffer
                && self.draw_commands(vbo, ebo, ubo, len)[2]->SetIndexBuffer_buffer == ebo
                && self.draw_commands(vbo, ebo, ubo, len)[2]->SetIndexBuffer_offset == 0
                && self.draw_commands(vbo, ebo, ubo, len)[2]->SetIndexBuffer_size == 0,
            self.pipeline is Some ==> self.draw_commands(vbo, ebo, ubo, len)[3] is SetBindGroup
                && self.draw_commands(vbo, ebo, ubo, len)[3]->index == 0
                && self.draw_commands(vbo, ebo, ubo, len)[3]->group == ubo,
            self.pipeline is Some ==> self.draw_commands(vbo, ebo, ubo, len)[4] is DrawIndexed
                && self.draw_commands(vbo, ebo, ubo, len)[4]->first_index == 0
                && self.draw_commands(vbo, ebo, ubo, len)[4]->index_end == len
                && self.draw_commands(vbo, ebo, ubo, len)[4]->base_vertex == 0
                && self.draw_commands(vbo, ebo, ubo, len)[4]->first_instance == 0
                && self.draw_commands(vbo, ebo, ubo, len)[4]->instance_end == 1,
    {
    }
}

} // verus!
