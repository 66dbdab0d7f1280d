//! Shaders, materials and the lazily built shader modules behind them.
//!
//! Compiling GLSL and creating a module on a device are done by the caller:
//! `compile` turns a `CompileJob` into a SPIR-V binary, `create` turns SPIR-V
//! words into a module. The decisions around those two steps are made here.

use vstd::prelude::*;

use crate::render::gpu::{BindGroupLayoutDescriptor, BindGroupLayoutEntry, BindingType, SHADER_STAGE_FRAGMENT};
use crate::render::spirv::{read_spirv_words, spirv_words};

verus! {

/// The stage a shader is compiled for (the kinds of `shaderc::ShaderKind`).
#[derive(Clone, Copy, Debug, PartialEq, Eq, Structural)]
pub enum ShaderKind {
    Vertex,
    Fragment,
    Compute,
    Geometry,
    TessControl,
    TessEvaluation,
    InferFromSource,
    DefaultVertex,
    DefaultFragment,
    DefaultCompute,
    DefaultGeometry,
    DefaultTessControl,
    DefaultTessEvaluation,
    SpirvAssembly,
    RayGeneration,
    AnyHit,
    ClosestHit,
    Miss,
    Intersection,
    Callable,
    DefaultRayGeneration,
    DefaultAnyHit,
    DefaultClosestHit,
    DefaultMiss,
    DefaultIntersection,
    DefaultCallable,
    Task,
    Mesh,
    DefaultTask,
    DefaultMesh,
}

/// Everything a GLSL compiler is handed for one shader.
#[derive(Clone, Copy, Debug)]
pub struct CompileJob<'a> {
    pub source: &'static str,
    pub kind: ShaderKind,
    pub label: &'a str,
    pub entry: &'static str,
}

/// Why the module of a shader could not be built.
#[derive(Debug)]
pub enum ShaderError {
    /// The compiler rejected the source, with its message.
    Compile(String),
    /// The compiler's output is not a SPIR-V binary.
    InvalidSpirv,
}

/// A shader module together with the function in it where the stage begins.
pub struct ProgrammableStage<'m, M> {
    pub module: &'m M,
    pub entry_point: &'static str,
}

/// GLSL source, what to compile it for, and the module built from it once.
pub struct Shader<'a, M> {
    pub label: &'a str,
    pub code: Option<&'static str>,
    pub entry: &'static str,
    pub tp: Option<ShaderKind>,
    pub module: Option<M>,
}

/// `Ok(())` where `r` is `Ok`, and the same error otherwise.
pub open spec fn outcome_of<T>(r: Result<T, ShaderError>) -> Result<(), ShaderError> {
    match r {
        Ok(_) => Ok(()),
        Err(e) => Err(e),
    }
}

/// What becomes of a compiler's output: its error, or the module that `create`
/// returned for the words of the binary, or `InvalidSpirv`.
pub open spec fn module_from_output<M, K: FnOnce(Vec<u32>) -> M>(
    out: Result<Vec<u8>, String>,
    create: K,
    res: Result<Option<M>, ShaderError>,
) -> bool {
    match out {
        Err(msg) => res == Err::<Option<M>, ShaderError>(ShaderError::Compile(msg)),
        Ok(bin) => match spirv_words(bin@) {
            None => res == Err::<Option<M>, ShaderError>(ShaderError::InvalidSpirv),
            Some(words) => exists|w: Vec<u32>|
                #![trigger create.ensures((w,), res->Ok_0->Some_0)]
                w@ == words && res is Ok && res->Ok_0 is Some && create.ensures((w,), res->Ok_0->Some_0),
        },
    }
}

impl<'a, M> Shader<'a, M> {
    /// A shader as `new` makes it.
    pub open spec fn initial() -> Self {
        Shader { label: "Name", code: None, entry: "main", tp: None, module: None }
    }

    /// The shader with its kind set.
    pub open spec fn with_type(self, tp: ShaderKind) -> Self {
        Shader { tp: Some(tp), ..self }
    }

    /// The shader with its label set.
    pub open spec fn with_label(self, label: &'a str) -> Self {
        Shader { label: label, ..self }
    }

    /// The shader with its source code set.
    pub open spec fn with_code(self, code: &'static str) -> Self {
        Shader { code: Some(code), ..self }
    }

    /// What the compiler is handed for this shader.
    pub open spec fn job(self) -> CompileJob<'a> {
        CompileJob { source: self.code->0, kind: self.tp->0, label: self.label, entry: self.entry }
    }

    /// A shader with source code also has a kind to compile it for.
    pub open spec fn compilable(self) -> bool {
        self.code is Some ==> self.tp is Some
    }

    /// The steps `create_module` takes can be taken, and no others: where there
    /// is source code, `compile` accepts this shader's job, and `create` accepts
    /// the words of a binary that `compile` can return for it.
    pub open spec fn steps_allowed<C: FnOnce(CompileJob<'a>) -> Result<Vec<u8>, String>, K: FnOnce(Vec<u32>) -> M>(
        self,
        compile: C,
        create: K,
    ) -> bool {
        self.code is Some ==> {
            &&& compile.requires((self.job(),))
            &&& forall|out: Result<Vec<u8>, String>, w: Vec<u32>|
                #![trigger compile.ensures((self.job(),), out), create.requires((w,))]
                compile.ensures((self.job(),), out) && out is Ok && spirv_words(out->Ok_0@) == Some(
                    w@,
                ) ==> create.requires((w,))
        }
    }

    /// `get_stage` may be called: the shader has a module or source code for
    /// one, and without a module its source code comes with a kind and the
    /// steps of `create_module` can be taken.
    pub open spec fn stage_allowed<C: FnOnce(CompileJob<'a>) -> Result<Vec<u8>, String>, K: FnOnce(Vec<u32>) -> M>(
        self,
        compile: C,
        create: K,
    ) -> bool {
        &&& self.module is Some || self.code is Some
        &&& self.module is None ==> self.compilable() && self.steps_allowed(compile, create)
    }

    /// `res` is a possible result of `create_module` with these two steps.
    pub open spec fn creates<C: FnOnce(CompileJob<'a>) -> Result<Vec<u8>, String>, K: FnOnce(Vec<u32>) -> M>(
        self,
        compile: C,
        create: K,
        res: Result<Option<M>, ShaderError>,
    ) -> bool {
        if self.code is None {
            res is Ok && res->Ok_0 is None
        } else {
            exists|out: Result<Vec<u8>, String>|
                #![trigger compile.ensures((self.job(),), out)]
                compile.ensures((self.job(),), out) && module_from_output(out, create, res)
        }
    }

    /// `next` is the shader after `get_stage`, which reported `outcome`: a
    /// module already there is kept; otherwise one is built, and kept where
    /// that succeeds.
    pub open spec fn stage_step<C: FnOnce(CompileJob<'a>) -> Result<Vec<u8>, String>, K: FnOnce(Vec<u32>) -> M>(
        self,
        next: Self,
        compile: C,
        create: K,
        outcome: Result<(), ShaderError>,
    ) -> bool {
        &&& next.label == self.label
        &&& next.code == self.code
        &&& next.entry == self.entry
        &&& next.tp == self.tp
        &&& if self.module is Some {
            next.module == self.module && outcome is Ok
        } else {
            exists|res: Result<Option<M>, ShaderError>|
                #![trigger self.creates(compile, create, res)]
                self.creates(compile, create, res) && match res {
                    Ok(Some(m)) => next.module == Some(m) && outcome is Ok,
                    Ok(None) => false,
                    Err(e) => next.module is None && outcome == Err::<(), ShaderError>(e),
                }
        }
    }

    /// A shader named "Name" with entry point "main", and no code, kind or
    /// module yet.
    pub fn new() -> (r: Self)
        ensures
            r == Self::initial(),
    {
        Shader { label: "Name", code: None, entry: "main", tp: None, module: None }
    }

    /// A new vertex shader.
    pub fn new_vs() -> (r: Self)
        ensures
            r == Self::initial().with_type(ShaderKind::Vertex),
    {
        Self::new().set_type(ShaderKind::Vertex)
    }

    /// Sets the stage kind to compile for.
    pub fn set_type(self, tp: ShaderKind) -> (r: Self)
        ensures
            r == self.with_type(tp),
    {
        let mut s = self;
        s.tp = Some(tp);
        s
    }

    /// Sets the label, the file name the compiler reports.
    pub fn set_label(self, label: &'static str) -> (r: Self)
        ensures
            r == self.with_label(label),
    {
        let mut s = self;
        s.label = label;
        s
    }

    /// Sets the GLSL source.
    pub fn load_code(self, code: &'static str) -> (r: Self)
        ensures
            r == self.with_code(code),
    {
        let mut s = self;
        s.code = Some(code);
        s
    }

    /// Compiles the source and creates a new module from it: `Ok(None)` where
    /// there is no source, and then neither step is taken; otherwise the
    /// source is compiled once, and the compiler's error, `InvalidSpirv`, or
    /// the one module `create` made from the words of the binary comes back.
    pub fn create_module<C, K>(&self, compile: C, create: K) -> (r: Result<Option<M>, ShaderError>) where
        C: FnOnce(CompileJob<'a>) -> Result<Vec<u8>, String>,
        K: FnOnce(Vec<u32>) -> M,

        requires
            self.compilable(),
            self.steps_allowed(compile, create),
        ensures
            self.creates(compile, create, r),
            self.code is None ==> r is Ok && r->Ok_0 is None,
            self.code is Some ==> r is Err || r->Ok_0 is Some,
    {
        match self.code {
            None => Ok(None),
            Some(code) => {
                let kind = match self.tp {
                    Some(k) => k,
                    None => {
                        assert(false);
                        ShaderKind::Vertex
                    },
                };
                let job = CompileJob { source: code, kind, label: self.label, entry: self.entry };
                let out = compile(job);
                let ghost out_seen = out;
                let res = match out {
                    Err(msg) => Err(ShaderError::Compile(msg)),
                    Ok(bin) => match read_spirv_words(bin.as_slice()) {
                        None => Err(ShaderError::InvalidSpirv),
                        Some(words) => {
                            let ghost w = words;
                            let m = create(words);
                            let r = Ok(Some(m));
                            assert(create.ensures((w,), r->Ok_0->Some_0));
                            r
                        },
                    },
                };
                assert(module_from_output(out_seen, create, res));
                res
            },
        }
    }

    /// The stage that begins at this shader's entry point in `module`.
    pub fn get_stage_from_module<'m>(&self, module: &'m M) -> (r: ProgrammableStage<'m, M>)
        ensures
            r.module == module,
            r.entry_point == self.entry,
    {
        ProgrammableStage { module, entry_point: self.entry }
    }

    /// The stage of this shader, building its module first where there is none
    /// yet; a module once built is kept and handed out again, and then neither
    /// step may be taken.
    pub fn get_stage<'s, C, K>(&'s mut self, compile: C, create: K) -> (r: Result<
        ProgrammableStage<'s, M>,
        ShaderError,
    >) where C: FnOnce(CompileJob<'a>) -> Result<Vec<u8>, String>, K: FnOnce(Vec<u32>) -> M
        requires
            old(self).stage_allowed(compile, create),
        ensures
            old(self).stage_step(*final(self), compile, create, outcome_of(r)),
            old(self).module is Some ==> *final(self) == *old(self) && r is Ok,
            r is Ok ==> final(self).module == Some(*r->Ok_0.module) && r->Ok_0.entry_point
                == final(self).entry,
    {
        if self.module.is_none() {
            let res = self.create_module(compile, create);
            match res {
                Ok(m) => {
                    self.module = m;
                },
                Err(e) => {
                    return Err(e);
                },
            }
        }
        match &self.module {
            Some(m) => Ok(ProgrammableStage { module: m, entry_point: self.entry }),
            None => {
                assert(false);
                Err(ShaderError::InvalidSpirv)
            },
        }
    }
}

/// Holds the GLSL compiler of a rendering context and hands out shaders.
pub struct ShaderManager<C> {
    cp: C,
}

impl<C> ShaderManager<C> {
    /// The compiler this manager holds.
    pub closed spec fn compiler(self) -> C {
        self.cp
    }

    /// A manager around the given compiler.
    pub fn new(cp: C) -> (r: Self)
        ensures
            r.compiler() == cp,
    {
        ShaderManager { cp }
    }

    /// A new shader with the given source.
    pub fn load_str<'a, M>(code: &'static str) -> (r: Shader<'a, M>)
        ensures
            r == Shader::<'a, M>::initial().with_code(code),
    {
        Shader::new().load_code(code)
    }
}

/// A vertex shader and a fragment shader that are drawn with together.
pub struct Material<'a, M> {
    pub label: &'static str,
    pub vs: Shader<'a, M>,
    pub fs: Shader<'a, M>,
}

/// The single slot of the uniform bind group layout: one non-dynamic uniform
/// buffer at binding 0, seen by the fragment stage.
pub open spec fn uniform_layout_entry() -> BindGroupLayoutEntry {
    BindGroupLayoutEntry {
        binding: 0,
        visibility: SHADER_STAGE_FRAGMENT,
        ty: BindingType::UniformBuffer { dynamic: false },
    }
}

impl<'a, M> Material<'a, M> {
    /// `next` is the material after `get_stage`, which reported `outcome`: the
    /// vertex shader takes its step, and the fragment shader takes its own only
    /// where the first one succeeded.
    pub open spec fn stage_step<C: FnOnce(CompileJob<'a>) -> Result<Vec<u8>, String>, K: FnOnce(Vec<u32>) -> M>(
        self,
        next: Self,
        compile: C,
        create: K,
        outcome: Result<(), ShaderError>,
    ) -> bool {
        &&& next.label == self.label
        &&& exists|o: Result<(), ShaderError>|
            #![trigger self.vs.stage_step(next.vs, compile, create, o)]
            self.vs.stage_step(next.vs, compile, create, o) && if o is Ok {
                self.fs.stage_step(next.fs, compile, create, outcome)
            } else {
                next.fs == self.fs && outcome == o
            }
    }

    /// `get_stage` may be called on both shaders.
    pub open spec fn stages_allowed<C: FnOnce(CompileJob<'a>) -> Result<Vec<u8>, String>, K: FnOnce(Vec<u32>) -> M>(
        self,
        compile: C,
        create: K,
    ) -> bool {
        self.vs.stage_allowed(compile, create) && self.fs.stage_allowed(compile, create)
    }

    /// A material named `name` with a vertex shader for `vs_code` and a
    /// fragment shader for `fs_code`.
    pub fn new(name: &'static str, vs_code: &'static str, fs_code: &'static str) -> (r: Self)
        ensures
            r.label == name,
            r.vs == Shader::<'a, M>::initial().with_type(ShaderKind::Vertex).with_code(vs_code),
            r.fs == Shader::<'a, M>::initial().with_type(ShaderKind::Fragment).with_code(fs_code),
    {
        Material {
            label: name,
            vs: Shader::new().set_type(ShaderKind::Vertex).load_code(vs_code),
            fs: Shader::new().set_type(ShaderKind::Fragment).load_code(fs_code),
        }
    }

    /// The vertex and the fragment stage, each built as `Shader::get_stage` does.
    pub fn get_stage<'s, C, K>(&'s mut self, compile: &C, create: &K) -> (r: Result<
        (ProgrammableStage<'s, M>, ProgrammableStage<'s, M>),
        ShaderError,
    >) where C: Fn(CompileJob<'a>) -> Result<Vec<u8>, String>, K: Fn(Vec<u32>) -> M
        requires
            old(self).stages_allowed(compile, create),
        ensures
            old(self).stage_step(*final(self), compile, create, outcome_of(r)),
            r is Ok ==> final(self).vs.module == Some(*r->Ok_0.0.module) && r->Ok_0.0.entry_point
                == final(self).vs.entry,
            r is Ok ==> final(self).fs.module == Some(*r->Ok_0.1.module) && r->Ok_0.1.entry_point
                == final(self).fs.entry,
    {
        let vs = match self.vs.get_stage(compile, create) {
            Ok(st) => st,
            Err(e) => {
                return Err(e);
            },
        };
        let fs = match self.fs.get_stage(compile, create) {
            Ok(st) => st,
            Err(e) => {
                return Err(e);
            },
        };
        Ok((vs, fs))
    }

    /// The layout of the uniform bind group of this material; `uniforms` does
    /// not change it.
    pub fn get_uniform_layout(&self, uniforms: Vec<i32>) -> (r: BindGroupLayoutDescriptor)
        ensures
            r.bindings@ == seq![uniform_layout_entry()],
            r.label == Some("uniform_bind_group_layout"),
    {
        let mut bindings: Vec<BindGroupLayoutEntry> = Vec::new();
        bindings.push(
            BindGroupLayoutEntry {
                binding: 0,
                visibility: SHADER_STAGE_FRAGMENT,
                ty: BindingType::UniformBuffer { dynamic: false },
            },
        );
        BindGroupLayoutDescriptor { bindings, label: Some("uniform_bind_group_layout") }
    }
}

/// What becomes of a compiler's output, for each output: a compile error is
/// passed on with its message; `InvalidSpirv` comes back exactly when the bytes
/// are not a SPIR-V binary; otherwise the result is the module that `create`
/// made from exactly the decoded words, however many words there are.
pub proof fn lemma_module_follows_compiler_output<M, K: FnOnce(Vec<u32>) -> M>(
    out: Result<Vec<u8>, String>,
    create: K,
    res: Result<Option<M>, ShaderError>,
)
    requires
        module_from_output(out, create, res),
    ensures
        out is Err ==> (res matches Err(ShaderError::Compile(msg)) && msg == out->Err_0),
        (res matches Err(ShaderError::InvalidSpirv)) <==> (out is Ok && spirv_words(out->Ok_0@) is None),
        out is Ok && spirv_words(out->Ok_0@) is Some ==> res is Ok && res->Ok_0 is Some,
        out is Ok && spirv_words(out->Ok_0@) is Some ==> (exists|w: Vec<u32>|
            #![trigger create.ensures((w,), res->Ok_0->Some_0)]
            w@ == spirv_words(out->Ok_0@)->0 && w@.len() * 4 == out->Ok_0@.len() && create.ensures(
                (w,),
                res->Ok_0->Some_0,
            )),
{
}

/// A new shader is labelled "Name", starts at "main", and has no code, kind or
/// module; each setter sets its own field to the value given and keeps the
/// others.
pub proof fn lemma_shader_fields<'a, M>(
    s: Shader<'a, M>,
    tp: ShaderKind,
    label: &'a str,
    code: &'static str,
)
    ensures
        Shader::<'a, M>::initial().label@ == "Name"@,
        Shader::<'a, M>::initial().entry@ == "main"@,
        Shader::<'a, M>::initial().code is None,
        Shader::<'a, M>::initial().tp is None,
        Shader::<'a, M>::initial().module is None,
        s.with_type(tp).tp == Some(tp),
        s.with_type(tp).label == s.label && s.with_type(tp).code == s.code,
        s.with_type(tp).entry == s.entry && s.with_type(tp).module == s.module,
        s.with_label(label).label == label,
        s.with_label(label).tp == s.tp && s.with_label(label).code == s.code,
        s.with_label(label).entry == s.entry && s.with_label(label).module == s.module,
        s.with_code(code).code == Some(code),
        s.with_code(code).tp == s.tp && s.with_code(code).label == s.label,
        s.with_code(code).entry == s.entry && s.with_code(code).module == s.module,
{
}

/// The uniform layout has one slot: binding 0, seen by the fragment stage only,
/// holding a uniform buffer without dynamic offset.
pub proof fn lemma_uniform_layout_entry()
    ensures
        uniform_layout_entry().binding == 0,
        uniform_layout_entry().visibility == 2,
        uniform_layout_entry().ty == (BindingType::UniformBuffer { dynamic: false }),
{
}

/// Setting the kind, the label and the code touch different fields: the order
/// in which a shader is configured does not matter.
pub proof fn lemma_setters_commute<'a, M>(
    s: Shader<'a, M>,
    tp: ShaderKind,
    label: &'a str,
    code: &'static str,
)
    ensures
        s.with_type(tp).with_label(label) == s.with_label(label).with_type(tp),
        s.with_type(tp).with_code(code) == s.with_code(code).with_type(tp),
        s.with_label(label).with_code(code) == s.with_code(code).with_label(label),
{
}

/// Setting a field twice keeps only the second value.
pub proof fn lemma_last_setting_wins<'a, M>(
    s: Shader<'a, M>,
    tp1: ShaderKind,
    tp2: ShaderKind,
    label1: &'a str,
    label2: &'a str,
    code1: &'static str,
    code2: &'static str,
)
    ensures
        s.with_type(tp1).with_type(tp2) == s.with_type(tp2),
        s.with_label(label1).with_label(label2) == s.with_label(label2),
        s.with_code(code1).with_code(code2) == s.with_code(code2),
{
}

/// Once `get_stage` has succeeded the shader holds a module, and a later
/// `get_stage` succeeds and leaves the shader as it was. (With the module
/// there, `get_stage` asks nothing of the two steps, so it cannot take them.)
pub proof fn lemma_stage_reuses_module<'a, M, C, K>(
    s0: Shader<'a, M>,
    s1: Shader<'a, M>,
    s2: Shader<'a, M>,
    compile: C,
    create: K,
    o1: Result<(), ShaderError>,
    o2: Result<(), ShaderError>,
) where C: FnOnce(CompileJob<'a>) -> Result<Vec<u8>, String>, K: FnOnce(Vec<u32>) -> M
    requires
        s0.stage_step(s1, compile, create, o1),
        o1 is Ok,
        s1.stage_step(s2, compile, create, o2),
    ensures
        s1.module is Some,
        s2 == s1,
        o2 is Ok,
{
    if s0.module is None {
        let res = choose|res: Result<Option<M>, ShaderError>| #[trigger]
            s0.creates(compile, create, res) && match res {
                Ok(Some(m)) => s1.module == Some(m) && o1 is Ok,
                Ok(None) => false,
                Err(e) => s1.module is None && o1 == Err::<(), ShaderError>(e),
            };
    }
}

/// A shader that holds its module asks nothing of the two steps: `get_stage`
/// may be called with steps that can never be taken, so it compiles nothing and
/// creates no module. The same holds of a material whose shaders both hold
/// their modules.
pub proof fn lemma_built_shader_takes_no_steps<'a, M, C, K>(
    s: Shader<'a, M>,
    m: Material<'a, M>,
    compile: C,
    create: K,
) where C: FnOnce(CompileJob<'a>) -> Result<Vec<u8>, String>, K: FnOnce(Vec<u32>) -> M
    requires
        s.module is Some,
        m.vs.module is Some,
        m.fs.module is Some,
    ensures
        s.stage_allowed(compile, create),
        m.stages_allowed(compile, create),
{
}

/// The same for a material: after one successful `get_stage` both shaders hold
/// their modules, and the next `get_stage` succeeds and changes nothing.
pub proof fn lemma_material_stage_reuses_modules<'a, M, C, K>(
    m0: Material<'a, M>,
    m1: Material<'a, M>,
    m2: Material<'a, M>,
    compile: C,
    create: K,
    o1: Result<(), ShaderError>,
    o2: Result<(), ShaderError>,
) where C: FnOnce(CompileJob<'a>) -> Result<Vec<u8>, String>, K: FnOnce(Vec<u32>) -> M
    requires
        m0.stage_step(m1, compile, create, o1),
        o1 is Ok,
        m1.stage_step(m2, compile, create, o2),
    ensures
        m1.vs.module is Some,
        m1.fs.module is Some,
        m2 == m1,
        o2 is Ok,
{
    let a = choose|o: Result<(), ShaderError>| #[trigger]
        m0.vs.stage_step(m1.vs, compile, create, o) && if o is Ok {
            m0.fs.stage_step(m1.fs, compile, create, o1)
        } else {
            m1.fs == m0.fs && o1 == o
        };
    let b = choose|o: Result<(), ShaderError>| #[trigger]
        m1.vs.stage_step(m2.vs, compile, create, o) && if o is Ok {
            m1.fs.stage_step(m2.fs, compile, create, o2)
        } else {
            m2.fs == m1.fs && o2 == o
        };
    lemma_stage_reuses_module(m0.vs, m1.vs, m2.vs, compile, create, a, b);
    lemma_stage_reuses_module(m0.fs, m1.fs, m2.fs, compile, create, o1, o2);
}

} // verus!
