//! Program pipelines assembled from separately compiled SPIR-V shaders, one
//! program per stage.

use vstd::prelude::*;
use crate::rendering::gl_enums;

verus! {

/// The stages of a program pipeline, compute included.
#[derive(Debug, Clone, Copy, PartialEq, Eq, Structural)]
pub enum ShaderStage {
    Vertex,
    TesselationControl,
    TesselationEvaluation,
    Geometry,
    Fragment,
    Compute,
}

/// The slot of a stage in a pipeline.
pub open spec fn pipeline_slot(stage: ShaderStage) -> int {
    match stage {
        ShaderStage::Vertex => 0,
        ShaderStage::TesselationControl => 1,
        ShaderStage::TesselationEvaluation => 2,
        ShaderStage::Geometry => 3,
        ShaderStage::Fragment => 4,
        ShaderStage::Compute => 5,
    }
}

/// The shaders of the filled slots, in slot order.
pub open spec fn filled_shaders(shaders: Seq<Option<(ShaderStage, u32)>>) -> Seq<(ShaderStage, u32)>
    decreases shaders.len(),
{
    if shaders.len() == 0 {
        seq![]
    } else {
        let rest = filled_shaders(shaders.drop_last());
        match shaders.last() {
            Some(s) => rest.push(s),
            None => rest,
        }
    }
}

/// The abstract state of a pipeline.
pub struct ProgramPipelineView {
    pub id: u32,
    pub shaders: Seq<Option<(ShaderStage, u32)>>,
    pub shader_programs: Seq<Option<u32>>,
}

/// A program pipeline: the shader attached to each stage and the program
/// linked from it.
pub struct ProgramPipeline {
    id: u32,
    shaders: Vec<Option<(ShaderStage, u32)>>,
    shader_programs: Vec<Option<u32>>,
}

impl View for ProgramPipeline {
    type V = ProgramPipelineView;

    closed spec fn view(&self) -> ProgramPipelineView {
        ProgramPipelineView { id: self.id, shaders: self.shaders@, shader_programs: self.shader_programs@ }
    }
}

impl ProgramPipelineView {
    pub open spec fn wf(self) -> bool {
        self.shaders.len() == 6 && self.shader_programs.len() == 6
    }
}

impl ProgramPipeline {
    /// An empty pipeline object `id`.
    pub fn new(id: u32) -> (r: ProgramPipeline)
        ensures
            r@.wf(),
            r@.id == id,
            forall|i: int| 0 <= i < 6 ==> r@.shaders[i] is None && r@.shader_programs[i] is None,
    {
        let mut shaders: Vec<Option<(ShaderStage, u32)>> = Vec::new();
        let mut shader_programs: Vec<Option<u32>> = Vec::new();
        let mut i: usize = 0;
        while i < 6
            invariant
                i <= 6,
                shaders@.len() == i,
                shader_programs@.len() == i,
                forall|j: int| 0 <= j < i ==> shaders@[j] is None && shader_programs@[j] is None,
            decreases 6 - i,
        {
            shaders.push(None);
            shader_programs.push(None);
            i += 1;
        }
        ProgramPipeline { id, shaders, shader_programs }
    }

    pub fn id(&self) -> (r: u32)
        ensures
            r == self@.id,
    {
        self.id
    }

    /// The slot of a stage.
    pub fn shader_stage_to_array_index(shader_type: ShaderStage) -> (r: usize)
        ensures
            r == pipeline_slot(shader_type),
    {
        match shader_type {
            ShaderStage::Vertex => 0,
            ShaderStage::TesselationControl => 1,
            ShaderStage::TesselationEvaluation => 2,
            ShaderStage::Geometry => 3,
            ShaderStage::Fragment => 4,
            ShaderStage::Compute => 5,
        }
    }

    /// The program stage bit of a stage.
    pub fn shader_stage_to_gl_bitfield(stage: ShaderStage) -> (r: u32)
        ensures
            stage == ShaderStage::Vertex ==> r == gl_enums::VERTEX_SHADER_BIT,
            stage == ShaderStage::TesselationControl ==> r == gl_enums::TESS_CONTROL_SHADER_BIT,
            stage == ShaderStage::TesselationEvaluation ==> r == gl_enums::TESS_EVALUATION_SHADER_BIT,
            stage == ShaderStage::Geometry ==> r == gl_enums::GEOMETRY_SHADER_BIT,
            stage == ShaderStage::Fragment ==> r == gl_enums::FRAGMENT_SHADER_BIT,
            stage == ShaderStage::Compute ==> r == gl_enums::COMPUTE_SHADER_BIT,
    {
        match stage {
            ShaderStage::Vertex => gl_enums::VERTEX_SHADER_BIT,
            ShaderStage::TesselationControl => gl_enums::TESS_CONTROL_SHADER_BIT,
            ShaderStage::TesselationEvaluation => gl_enums::TESS_EVALUATION_SHADER_BIT,
            ShaderStage::Geometry => gl_enums::GEOMETRY_SHADER_BIT,
            ShaderStage::Fragment => gl_enums::FRAGMENT_SHADER_BIT,
            ShaderStage::Compute => gl_enums::COMPUTE_SHADER_BIT,
        }
    }

    /// Whether a shader is attached to `stage` (adding another replaces it).
    pub fn has_shader(&self, stage: ShaderStage) -> (r: bool)
        requires
            self@.wf(),
        ensures
            r == (self@.shaders[pipeline_slot(stage)] is Some),
    {
        self.shaders[Self::shader_stage_to_array_index(stage)].is_some()
    }

    /// Attaches the shader object `shader` to its stage's slot.
    pub fn add_shader(self, stage: ShaderStage, shader: u32) -> (r: Self)
        requires
            self@.wf(),
        ensures
            r@ == (ProgramPipelineView {
                shaders: self@.shaders.update(pipeline_slot(stage), Some((stage, shader))),
                ..self@
            }),
    {
        let mut p = self;
        let idx = Self::shader_stage_to_array_index(stage);
        p.shaders.set(idx, Some((stage, shader)));
        p
    }

    /// The shaders to link, one program each, in stage order.
    pub fn shaders_to_link(&self) -> (r: Vec<(ShaderStage, u32)>)
        requires
            self@.wf(),
        ensures
            r@ == filled_shaders(self@.shaders),
    {
        let mut r: Vec<(ShaderStage, u32)> = Vec::new();
        let mut i: usize = 0;
        while i < 6
            invariant
                i <= 6,
                self@.wf(),
                r@ == filled_shaders(self@.shaders.take(i as int)),
            decreases 6 - i,
        {
            assert(self@.shaders.take(i + 1).drop_last() == self@.shaders.take(i as int));
            assert(self@.shaders.take(i + 1).last() == self@.shaders[i as int]);
            match self.shaders[i] {
                Some(s) => r.push(s),
                None => {},
            }
            i += 1;
        }
        assert(self@.shaders.take(6) == self@.shaders);
        r
    }

    /// Records the program linked for `stage`.
    pub fn set_program(&mut self, stage: ShaderStage, program: u32)
        requires
            old(self)@.wf(),
        ensures
            final(self)@ == (ProgramPipelineView {
                shader_programs: old(self)@.shader_programs.update(pipeline_slot(stage), Some(program)),
                ..old(self)@
            }),
    {
        let idx = Self::shader_stage_to_array_index(stage);
        self.shader_programs.set(idx, Some(program));
    }

    /// One step of building the pipeline: the program linked from the shader
    /// of `stage` is recorded when its link status is true; otherwise the
    /// pipeline is left as it is and the program's info log is the error
    /// that ends the build.
    pub fn record_link(&mut self, stage: ShaderStage, program: u32, link_status: i32, info_log: String) -> (r: Result<
        (),
        String,
    >)
        requires
            old(self)@.wf(),
        ensures
            link_status == gl_enums::TRUE ==> r is Ok && final(self)@ == (ProgramPipelineView {
                shader_programs: old(self)@.shader_programs.update(pipeline_slot(stage), Some(program)),
                ..old(self)@
            }),
            link_status != gl_enums::TRUE ==> r is Err && r->Err_0@ == info_log@ && final(self)@ == old(self)@,
    {
        if link_status != gl_enums::TRUE {
            Err(info_log)
        } else {
            self.set_program(stage, program);
            Ok(())
        }
    }

    /// The program linked for `stage`; `None` when the pipeline has no
    /// program for that stage.
    pub fn program_for_stage(&self, stage: ShaderStage) -> (r: Option<u32>)
        requires
            self@.wf(),
        ensures
            r == self@.shader_programs[pipeline_slot(stage)],
    {
        self.shader_programs[Self::shader_stage_to_array_index(stage)]
    }
}

} // verus!
