//! Shader programs assembled from one module per stage.

use vstd::prelude::*;
use crate::rendering::gl_enums;
use crate::rendering::shader::ShaderStage;

verus! {

/// The slot of a stage in a program: stages in pipeline order.
pub open spec fn stage_slot(stage: ShaderStage) -> int {
    match stage {
        ShaderStage::Vertex => 0,
        ShaderStage::TesselationControl => 1,
        ShaderStage::TesselationEvaluation => 2,
        ShaderStage::Geometry => 3,
        ShaderStage::Fragment => 4,
    }
}

/// The stage held by a slot.
pub open spec fn slot_stage(slot: int) -> ShaderStage {
    if slot == 0 {
        ShaderStage::Vertex
    } else if slot == 1 {
        ShaderStage::TesselationControl
    } else if slot == 2 {
        ShaderStage::TesselationEvaluation
    } else if slot == 3 {
        ShaderStage::Geometry
    } else {
        ShaderStage::Fragment
    }
}

/// The modules of the filled slots, in slot order.
pub open spec fn filled_slots(modules: Seq<Option<u32>>) -> Seq<(ShaderStage, u32)>
    decreases modules.len(),
{
    if modules.len() == 0 {
        seq![]
    } else {
        let rest = filled_slots(modules.drop_last());
        match modules.last() {
            Some(m) => rest.push((slot_stage(modules.len() - 1), m)),
            None => rest,
        }
    }
}

/// Collects at most one shader module per stage; a later module for the
/// same stage replaces the earlier one.
pub struct ShaderProgramBuilder {
    modules: Vec<Option<u32>>,
}

impl View for ShaderProgramBuilder {
    type V = Seq<Option<u32>>;

    closed spec fn view(&self) -> Seq<Option<u32>> {
        self.modules@
    }
}

impl ShaderProgramBuilder {
    /// The outcome of compiling one shader module: success when the compile
    /// status is true, else the module's info log as the error.
    pub fn check_compile(compile_status: i32, info_log: String) -> (r: Result<(), String>)
        ensures
            compile_status == gl_enums::TRUE ==> r is Ok,
            compile_status != gl_enums::TRUE ==> r is Err && r->Err_0@ == info_log@,
    {
        if compile_status != gl_enums::TRUE {
            Err(info_log)
        } else {
            Ok(())
        }
    }

    /// The outcome of linking one stage's program: success when the link
    /// status is true, else the program's info log as the error, which ends
    /// the build.
    pub fn check_link(link_status: i32, info_log: String) -> (r: Result<(), String>)
        ensures
            link_status == gl_enums::TRUE ==> r is Ok,
            link_status != gl_enums::TRUE ==> r is Err && r->Err_0@ == info_log@,
    {
        if link_status != gl_enums::TRUE {
            Err(info_log)
        } else {
            Ok(())
        }
    }

    /// A builder with every stage empty.
    pub fn new() -> (r: Self)
        ensures
            r@ == seq![None::<u32>, None, None, None, None],
    {
        let mut modules: Vec<Option<u32>> = Vec::new();
        modules.push(None);
        modules.push(None);
        modules.push(None);
        modules.push(None);
        modules.push(None);
        assert(modules@ =~= seq![None::<u32>, None, None, None, None]);
        ShaderProgramBuilder { modules }
    }

    /// The slot of a stage.
    pub fn shader_stage_to_array_index(shader_type: ShaderStage) -> (r: usize)
        ensures
            r == stage_slot(shader_type),
    {
        match shader_type {
            ShaderStage::Vertex => 0,
            ShaderStage::TesselationControl => 1,
            ShaderStage::TesselationEvaluation => 2,
            ShaderStage::Geometry => 3,
            ShaderStage::Fragment => 4,
        }
    }

    /// The program stage bit of a stage.
    pub fn shader_stage_to_gl_bitfield(stage: ShaderStage) -> (r: u32)
        ensures
            stage == ShaderStage::Vertex ==> r == gl_enums::VERTEX_SHADER_BIT,
            stage == ShaderStage::TesselationControl ==> r == gl_enums::TESS_CONTROL_SHADER_BIT,
            stage == ShaderStage::TesselationEvaluation ==> r == gl_enums::TESS_EVALUATION_SHADER_BIT,
            stage == ShaderStage::Geometry ==> r == gl_enums::GEOMETRY_SHADER_BIT,
            stage == ShaderStage::Fragment ==> r == gl_enums::FRAGMENT_SHADER_BIT,
    {
        match stage {
            ShaderStage::Vertex => gl_enums::VERTEX_SHADER_BIT,
            ShaderStage::TesselationControl => gl_enums::TESS_CONTROL_SHADER_BIT,
            ShaderStage::TesselationEvaluation => gl_enums::TESS_EVALUATION_SHADER_BIT,
            ShaderStage::Geometry => gl_enums::GEOMETRY_SHADER_BIT,
            ShaderStage::Fragment => gl_enums::FRAGMENT_SHADER_BIT,
        }
    }

    /// Whether a module for `stage` was added already (a new one replaces it).
    pub fn has_stage(&self, stage: ShaderStage) -> (r: bool)
        requires
            self@.len() == 5,
        ensures
            r == (self@[stage_slot(stage)] is Some),
    {
        self.modules[Self::shader_stage_to_array_index(stage)].is_some()
    }

    /// Puts the module `module` (of stage `stage`) into its stage's slot.
    pub fn with_shader_module(self, stage: ShaderStage, module: u32) -> (r: Self)
        requires
            self@.len() == 5,
        ensures
            r@ == self@.update(stage_slot(stage), Some(module)),
    {
        let mut b = self;
        let idx = Self::shader_stage_to_array_index(stage);
        b.modules.set(idx, Some(module));
        b
    }

    /// The modules the program is linked from, in stage order.
    pub fn stages_in_order(&self) -> (r: Vec<(ShaderStage, u32)>)
        requires
            self@.len() == 5,
        ensures
            r@ == filled_slots(self@),
    {
        let mut r: Vec<(ShaderStage, u32)> = Vec::new();
        let mut i: usize = 0;
        while i < 5
            invariant
                i <= 5,
                self@.len() == 5,
                r@ == filled_slots(self@.take(i as int)),
            decreases 5 - i,
        {
            assert(self@.take(i + 1).drop_last() == self@.take(i as int));
            assert(self@.take(i + 1).last() == self@[i as int]);
            let stage = if i == 0 {
                ShaderStage::Vertex
            } else if i == 1 {
                ShaderStage::TesselationControl
            } else if i == 2 {
                ShaderStage::TesselationEvaluation
            } else if i == 3 {
                ShaderStage::Geometry
            } else {
                ShaderStage::Fragment
            };
            match self.modules[i] {
                Some(m) => r.push((stage, m)),
                None => {},
            }
            i += 1;
        }
        assert(self@.take(5) == self@);
        r
    }
}

} // verus!
