//! The physically based metallic-roughness material: its shader, the
//! parallax keyword and the texture units its maps are bound to.

use vstd::prelude::*;
use crate::rendering::shader::keywords::{placeholder, placeholder_keyword};
use crate::rendering::shader::shader_manager::ShaderManager;
use crate::rendering::shader::{keyword_enabled, ShaderCreateInfo, ShaderStage};

verus! {

pub const ALBEDO_MAP_BINDING_INDEX: u32 = 0;
pub const NORMAL_MAP_BINDING_INDEX: u32 = 1;
pub const M_R_AO_MAP_BINDING_INDEX: u32 = 2;
pub const BRDF_LUT_MAP_BINDING_INDEX: u32 = 3;
pub const MATERIAL_UBO_BINDING_INDEX: u32 = 4;
pub const DISPLACEMENT_MAP_BINDING_INDEX: u32 = 6;

/// The keyword that turns parallax mapping on.
pub open spec fn parallax_mapping() -> Seq<char> {
    "FEATURE_PARALLAX_MAPPING"@
}

/// The shader of the material: its vertex and fragment stages, and parallax
/// mapping as its one optional feature.
pub fn pbs_shader_create_info() -> (r: ShaderCreateInfo)
    ensures
        r.name@ == "PBS Shader"@,
        r.keyword_sets.deep_view() == seq![seq![placeholder(), parallax_mapping()]],
        r.stages@.len() == 2,
        r.stages@[0].0 == ShaderStage::Vertex,
        r.stages@[0].1@ == "shaders/pbs.vert"@,
        r.stages@[1].0 == ShaderStage::Fragment,
        r.stages@[1].1@ == "shaders/pbs.frag"@,
{
    let mut features: Vec<String> = Vec::new();
    features.push(placeholder_keyword());
    features.push(String::from_str("FEATURE_PARALLAX_MAPPING"));
    assert(features.deep_view() =~= seq![placeholder(), parallax_mapping()]);
    let mut keyword_sets: Vec<Vec<String>> = Vec::new();
    keyword_sets.push(features);
    assert(keyword_sets.deep_view() =~= seq![seq![placeholder(), parallax_mapping()]]);
    let mut stages: Vec<(ShaderStage, String)> = Vec::new();
    stages.push((ShaderStage::Vertex, String::from_str("shaders/pbs.vert")));
    stages.push((ShaderStage::Fragment, String::from_str("shaders/pbs.frag")));
    ShaderCreateInfo { name: String::from_str("PBS Shader"), keyword_sets, stages }
}

/// A metallic-roughness material: its texture objects (albedo, metallic /
/// roughness / ambient occlusion, normals, an optional displacement map, and
/// the lookup table of the image-based BRDF) and the index of its shader.
pub struct PbsMetallicRoughnessMaterial {
    pub albedo: u32,
    pub metallic_roughness_ao: u32,
    pub normals: u32,
    pub displacement: Option<u32>,
    pub ibl_brdf_lut: u32,
    pub shader: usize,
}

/// The texture units the material's maps are bound to, in binding order;
/// the displacement map only when there is one.
pub open spec fn material_bindings(m: PbsMetallicRoughnessMaterial) -> Seq<(u32, u32)> {
    let maps = seq![
        (ALBEDO_MAP_BINDING_INDEX, m.albedo),
        (M_R_AO_MAP_BINDING_INDEX, m.metallic_roughness_ao),
        (NORMAL_MAP_BINDING_INDEX, m.normals),
        (BRDF_LUT_MAP_BINDING_INDEX, m.ibl_brdf_lut),
    ];
    match m.displacement {
        Some(d) => maps.push((DISPLACEMENT_MAP_BINDING_INDEX, d)),
        None => maps,
    }
}

impl PbsMetallicRoughnessMaterial {
    /// A material around the shader at index `shader`; parallax mapping is
    /// enabled on the shader exactly when there is a displacement map.
    pub fn new(
        shaders: &mut ShaderManager,
        shader: usize,
        albedo: u32,
        metallic_roughness_ao: u32,
        normals: u32,
        displacement: Option<u32>,
        ibl_brdf_lut: u32,
    ) -> (r: Self)
        requires
            shader < old(shaders)@.len(),
        ensures
            r == (PbsMetallicRoughnessMaterial {
                albedo,
                metallic_roughness_ao,
                normals,
                displacement,
                ibl_brdf_lut,
                shader,
            }),
            displacement is Some ==> final(shaders)@ == old(shaders)@.update(
                shader as int,
                keyword_enabled(old(shaders)@[shader as int], parallax_mapping()),
            ),
            displacement is None ==> final(shaders)@ == old(shaders)@,
            final(shaders).modules() == old(shaders).modules(),
    {
        if displacement.is_some() {
            let keyword = String::from_str("FEATURE_PARALLAX_MAPPING");
            let _ = shaders.shader_mut(shader).enable_keyword(&keyword);
        }
        PbsMetallicRoughnessMaterial { albedo, metallic_roughness_ao, normals, displacement, ibl_brdf_lut, shader }
    }

    /// The texture unit and texture object of each map to bind before
    /// drawing with the material.
    pub fn texture_bindings(&self) -> (r: Vec<(u32, u32)>)
        ensures
            r@ == material_bindings(*self),
    {
        let mut r: Vec<(u32, u32)> = Vec::new();
        r.push((ALBEDO_MAP_BINDING_INDEX, self.albedo));
        r.push((M_R_AO_MAP_BINDING_INDEX, self.metallic_roughness_ao));
        r.push((NORMAL_MAP_BINDING_INDEX, self.normals));
        r.push((BRDF_LUT_MAP_BINDING_INDEX, self.ibl_brdf_lut));
        match self.displacement {
            Some(d) => r.push((DISPLACEMENT_MAP_BINDING_INDEX, d)),
            None => {},
        }
        assert(r@ =~= material_bindings(*self));
        r
    }
}

} // verus!
