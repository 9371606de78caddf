use pbs_engine::capabilities::spirv_supported;
use pbs_engine::shader::program::ShaderProgramBuilder;
use pbs_engine::shader::shader_manager::ShaderManager;
use pbs_engine::shader::{check_spirv_support, ShaderCreateInfo, ShaderStage};

fn s(v: &[&str]) -> Vec<String> {
    v.iter().map(|x| x.to_string()).collect()
}

fn bloom_like_info() -> ShaderCreateInfo {
    ShaderCreateInfo::builder("Bloom Shader")
        .stage(ShaderStage::Vertex, "fullscreen.vert".to_string())
        .stage(ShaderStage::Fragment, "bloom.frag".to_string())
        .keyword_set(&s(&["DOWN", "UP", "APPLY"]))
        .keyword_set(&s(&["_", "COD_AW"]))
        .build()
}

#[test]
fn builder_collects_stages_and_deduplicates_sets() {
    let info = ShaderCreateInfo::builder("PBS")
        .stage(ShaderStage::Vertex, "pbs.vert".to_string())
        .keyword_set(&s(&["_", "A", "_", "B", "A"]))
        .build();
    assert_eq!(info.name, "PBS");
    assert_eq!(info.stages, vec![(ShaderStage::Vertex, "pbs.vert".to_string())]);
    assert_eq!(info.keyword_sets, vec![s(&["_", "A", "B"])]);
}

#[test]
fn builder_without_sets_gets_placeholder_set() {
    let info = ShaderCreateInfo::builder("Plain").build();
    assert_eq!(info.keyword_sets, vec![s(&["_"])]);
}

#[test]
fn keyword_bits_are_single_bits_in_first_occurrence_order() {
    let info = ShaderCreateInfo::builder("X")
        .keyword_set(&s(&["_", "A"]))
        .keyword_set(&s(&["B", "A"]))
        .build();
    let map = ShaderManager::create_keyword_bitfield_map(&info);
    assert_eq!(map.len(), 3);
    assert_eq!(map.get(&"_".to_string()), Some(0));
    assert_eq!(map.get(&"A".to_string()), Some(1));
    assert_eq!(map.get(&"B".to_string()), Some(2));
    assert_eq!(map.get(&"C".to_string()), None);
}

#[test]
fn combinations_vary_the_last_set_fastest() {
    let info = bloom_like_info();
    let combos = ShaderManager::extract_keyword_set_combinations(&info);
    assert_eq!(
        combos,
        vec![
            s(&["DOWN", "_"]),
            s(&["DOWN", "COD_AW"]),
            s(&["UP", "_"]),
            s(&["UP", "COD_AW"]),
            s(&["APPLY", "_"]),
            s(&["APPLY", "COD_AW"]),
        ]
    );
}

#[test]
fn repeated_keywords_in_a_combination_count_once() {
    let info = ShaderCreateInfo::builder("X")
        .keyword_set(&s(&["_", "A"]))
        .keyword_set(&s(&["_", "A"]))
        .build();
    let combos = ShaderManager::extract_keyword_set_combinations(&info);
    assert_eq!(combos, vec![s(&["_"]), s(&["_", "A"]), s(&["A", "_"]), s(&["A"])]);
}

#[test]
fn variant_and_default_bitfields() {
    let info = bloom_like_info();
    let map = ShaderManager::create_keyword_bitfield_map(&info);
    // DOWN=1, UP=2, APPLY=4, _=0, COD_AW=8
    assert_eq!(ShaderManager::variant_bitfield(&s(&["UP", "COD_AW"]), &map), 10);
    assert_eq!(ShaderManager::variant_bitfield(&s(&["APPLY", "_"]), &map), 4);
    assert_eq!(ShaderManager::default_variant_bitfield(&info, &map), 1);
}

#[test]
fn compile_defines_drop_the_placeholder() {
    assert_eq!(ShaderManager::compile_defines(&s(&["_"])), None);
    assert_eq!(ShaderManager::compile_defines(&s(&[])), None);
    assert_eq!(
        ShaderManager::compile_defines(&s(&["UP", "_", "COD_AW"])),
        Some(s(&["UP", "COD_AW"]))
    );
}

fn created_bloom_shader() -> (ShaderManager, usize) {
    let info = bloom_like_info();
    let mut manager = ShaderManager::new();
    // one program per combination, in combination order
    let programs = vec![101, 102, 103, 104, 105, 106];
    let idx = manager.create_shader(&info, &programs);
    (manager, idx)
}

#[test]
fn created_shader_starts_on_default_variant() {
    let (manager, idx) = created_bloom_shader();
    assert_eq!(idx, 0);
    let shader = manager.shader(idx);
    assert_eq!(shader.name(), "Bloom Shader");
    assert_eq!(shader.active_variant_bitfield(), 1);
    assert_eq!(shader.active_variant(), 101);
    assert!(!shader.is_bound());
}

#[test]
fn find_shader_by_name() {
    let (mut manager, _) = created_bloom_shader();
    let info = ShaderCreateInfo::builder("Other").build();
    let idx = manager.create_shader(&info, &vec![7]);
    assert_eq!(idx, 1);
    assert_eq!(manager.find_shader("Other"), Some(1));
    assert_eq!(manager.find_shader("Bloom Shader"), Some(0));
    assert_eq!(manager.find_shader("Missing"), None);
    assert_eq!(manager.shader(1).active_variant(), 7);
}

#[test]
fn enabling_and_disabling_keywords_selects_variants() {
    let info = bloom_like_info();
    let map = ShaderManager::create_keyword_bitfield_map(&info);
    let combos = ShaderManager::extract_keyword_set_combinations(&info);
    let programs: Vec<u32> = combos.iter().map(|c| 1000 + ShaderManager::variant_bitfield(c, &map)).collect();
    let mut manager = ShaderManager::new();
    manager.create_shader(&info, &programs);
    let mut shader = pbs_engine::shader::Shader::new(
        "Bloom Shader".to_string(),
        ShaderManager::create_keyword_bitfield_map(&info),
        combos.iter().zip(programs.iter()).map(|(c, p)| (ShaderManager::variant_bitfield(c, &map), *p)).collect(),
        1,
    );
    assert_eq!(shader.enable_keyword(&"COD_AW".to_string()), Some(1009));
    assert!(shader.is_bound());
    assert_eq!(shader.active_variant_bitfield(), 9);
    // enabling twice changes nothing
    assert_eq!(shader.enable_keyword(&"COD_AW".to_string()), Some(1009));
    // no variant was compiled for COD_AW alone: the program stays
    assert_eq!(shader.disable_keyword(&"DOWN".to_string()), Some(1009));
    assert_eq!(shader.active_variant_bitfield(), 8);
    assert_eq!(shader.enable_keyword(&"UP".to_string()), Some(1010));
    assert_eq!(shader.disable_keyword(&"COD_AW".to_string()), Some(1002));
    assert_eq!(shader.active_variant_bitfield(), 2);
}

#[test]
fn unknown_keyword_changes_nothing() {
    let (manager, idx) = created_bloom_shader();
    let mut shader_manager = manager;
    let _ = &mut shader_manager;
    let info = bloom_like_info();
    let mut shader = pbs_engine::shader::Shader::new(
        "S".to_string(),
        ShaderManager::create_keyword_bitfield_map(&info),
        vec![(1, 55)],
        1,
    );
    assert_eq!(idx, 0);
    assert_eq!(shader.enable_keyword(&"NOPE".to_string()), None);
    assert_eq!(shader.disable_keyword(&"NOPE".to_string()), None);
    assert!(!shader.is_bound());
    assert_eq!(shader.active_variant(), 55);
}

#[test]
fn variant_without_program_keeps_current_one() {
    let info = bloom_like_info();
    let mut shader = pbs_engine::shader::Shader::new(
        "S".to_string(),
        ShaderManager::create_keyword_bitfield_map(&info),
        vec![(1, 55), (1, 56)],
        1,
    );
    // the latest program registered for a bitfield wins
    assert_eq!(shader.active_variant(), 56);
    assert_eq!(shader.enable_keyword(&"UP".to_string()), Some(56));
    assert_eq!(shader.active_variant_bitfield(), 3);
}

#[test]
fn bind_only_once_until_unbound() {
    let info = bloom_like_info();
    let mut shader = pbs_engine::shader::Shader::new(
        "S".to_string(),
        ShaderManager::create_keyword_bitfield_map(&info),
        vec![(1, 55)],
        1,
    );
    assert_eq!(shader.bind(), Some(55));
    assert_eq!(shader.bind(), None);
    shader.unbind();
    assert!(!shader.is_bound());
    assert_eq!(shader.bind(), Some(55));
}

#[test]
fn spirv_support_is_detected_from_binary_formats() {
    let spirv = pbs_engine::rendering::gl_enums::SHADER_BINARY_FORMAT_SPIR_V_ARB as i32;
    assert!(spirv_supported(&vec![1, spirv]));
    assert!(!spirv_supported(&vec![1, 2]));
    assert!(!spirv_supported(&vec![]));
    assert!(check_spirv_support(&vec![spirv]));
}

#[test]
fn stage_enums() {
    assert_eq!(ShaderStage::Vertex.gl_enum(), gl::VERTEX_SHADER);
    assert_eq!(ShaderStage::TesselationControl.gl_enum(), gl::TESS_CONTROL_SHADER);
    assert_eq!(ShaderStage::TesselationEvaluation.gl_enum(), gl::TESS_EVALUATION_SHADER);
    assert_eq!(ShaderStage::Geometry.gl_enum(), gl::GEOMETRY_SHADER);
    assert_eq!(ShaderStage::Fragment.gl_enum(), gl::FRAGMENT_SHADER);
    assert_eq!(ShaderProgramBuilder::shader_stage_to_gl_bitfield(ShaderStage::Fragment), gl::FRAGMENT_SHADER_BIT);
    assert_eq!(ShaderProgramBuilder::shader_stage_to_gl_bitfield(ShaderStage::Vertex), gl::VERTEX_SHADER_BIT);
    assert_eq!(ShaderProgramBuilder::shader_stage_to_array_index(ShaderStage::Geometry), 3);
}

#[test]
fn program_builder_keeps_one_module_per_stage() {
    let b = ShaderProgramBuilder::new()
        .with_shader_module(ShaderStage::Fragment, 2)
        .with_shader_module(ShaderStage::Vertex, 1);
    assert!(b.has_stage(ShaderStage::Vertex));
    assert!(!b.has_stage(ShaderStage::Geometry));
    let b = b.with_shader_module(ShaderStage::Vertex, 3);
    assert_eq!(
        b.stages_in_order(),
        vec![(ShaderStage::Vertex, 3), (ShaderStage::Fragment, 2)]
    );
}

#[test]
fn managed_shader_switches_keywords_in_place() {
    let (mut manager, idx) = created_bloom_shader();
    let info = ShaderCreateInfo::builder("Other").build();
    let other = manager.create_shader(&info, &vec![7]);
    // combinations in order: DOWN,_ / DOWN,COD_AW / UP,_ / UP,COD_AW / APPLY,_ / APPLY,COD_AW
    assert_eq!(manager.shader_mut(idx).enable_keyword(&"COD_AW".to_string()), Some(102));
    assert_eq!(manager.shader(idx).active_variant_bitfield(), 9);
    assert!(manager.shader(idx).is_bound());
    assert_eq!(manager.shader(other).active_variant(), 7);
    assert!(!manager.shader(other).is_bound());
}

#[test]
fn disabling_undoes_enabling_an_unset_keyword() {
    let (mut manager, idx) = created_bloom_shader();
    let shader = manager.shader_mut(idx);
    assert_eq!(shader.enable_keyword(&"COD_AW".to_string()), Some(102));
    assert_eq!(shader.disable_keyword(&"COD_AW".to_string()), Some(101));
    assert_eq!(shader.active_variant_bitfield(), 1);
    // disabling twice is the same as once
    assert_eq!(shader.disable_keyword(&"COD_AW".to_string()), Some(101));
    assert_eq!(shader.active_variant_bitfield(), 1);
}

#[test]
fn module_cache_finds_the_module_cached_last() {
    let mut manager = ShaderManager::new();
    assert_eq!(manager.cached_module(&"fullscreen.vert".to_string()), None);
    manager.cache_modules(vec![("fullscreen.vert".to_string(), 3), ("bloom.frag".to_string(), 4)]);
    manager.cache_modules(vec![("fullscreen.vert".to_string(), 9)]);
    assert_eq!(manager.cached_module(&"fullscreen.vert".to_string()), Some(9));
    assert_eq!(manager.cached_module(&"bloom.frag".to_string()), Some(4));
    assert_eq!(manager.cached_module(&"tonemap.frag".to_string()), None);
    // caching modules leaves the shaders alone
    let idx = manager.create_shader(&ShaderCreateInfo::builder("X").build(), &vec![5]);
    assert_eq!(manager.shader(idx).active_variant(), 5);
    assert_eq!(manager.cached_module(&"bloom.frag".to_string()), Some(4));
}

#[test]
fn failed_link_returns_its_log() {
    assert_eq!(ShaderProgramBuilder::check_link(1, String::new()), Ok(()));
    assert_eq!(
        ShaderProgramBuilder::check_link(0, "error: missing main".to_string()),
        Err("error: missing main".to_string())
    );
}

#[test]
fn one_variant_per_combination() {
    let info = ShaderCreateInfo::builder("X")
        .keyword_set(&s(&["A", "B", "C"]))
        .keyword_set(&s(&["_", "D"]))
        .keyword_set(&s(&["E", "F"]))
        .build();
    assert_eq!(ShaderManager::extract_keyword_set_combinations(&info).len(), 3 * 2 * 2);
}

#[test]
fn variant_sources_put_defines_after_the_version_line() {
    let defines = s(&["UP", "COD_AW"]);
    assert_eq!(
        ShaderManager::variant_source("#version 450\nvoid main() {}\n", &defines),
        "#version 450\n#define UP\n#define COD_AW\nvoid main() {}\n"
    );
    assert_eq!(
        ShaderManager::variant_source("void main() {}", &defines),
        "#define UP\n#define COD_AW\nvoid main() {}"
    );
    assert_eq!(ShaderManager::variant_source("#version 450", &defines), "#define UP\n#define COD_AW\n#version 450");
    assert_eq!(ShaderManager::variant_source("#version 450\nx", &vec![]), "#version 450\nx");
}

#[test]
fn compile_status_decides_the_module() {
    assert_eq!(ShaderProgramBuilder::check_compile(1, String::new()), Ok(()));
    assert_eq!(ShaderProgramBuilder::check_compile(0, "syntax error".to_string()), Err("syntax error".to_string()));
}
