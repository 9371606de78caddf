use pbs_engine::material::{pbs_shader_create_info, PbsMetallicRoughnessMaterial};
use pbs_engine::math::UVec2;
use pbs_engine::postprocess::{bloom_shader_create_info, Bloom, BloomBuilder};
use pbs_engine::shader::shader_manager::ShaderManager;
use pbs_engine::shader::ShaderStage;

fn strings(v: &[&str]) -> Vec<String> {
    v.iter().map(|x| x.to_string()).collect()
}

fn programs_for(n: usize) -> Vec<u32> {
    (0..n as u32).map(|i| 100 + i).collect()
}

#[test]
fn bloom_shader_has_pass_and_filter_keywords() {
    let info = bloom_shader_create_info();
    assert_eq!(info.name, "Bloom Shader");
    assert_eq!(
        info.keyword_sets,
        vec![
            strings(&[
                "BLOOM_PASS_DOWNSAMPLE_PREFILTER",
                "BLOOM_PASS_DOWNSAMPLE",
                "BLOOM_PASS_UPSAMPLE",
                "BLOOM_PASS_UPSAMPLE_APPLY"
            ]),
            strings(&["_", "COD_AW_FILTERING"]),
        ]
    );
    assert_eq!(
        info.stages,
        vec![
            (ShaderStage::Vertex, "shaders/fullscreen.vert".to_string()),
            (ShaderStage::Fragment, "shaders/bloom.frag".to_string())
        ]
    );
}

#[test]
fn bloom_builder_defaults_and_build() {
    let b = Bloom::builder();
    assert_eq!((b.iterations, b.enabled), (4, true));
    let d = BloomBuilder::default();
    assert_eq!((d.iterations, d.enabled), (4, true));

    let info = bloom_shader_create_info();
    let combos = ShaderManager::extract_keyword_set_combinations(&info);
    let mut shaders = ShaderManager::new();
    let idx = shaders.create_shader(&info, &programs_for(combos.len()));
    // default: prefilter without the filter keyword (bitfield 1)
    assert_eq!(shaders.shader(idx).active_variant_bitfield(), 1);
    let bloom = Bloom::builder().iterations(6).enabled(false).build(&mut shaders, idx);
    assert_eq!(bloom.iterations(), 6);
    assert!(!bloom.enabled());
    assert!(bloom.blit_framebuffers().is_empty());
    assert_eq!(bloom.resolution_divisor(), 2);
    assert_eq!(bloom.shader(), idx);
    assert_eq!(bloom.name(), "bloom");
    // COD_AW_FILTERING has bit 16: prefilter + filter is the second combination
    assert_eq!(shaders.shader(idx).active_variant_bitfield(), 1 | 16);
    assert_eq!(shaders.shader(idx).active_variant(), 101);
    assert!(shaders.shader(idx).is_bound());
}

#[test]
fn bloom_filtering_method_switches_the_keyword() {
    let info = bloom_shader_create_info();
    let combos = ShaderManager::extract_keyword_set_combinations(&info);
    let mut shaders = ShaderManager::new();
    let idx = shaders.create_shader(&info, &programs_for(combos.len()));
    let mut bloom = Bloom::builder().build(&mut shaders, idx);
    bloom.set_filtering_method(&mut shaders, 1);
    assert_eq!(shaders.shader(idx).active_variant_bitfield(), 1);
    bloom.set_filtering_method(&mut shaders, 0);
    assert_eq!(shaders.shader(idx).active_variant_bitfield(), 17);
    bloom.record_blit_framebuffers(vec![1, 2]);
    bloom.set_iterations(3);
    assert_eq!(bloom.iterations(), 3);
    assert!(bloom.blit_framebuffers().is_empty());
    bloom.disable();
    assert!(!bloom.enabled());
    bloom.enable();
    assert!(bloom.enabled());
}

#[test]
fn downsampling_chain_halves_until_a_side_is_below_two() {
    let sizes = Bloom::downsampling_sizes(UVec2::new(1920, 1080), 2, 4);
    assert_eq!(
        sizes,
        vec![UVec2::new(960, 540), UVec2::new(480, 270), UVec2::new(240, 135), UVec2::new(120, 67)]
    );
    let sizes = Bloom::downsampling_sizes(UVec2::new(64, 16), 2, 10);
    assert_eq!(
        sizes,
        vec![UVec2::new(32, 8), UVec2::new(16, 4), UVec2::new(8, 2)]
    );
    // the first target is always made
    assert_eq!(Bloom::downsampling_sizes(UVec2::new(2, 2), 4, 3), vec![UVec2::new(0, 0)]);
    assert_eq!(Bloom::downsampling_sizes(UVec2::new(100, 100), 4, 0), vec![UVec2::new(25, 25)]);
    assert_eq!(Bloom::downsampling_sizes(UVec2::new(100, 100), 4, 1), vec![UVec2::new(25, 25)]);
}

#[test]
fn upsampling_goes_back_up_the_chain() {
    let info = bloom_shader_create_info();
    let combos = ShaderManager::extract_keyword_set_combinations(&info);
    let mut shaders = ShaderManager::new();
    let idx = shaders.create_shader(&info, &programs_for(combos.len()));
    let mut bloom = Bloom::builder().build(&mut shaders, idx);
    assert!(bloom.upsampling_targets().is_empty());
    bloom.record_blit_framebuffers(vec![10, 11, 12, 13]);
    assert_eq!(bloom.upsampling_targets(), vec![12, 11, 10]);
    bloom.record_blit_framebuffers(vec![7]);
    assert!(bloom.upsampling_targets().is_empty());
}

#[test]
fn material_enables_parallax_only_with_a_displacement_map() {
    let info = pbs_shader_create_info();
    assert_eq!(info.keyword_sets, vec![strings(&["_", "FEATURE_PARALLAX_MAPPING"])]);
    assert_eq!(info.stages[0], (ShaderStage::Vertex, "shaders/pbs.vert".to_string()));
    assert_eq!(info.stages[1], (ShaderStage::Fragment, "shaders/pbs.frag".to_string()));

    let mut shaders = ShaderManager::new();
    let plain = shaders.create_shader(&info, &vec![1, 2]);
    let parallax = shaders.create_shader(&info, &vec![3, 4]);
    let m = PbsMetallicRoughnessMaterial::new(&mut shaders, plain, 10, 11, 12, None, 13);
    assert_eq!(shaders.shader(plain).active_variant(), 1);
    assert!(!shaders.shader(plain).is_bound());
    assert_eq!(m.texture_bindings(), vec![(0, 10), (2, 11), (1, 12), (3, 13)]);
    let m = PbsMetallicRoughnessMaterial::new(&mut shaders, parallax, 10, 11, 12, Some(14), 13);
    assert_eq!(shaders.shader(parallax).active_variant(), 4);
    assert_eq!(m.texture_bindings(), vec![(0, 10), (2, 11), (1, 12), (3, 13), (6, 14)]);
}

#[test]
fn module_plan_reuses_cached_modules() {
    let mut shaders = ShaderManager::new();
    shaders.cache_modules(vec![("fullscreen.vert".to_string(), 5)]);
    assert_eq!(
        shaders.module_plan(&strings(&["fullscreen.vert", "bloom.frag"])),
        vec![Some(5), None]
    );
}
