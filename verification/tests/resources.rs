use pbs_engine::asset::{invalid_path_message, AssetCache, AssetManager};
use pbs_engine::buffer::{Buffer, BufferCopyInfo, BufferError, BufferStorageFlags, BufferTarget, RangeBinding};
use pbs_engine::device::{Device, DeviceInfo, DeviceLimits};
use pbs_engine::mesh::MeshUtilities;
use pbs_engine::postprocess::{PostprocessingStack, PostprocessingStackBuilder};
use pbs_engine::program_pipeline::{ProgramPipeline, ShaderStage};
use pbs_engine::sampler::{MagnificationFilter, MinificationFilter, WrappingMode};
use pbs_engine::state::{BlendFactor, DepthFunction, FaceCulling, FrontFace};
use pbs_engine::texture::{ColorType, GliFormat, SizedTextureFormat, TextureCube, TextureFormat, Utils};

fn flags(bits: u32) -> BufferStorageFlags {
    BufferStorageFlags::from_bits(bits)
}

#[test]
fn storage_flags_match_the_gl_bits() {
    assert_eq!(BufferStorageFlags::dynamic().bits(), gl::DYNAMIC_STORAGE_BIT);
    assert_eq!(BufferStorageFlags::map_read().bits(), gl::MAP_READ_BIT);
    assert_eq!(BufferStorageFlags::map_write().bits(), gl::MAP_WRITE_BIT);
    assert_eq!(BufferStorageFlags::map_persistent().bits(), gl::MAP_PERSISTENT_BIT);
    assert_eq!(BufferStorageFlags::map_read_write().bits(), gl::MAP_READ_BIT | gl::MAP_WRITE_BIT);
    assert_eq!(
        BufferStorageFlags::map_write_persistent_coherent().bits(),
        gl::MAP_WRITE_BIT | gl::MAP_PERSISTENT_BIT | gl::MAP_COHERENT_BIT
    );
    assert!(BufferStorageFlags::map_read_write().intersects(BufferStorageFlags::map_write()));
    assert!(!BufferStorageFlags::dynamic().intersects(BufferStorageFlags::map_write()));
}

#[test]
fn buffer_targets_match_the_gl_enums() {
    assert_eq!(BufferTarget::Unbound.gl_enum(), 0);
    assert_eq!(BufferTarget::Array.gl_enum(), gl::ARRAY_BUFFER);
    assert_eq!(BufferTarget::Uniform.gl_enum(), gl::UNIFORM_BUFFER);
    assert_eq!(BufferTarget::ShaderStorage.gl_enum(), gl::SHADER_STORAGE_BUFFER);
    assert_eq!(BufferTarget::ElementArray.gl_enum(), gl::ELEMENT_ARRAY_BUFFER);
    assert_eq!(BufferTarget::DrawIndirect.gl_enum(), gl::DRAW_INDIRECT_BUFFER);
    assert!(BufferTarget::Uniform.is_indexed());
    assert!(BufferTarget::AtomicCounter.is_indexed());
    assert!(BufferTarget::TransformFeedback.is_indexed());
    assert!(!BufferTarget::Array.is_indexed());
}

#[test]
fn new_buffer_is_unmapped() {
    let b = Buffer::new("Camera", 3, 256, BufferTarget::Uniform, BufferStorageFlags::dynamic());
    assert_eq!(b.get_id(), 3);
    assert_eq!(b.get_size(), 256);
    assert!(!b.is_mapped());
    assert!(b.needs_mapping());
    assert_eq!(b.get_storage_flags(), BufferStorageFlags::dynamic());
}

#[test]
fn bind_range_checks_target_and_extent() {
    let b = Buffer::new("Camera", 3, 256, BufferTarget::Uniform, BufferStorageFlags::dynamic());
    assert_eq!(b.check_bind_range(0, 256), Ok(()));
    assert_eq!(b.check_bind_range(128, 129), Err(BufferError::OutOfRange));
    assert_eq!(
        b.bind_range(2, 64, 128),
        RangeBinding { target: gl::UNIFORM_BUFFER, binding_index: 2, buffer: 3, offset: 64, size: 128 }
    );
    assert_eq!(
        b.bind(1),
        RangeBinding { target: gl::UNIFORM_BUFFER, binding_index: 1, buffer: 3, offset: 0, size: 256 }
    );
    let v = Buffer::new("Vertices", 4, 256, BufferTarget::Array, BufferStorageFlags::dynamic());
    assert_eq!(v.check_bind_range(0, 16), Err(BufferError::TargetNotIndexed));
}

#[test]
fn mapping_is_checked_and_recorded() {
    let mut b = Buffer::new("Lights", 5, 64, BufferTarget::ShaderStorage, BufferStorageFlags::map_write_persistent_coherent());
    assert_eq!(b.check_map_range(0, 64), Ok(()));
    assert_eq!(b.check_map_range(32, 64), Err(BufferError::OutOfRange));
    assert_eq!(b.check_fill_mapped(0, 64), Err(BufferError::NotMapped));
    b.record_mapping(false);
    assert!(!b.is_mapped());
    b.record_mapping(true);
    assert!(b.is_mapped());
    assert!(!b.needs_mapping());
    assert_eq!(b.check_fill_mapped(0, 64), Ok(()));
    assert_eq!(b.check_fill_mapped(0, 32), Err(BufferError::SizeMismatch));
    assert_eq!(b.check_fill_mapped(1, 64), Err(BufferError::OutOfRange));
    assert_eq!(b.check_fill_mapped(-8, 64), Err(BufferError::OutOfRange));
    b.unmap();
    assert!(!b.is_mapped());

    let fixed = Buffer::new("Fixed", 6, 64, BufferTarget::Uniform, flags(0));
    assert_eq!(fixed.check_map_range(0, 4), Err(BufferError::NotMappable));
    assert_eq!(fixed.check_fill(), Err(BufferError::NotDynamic));

    let mut read_only = Buffer::new("Readback", 7, 64, BufferTarget::Uniform, BufferStorageFlags::map_read());
    read_only.record_mapping(true);
    assert_eq!(read_only.check_fill_mapped(0, 64), Err(BufferError::NotWritable));
}

#[test]
fn dynamic_buffers_can_be_filled() {
    let b = Buffer::new("Camera", 3, 256, BufferTarget::Uniform, BufferStorageFlags::dynamic());
    assert_eq!(b.check_fill(), Ok(()));
}

#[test]
fn copies_are_checked_in_order() {
    let a = Buffer::new("A", 1, 100, BufferTarget::CopyRead, flags(0));
    let b = Buffer::new("B", 2, 100, BufferTarget::CopyWrite, flags(0));
    let info = |s: isize, d: isize, n: isize| (s, d, n);
    let check = |src: &Buffer, dst: &Buffer, (s, d, n): (isize, isize, isize)| {
        Buffer::check_copy(&BufferCopyInfo {
            source: src,
            destination: dst,
            source_offset: s,
            destination_offset: d,
            size: n,
        })
    };
    assert_eq!(check(&a, &b, info(1, 1, 10)), Ok(()));
    assert_eq!(check(&a, &b, info(0, 1, 10)), Err(BufferError::NonPositiveOffset));
    assert_eq!(check(&a, &b, info(1, 0, 10)), Err(BufferError::NonPositiveOffset));
    assert_eq!(check(&a, &b, info(1, 1, 0)), Err(BufferError::NonPositiveSize));
    assert_eq!(check(&a, &b, info(95, 1, 10)), Err(BufferError::OutOfRange));
    assert_eq!(check(&a, &b, info(1, 95, 10)), Err(BufferError::OutOfRange));
    // within one buffer only overlapping ranges are refused
    assert_eq!(check(&a, &a, info(1, 50, 10)), Ok(()));
    assert_eq!(check(&a, &a, info(1, 11, 10)), Ok(()));
    assert_eq!(check(&a, &a, info(11, 1, 10)), Ok(()));
    assert_eq!(check(&a, &a, info(1, 10, 10)), Err(BufferError::OverlappingRanges));
    assert_eq!(check(&a, &a, info(10, 1, 10)), Err(BufferError::OverlappingRanges));
    assert_eq!(check(&a, &a, info(5, 5, 10)), Err(BufferError::OverlappingRanges));

    let mut mapped = Buffer::new("M", 3, 100, BufferTarget::CopyRead, BufferStorageFlags::map_read());
    mapped.record_mapping(true);
    assert_eq!(check(&mapped, &b, info(1, 1, 10)), Err(BufferError::MappedNotPersistent));
    assert_eq!(check(&b, &mapped, info(1, 1, 10)), Err(BufferError::MappedNotPersistent));
    let mut persistent = Buffer::new("P", 4, 100, BufferTarget::CopyRead, BufferStorageFlags::map_write_persistent_coherent());
    persistent.record_mapping(true);
    assert_eq!(check(&persistent, &b, info(1, 1, 10)), Ok(()));
}

#[test]
fn image_layouts_pick_texture_formats() {
    assert_eq!(
        Utils::color_type_to_texture_formats(ColorType::Gray(8), true),
        Ok((SizedTextureFormat::R8, TextureFormat::Red))
    );
    assert_eq!(
        Utils::color_type_to_texture_formats(ColorType::GrayA(8), false),
        Ok((SizedTextureFormat::Rg8, TextureFormat::Rg))
    );
    assert_eq!(
        Utils::color_type_to_texture_formats(ColorType::RGB(8), true),
        Ok((SizedTextureFormat::Srgb8, TextureFormat::Rgb))
    );
    assert_eq!(
        Utils::color_type_to_texture_formats(ColorType::RGB(8), false),
        Ok((SizedTextureFormat::Rgb8, TextureFormat::Rgb))
    );
    assert_eq!(
        Utils::color_type_to_texture_formats(ColorType::RGBA(8), true),
        Ok((SizedTextureFormat::Srgb8A8, TextureFormat::Rgba))
    );
    assert_eq!(
        Utils::color_type_to_texture_formats(ColorType::RGBA(8), false),
        Ok((SizedTextureFormat::Rgba8, TextureFormat::Rgba))
    );
    assert_eq!(
        Utils::color_type_to_texture_formats(ColorType::BGRA(8), false),
        Err("Unsupported texture format.".to_string())
    );
    assert_eq!(
        Utils::color_type_to_texture_formats(ColorType::Palette(4), false),
        Err("Unsupported texture format.".to_string())
    );
}

#[test]
fn cube_map_formats() {
    assert_eq!(
        TextureCube::translate_gli_format_info(GliFormat::Rgb16SfloatPack16),
        (SizedTextureFormat::Rgb16f, TextureFormat::Rgb, gl::HALF_FLOAT)
    );
    assert_eq!(
        TextureCube::translate_gli_format_info(GliFormat::Rgba32SfloatPack32),
        (SizedTextureFormat::Rgba32f, TextureFormat::Rgba, gl::FLOAT)
    );
    assert_eq!(
        TextureCube::translate_gli_format_info(GliFormat::Rgb8UnormPack8),
        (SizedTextureFormat::Rgb8, TextureFormat::Rgb, gl::UNSIGNED_INT)
    );
    assert_eq!(
        TextureCube::translate_gli_format_info(GliFormat::Other(123)),
        (SizedTextureFormat::Rgba8, TextureFormat::Rgba, gl::UNSIGNED_INT)
    );
    assert_eq!(TextureCube::new(9).get_id(), 9);
}

#[test]
fn texture_format_enums_match_gl() {
    assert_eq!(SizedTextureFormat::Rgba16f.gl_enum(), gl::RGBA16F);
    assert_eq!(SizedTextureFormat::Srgb8A8.gl_enum(), gl::SRGB8_ALPHA8);
    assert_eq!(SizedTextureFormat::Depth24Stencil8.gl_enum(), gl::DEPTH24_STENCIL8);
    assert_eq!(SizedTextureFormat::Depth32f.gl_enum(), gl::DEPTH_COMPONENT32F);
    assert_eq!(SizedTextureFormat::StencilIndex8.gl_enum(), gl::STENCIL_INDEX8);
    assert_eq!(TextureFormat::Rgba.gl_enum(), gl::RGBA);
    assert_eq!(TextureFormat::Red.gl_enum(), gl::RED);
    assert!(SizedTextureFormat::Rgb16f.is_floating_point());
    assert!(SizedTextureFormat::Depth32fStencil8.is_floating_point());
    assert!(!SizedTextureFormat::Rgba8.is_floating_point());
    assert!(!SizedTextureFormat::Depth24.is_floating_point());
}

#[test]
fn box_faces_are_split_into_two_triangles() {
    let indices = MeshUtilities::quad_indices(24);
    assert_eq!(indices.len(), 36);
    assert_eq!(&indices[0..6], &[0, 2, 1, 1, 2, 3]);
    assert_eq!(&indices[6..12], &[4, 6, 5, 5, 6, 7]);
    assert_eq!(&indices[30..36], &[20, 22, 21, 21, 22, 23]);
    assert!(MeshUtilities::quad_indices(0).is_empty());
}

#[test]
fn triangle_faces_are_flattened() {
    let faces = vec![[0u32, 1, 2], [2, 3, 0]];
    assert_eq!(MeshUtilities::triangle_indices(&faces), vec![0, 1, 2, 2, 3, 0]);
    assert!(MeshUtilities::triangle_indices(&vec![]).is_empty());
}

#[test]
fn device_info_keeps_the_queried_limits() {
    let limits = DeviceLimits {
        max_framebuffer_width: 16384,
        max_framebuffer_height: 8192,
        max_texture_size: 32768,
        max_cube_map_texture_size: 4096,
        max_texture_image_units: 32,
        max_uniform_buffer_bindings: 84,
        max_uniform_block_size: 65536,
        max_uniform_locations: 1024,
    };
    let info = DeviceInfo::new("4.6.0 NVIDIA".to_string(), limits);
    assert_eq!(info.version(), "4.6.0 NVIDIA");
    assert_eq!(info.max_framebuffer_width(), 16384);
    assert_eq!(info.max_texture_size(), 32768);
    assert_eq!(info.max_framebuffer_height(), 8192);
    let device = Device::new(info);
    assert_eq!(device.info().max_framebuffer_height(), 8192);
}

#[test]
fn pipeline_links_filled_stages_in_order() {
    let p = ProgramPipeline::new(11)
        .add_shader(ShaderStage::Fragment, 2)
        .add_shader(ShaderStage::Vertex, 1);
    assert_eq!(p.id(), 11);
    assert!(p.has_shader(ShaderStage::Vertex));
    assert!(!p.has_shader(ShaderStage::Compute));
    assert_eq!(p.shaders_to_link(), vec![(ShaderStage::Vertex, 1), (ShaderStage::Fragment, 2)]);
    let mut p = p;
    assert_eq!(p.program_for_stage(ShaderStage::Vertex), None);
    p.set_program(ShaderStage::Vertex, 40);
    assert_eq!(p.program_for_stage(ShaderStage::Vertex), Some(40));
    assert_eq!(ProgramPipeline::shader_stage_to_array_index(ShaderStage::Compute), 5);
    assert_eq!(ProgramPipeline::shader_stage_to_gl_bitfield(ShaderStage::Compute), gl::COMPUTE_SHADER_BIT);
    assert_eq!(ProgramPipeline::shader_stage_to_gl_bitfield(ShaderStage::Geometry), gl::GEOMETRY_SHADER_BIT);
}

#[test]
fn state_and_sampler_enums_match_gl() {
    assert_eq!(BlendFactor::SourceAlpha.gl_enum(), gl::SRC_ALPHA);
    assert_eq!(BlendFactor::OneMinusSourceAlpha.gl_enum(), gl::ONE_MINUS_SRC_ALPHA);
    assert_eq!(BlendFactor::Source1Color.gl_enum(), gl::SRC1_COLOR);
    assert_eq!(DepthFunction::LessOrEqual.gl_enum(), gl::LEQUAL);
    assert_eq!(FaceCulling::Back.gl_enum(), gl::BACK);
    assert_eq!(FrontFace::CounterClockwise.gl_enum(), gl::CCW);
    assert_eq!(MinificationFilter::LinearMipmapLinear.gl_enum(), gl::LINEAR_MIPMAP_LINEAR);
    assert_eq!(MagnificationFilter::Nearest.gl_enum(), gl::NEAREST);
    assert_eq!(WrappingMode::ClampToEdge.gl_enum(), gl::CLAMP_TO_EDGE);
    assert_eq!(WrappingMode::MirroredRepeat.gl_enum(), gl::MIRRORED_REPEAT);
}

#[test]
fn postprocessing_runs_enabled_effects_in_order() {
    let stack: PostprocessingStack<&str> = PostprocessingStackBuilder::new()
        .with_effect("bloom")
        .with_effect("tone map")
        .with_effect("depth of field")
        .build();
    assert!(stack.enabled());
    assert_eq!(stack.len(), 3);
    assert_eq!(*stack.effect(1), "tone map");
    assert_eq!(stack.effects_to_apply(&vec![true, false, true]), vec![0, 2]);
    let mut stack = stack;
    stack.add_effect("grain");
    assert_eq!(stack.len(), 4);
    stack.set_enabled(false);
    assert!(stack.effects_to_apply(&vec![true, true, true, true]).is_empty());
    let off: PostprocessingStack<u8> = PostprocessingStackBuilder::new().with_effect(1).enabled(false).build();
    assert!(!off.enabled());
}

#[test]
fn asset_cache_keeps_the_first_asset_under_a_name() {
    let mut cache: AssetCache<u32> = AssetCache::new();
    assert_eq!(cache.get("a.png"), None);
    cache.insert_if_absent("a.png".to_string(), 1);
    cache.insert_if_absent("b.png".to_string(), 2);
    cache.insert_if_absent("a.png".to_string(), 3);
    assert_eq!(cache.get("a.png"), Some(&1));
    assert_eq!(cache.get("b.png"), Some(&2));
    assert_eq!(cache.get("c.png"), None);

    let mut manager: AssetManager<u32, u32, u32, u32> = AssetManager::new();
    assert_eq!(manager.get_texture_2d("a.png"), None);
    manager.textures.insert_if_absent("a.png".to_string(), 7);
    manager.meshes.insert_if_absent("box.obj".to_string(), 8);
    manager.cube_maps.insert_if_absent("sky.ktx".to_string(), 9);
    assert_eq!(manager.get_texture_2d("a.png"), Some(&7));
    assert_eq!(manager.get_mesh("box.obj"), Some(&8));
    assert_eq!(manager.get_texture_cube("sky.ktx"), Some(&9));
    assert_eq!(manager.get_mesh("a.png"), None);
    assert_eq!(invalid_path_message(), "Invalid file path.");
}

#[test]
fn mip_level_counts() {
    assert_eq!(Utils::mip_level_count(256, 64, true), 9);
    assert_eq!(Utils::mip_level_count(64, 256, true), 9);
    assert_eq!(Utils::mip_level_count(300, 5, true), 9);
    assert_eq!(Utils::mip_level_count(511, 511, true), 9);
    assert_eq!(Utils::mip_level_count(512, 1, true), 10);
    assert_eq!(Utils::mip_level_count(1, 1, true), 1);
    assert_eq!(Utils::mip_level_count(0, 0, true), i32::MIN);
    assert_eq!(Utils::mip_level_count(0, 0, false), 1);
    assert_eq!(Utils::mip_level_count(u32::MAX, 1, true), 32);
    assert_eq!(Utils::mip_level_count(256, 64, false), 1);
}

#[test]
fn pipeline_build_stops_at_a_failed_link() {
    let mut p = ProgramPipeline::new(3).add_shader(ShaderStage::Vertex, 1).add_shader(ShaderStage::Fragment, 2);
    assert_eq!(p.record_link(ShaderStage::Vertex, 10, 1, String::new()), Ok(()));
    assert_eq!(p.program_for_stage(ShaderStage::Vertex), Some(10));
    assert_eq!(p.record_link(ShaderStage::Fragment, 11, 0, "link failed".to_string()), Err("link failed".to_string()));
    assert_eq!(p.program_for_stage(ShaderStage::Fragment), None);
}
