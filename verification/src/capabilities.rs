//! What the graphics device can do.

use vstd::prelude::*;
use crate::rendering::gl_enums;
use crate::rendering::shader::check_spirv_support;

verus! {

/// Whether shaders can be loaded as SPIR-V binaries, given the shader binary
/// formats the device reports.
pub fn spirv_supported(binary_formats: &Vec<i32>) -> (r: bool)
    ensures
        r == binary_formats@.contains(gl_enums::SHADER_BINARY_FORMAT_SPIR_V_ARB as i32),
{
    check_spirv_support(binary_formats)
}

} // verus!
