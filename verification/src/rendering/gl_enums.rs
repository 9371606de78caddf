//! OpenGL enumerant values (from the Khronos registry) that the engine's
//! decisions are expressed in.

use vstd::prelude::*;

verus! {

pub const R8: u32 = 0x8229;
pub const R16: u32 = 0x822A;
pub const RG8: u32 = 0x822B;
pub const RGB8: u32 = 0x8051;
pub const SRGB8: u32 = 0x8C41;
pub const RGBA8: u32 = 0x8058;
pub const SRGB8_ALPHA8: u32 = 0x8C43;
pub const RG16F: u32 = 0x822F;
pub const RGB16F: u32 = 0x881B;
pub const RGBA16F: u32 = 0x881A;
pub const RGB32F: u32 = 0x8815;
pub const RGBA32F: u32 = 0x8814;
pub const DEPTH_COMPONENT16: u32 = 0x81A5;
pub const DEPTH_COMPONENT24: u32 = 0x81A6;
pub const DEPTH_COMPONENT32: u32 = 0x81A7;
pub const DEPTH_COMPONENT32F: u32 = 0x8CAC;
pub const DEPTH32F_STENCIL8: u32 = 0x8CAD;
pub const DEPTH24_STENCIL8: u32 = 0x88F0;
pub const STENCIL_INDEX8: u32 = 0x8D48;

pub const RED: u32 = 0x1903;
pub const RG: u32 = 0x8227;
pub const RGB: u32 = 0x1907;
pub const RGBA: u32 = 0x1908;

pub const UNSIGNED_BYTE: u32 = 0x1401;
pub const UNSIGNED_INT: u32 = 0x1405;
pub const FLOAT: u32 = 0x1406;
pub const HALF_FLOAT: u32 = 0x140B;

pub const COLOR_ATTACHMENT0: u32 = 0x8CE0;
pub const DEPTH_ATTACHMENT: u32 = 0x8D00;
pub const DEPTH_STENCIL_ATTACHMENT: u32 = 0x821A;
pub const STENCIL_ATTACHMENT: u32 = 0x8D20;

pub const FRAMEBUFFER_COMPLETE: u32 = 0x8CD5;
pub const FRAMEBUFFER_UNDEFINED: u32 = 0x8219;
pub const FRAMEBUFFER_INCOMPLETE_ATTACHMENT: u32 = 0x8CD6;
pub const FRAMEBUFFER_INCOMPLETE_MISSING_ATTACHMENT: u32 = 0x8CD7;
pub const FRAMEBUFFER_INCOMPLETE_DRAW_BUFFER: u32 = 0x8CDB;

pub const SHADER_BINARY_FORMAT_SPIR_V_ARB: u32 = 0x9551;

pub const VERTEX_SHADER: u32 = 0x8B31;
pub const TESS_CONTROL_SHADER: u32 = 0x8E88;
pub const TESS_EVALUATION_SHADER: u32 = 0x8E87;
pub const GEOMETRY_SHADER: u32 = 0x8DD9;
pub const FRAGMENT_SHADER: u32 = 0x8B30;
pub const COMPUTE_SHADER: u32 = 0x91B9;

pub const VERTEX_SHADER_BIT: u32 = 0x01;
pub const FRAGMENT_SHADER_BIT: u32 = 0x02;
pub const GEOMETRY_SHADER_BIT: u32 = 0x04;
pub const TESS_CONTROL_SHADER_BIT: u32 = 0x08;
pub const TESS_EVALUATION_SHADER_BIT: u32 = 0x10;
pub const COMPUTE_SHADER_BIT: u32 = 0x20;

pub const MAP_READ_BIT: u32 = 0x0001;
pub const MAP_WRITE_BIT: u32 = 0x0002;
pub const MAP_PERSISTENT_BIT: u32 = 0x0040;
pub const MAP_COHERENT_BIT: u32 = 0x0080;
pub const DYNAMIC_STORAGE_BIT: u32 = 0x0100;
pub const CLIENT_STORAGE_BIT: u32 = 0x0200;

pub const ARRAY_BUFFER: u32 = 0x8892;
pub const ATOMIC_COUNTER_BUFFER: u32 = 0x92C0;
pub const COPY_READ_BUFFER: u32 = 0x8F36;
pub const COPY_WRITE_BUFFER: u32 = 0x8F37;
pub const DISPATCH_INDIRECT_BUFFER: u32 = 0x90EE;
pub const DRAW_INDIRECT_BUFFER: u32 = 0x8F3F;
pub const ELEMENT_ARRAY_BUFFER: u32 = 0x8893;
pub const PIXEL_PACK_BUFFER: u32 = 0x88EB;
pub const PIXEL_UNPACK_BUFFER: u32 = 0x88EC;
pub const QUERY_BUFFER: u32 = 0x9192;
pub const SHADER_STORAGE_BUFFER: u32 = 0x90D2;
pub const TEXTURE_BUFFER: u32 = 0x8C2A;
pub const TRANSFORM_FEEDBACK_BUFFER: u32 = 0x8C8E;
pub const UNIFORM_BUFFER: u32 = 0x8A11;

pub const NEAREST: u32 = 0x2600;
pub const LINEAR: u32 = 0x2601;
pub const NEAREST_MIPMAP_NEAREST: u32 = 0x2700;
pub const LINEAR_MIPMAP_NEAREST: u32 = 0x2701;
pub const LINEAR_MIPMAP_LINEAR: u32 = 0x2703;
pub const REPEAT: u32 = 0x2901;
pub const CLAMP_TO_EDGE: u32 = 0x812F;
pub const MIRRORED_REPEAT: u32 = 0x8370;

pub const ZERO: u32 = 0;
pub const ONE: u32 = 1;
pub const SRC_COLOR: u32 = 0x0300;
pub const ONE_MINUS_SRC_COLOR: u32 = 0x0301;
pub const SRC_ALPHA: u32 = 0x0302;
pub const ONE_MINUS_SRC_ALPHA: u32 = 0x0303;
pub const DST_ALPHA: u32 = 0x0304;
pub const ONE_MINUS_DST_ALPHA: u32 = 0x0305;
pub const DST_COLOR: u32 = 0x0306;
pub const ONE_MINUS_DST_COLOR: u32 = 0x0307;
pub const SRC_ALPHA_SATURATE: u32 = 0x0308;
pub const CONSTANT_COLOR: u32 = 0x8001;
pub const ONE_MINUS_CONSTANT_COLOR: u32 = 0x8002;
pub const CONSTANT_ALPHA: u32 = 0x8003;
pub const ONE_MINUS_CONSTANT_ALPHA: u32 = 0x8004;
pub const SRC1_ALPHA: u32 = 0x8589;
pub const SRC1_COLOR: u32 = 0x88F9;
pub const ONE_MINUS_SRC1_COLOR: u32 = 0x88FA;
pub const ONE_MINUS_SRC1_ALPHA: u32 = 0x88FB;

pub const LESS: u32 = 0x0201;
pub const LEQUAL: u32 = 0x0203;
pub const FRONT: u32 = 0x0404;
pub const BACK: u32 = 0x0405;
pub const CW: u32 = 0x0900;
pub const CCW: u32 = 0x0901;

/// GL's boolean true, as an integer query returns it.
pub const TRUE: i32 = 1;

pub const DEBUG_TYPE_ERROR: u32 = 0x824C;
pub const DEBUG_TYPE_DEPRECATED_BEHAVIOR: u32 = 0x824D;
pub const DEBUG_TYPE_UNDEFINED_BEHAVIOR: u32 = 0x824E;
pub const DEBUG_TYPE_PORTABILITY: u32 = 0x824F;
pub const DEBUG_TYPE_PERFORMANCE: u32 = 0x8250;
pub const DEBUG_TYPE_OTHER: u32 = 0x8251;
pub const DEBUG_TYPE_MARKER: u32 = 0x8268;
pub const DEBUG_TYPE_PUSH_GROUP: u32 = 0x8269;
pub const DEBUG_TYPE_POP_GROUP: u32 = 0x826A;
pub const DEBUG_SEVERITY_NOTIFICATION: u32 = 0x826B;
pub const DEBUG_SEVERITY_HIGH: u32 = 0x9146;
pub const DEBUG_SEVERITY_MEDIUM: u32 = 0x9147;
pub const DEBUG_SEVERITY_LOW: u32 = 0x9148;

} // verus!
