//! Texture sampling parameters.

use vstd::prelude::*;
use crate::rendering::gl_enums;

verus! {

/// Filters for minified texels.
#[derive(Debug, Clone, Copy, PartialEq, Eq, Structural)]
pub enum MinificationFilter {
    Nearest,
    Linear,
    NearestMipmapNearest,
    LinearMipmapNearest,
    LinearMipmapLinear,
}

impl MinificationFilter {
    pub fn gl_enum(&self) -> (r: u32)
        ensures
            *self == MinificationFilter::Nearest ==> r == gl_enums::NEAREST,
            *self == MinificationFilter::Linear ==> r == gl_enums::LINEAR,
            *self == MinificationFilter::NearestMipmapNearest ==> r == gl_enums::NEAREST_MIPMAP_NEAREST,
            *self == MinificationFilter::LinearMipmapNearest ==> r == gl_enums::LINEAR_MIPMAP_NEAREST,
            *self == MinificationFilter::LinearMipmapLinear ==> r == gl_enums::LINEAR_MIPMAP_LINEAR,
    {
        match self {
            MinificationFilter::Nearest => gl_enums::NEAREST,
            MinificationFilter::Linear => gl_enums::LINEAR,
            MinificationFilter::NearestMipmapNearest => gl_enums::NEAREST_MIPMAP_NEAREST,
            MinificationFilter::LinearMipmapNearest => gl_enums::LINEAR_MIPMAP_NEAREST,
            MinificationFilter::LinearMipmapLinear => gl_enums::LINEAR_MIPMAP_LINEAR,
        }
    }
}

/// Filters for magnified texels.
#[derive(Debug, Clone, Copy, PartialEq, Eq, Structural)]
pub enum MagnificationFilter {
    Nearest,
    Linear,
}

impl MagnificationFilter {
    pub fn gl_enum(&self) -> (r: u32)
        ensures
            *self == MagnificationFilter::Nearest ==> r == gl_enums::NEAREST,
            *self == MagnificationFilter::Linear ==> r == gl_enums::LINEAR,
    {
        match self {
            MagnificationFilter::Nearest => gl_enums::NEAREST,
            MagnificationFilter::Linear => gl_enums::LINEAR,
        }
    }
}

/// How coordinates outside the texture wrap.
#[derive(Debug, Clone, Copy, PartialEq, Eq, Structural)]
pub enum WrappingMode {
    Repeat,
    ClampToEdge,
    MirroredRepeat,
}

impl WrappingMode {
    pub fn gl_enum(&self) -> (r: u32)
        ensures
            *self == WrappingMode::Repeat ==> r == gl_enums::REPEAT,
            *self == WrappingMode::ClampToEdge ==> r == gl_enums::CLAMP_TO_EDGE,
            *self == WrappingMode::MirroredRepeat ==> r == gl_enums::MIRRORED_REPEAT,
    {
        match self {
            WrappingMode::Repeat => gl_enums::REPEAT,
            WrappingMode::ClampToEdge => gl_enums::CLAMP_TO_EDGE,
            WrappingMode::MirroredRepeat => gl_enums::MIRRORED_REPEAT,
        }
    }
}

} // verus!
