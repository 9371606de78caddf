//! Fixed-function pipeline state the engine sets.

use vstd::prelude::*;
use crate::rendering::gl_enums;

verus! {

/// Pipeline state changes; the host issues them.
pub struct StateManager;

/// Blend equation factors.
#[derive(Debug, Clone, Copy, PartialEq, Eq, Structural)]
pub enum BlendFactor {
    Zero,
    One,
    SourceColor,
    OneMinusSourceColor,
    DestinationColor,
    OneMinusDestinationColor,
    SourceAlpha,
    OneMinusSourceAlpha,
    DestinationAlpha,
    OneMinusDestinationAlpha,
    ConstantColor,
    OneMinusConstantColor,
    ConstantAlpha,
    OneMinusConstantAlpha,
    SourceAlphaSaturate,
    Source1Color,
    OneMinusSource1Color,
    Source1Alpha,
    OneMinusSource1Alpha,
}

impl BlendFactor {
    /// The OpenGL enumerant of the factor.
    pub open spec fn gl_value(self) -> u32 {
        match self {
            BlendFactor::Zero => gl_enums::ZERO,
            BlendFactor::One => gl_enums::ONE,
            BlendFactor::SourceColor => gl_enums::SRC_COLOR,
            BlendFactor::OneMinusSourceColor => gl_enums::ONE_MINUS_SRC_COLOR,
            BlendFactor::DestinationColor => gl_enums::DST_COLOR,
            BlendFactor::OneMinusDestinationColor => gl_enums::ONE_MINUS_DST_COLOR,
            BlendFactor::SourceAlpha => gl_enums::SRC_ALPHA,
            BlendFactor::OneMinusSourceAlpha => gl_enums::ONE_MINUS_SRC_ALPHA,
            BlendFactor::DestinationAlpha => gl_enums::DST_ALPHA,
            BlendFactor::OneMinusDestinationAlpha => gl_enums::ONE_MINUS_DST_ALPHA,
            BlendFactor::ConstantColor => gl_enums::CONSTANT_COLOR,
            BlendFactor::OneMinusConstantColor => gl_enums::ONE_MINUS_CONSTANT_COLOR,
            BlendFactor::ConstantAlpha => gl_enums::CONSTANT_ALPHA,
            BlendFactor::OneMinusConstantAlpha => gl_enums::ONE_MINUS_CONSTANT_ALPHA,
            BlendFactor::SourceAlphaSaturate => gl_enums::SRC_ALPHA_SATURATE,
            BlendFactor::Source1Color => gl_enums::SRC1_COLOR,
            BlendFactor::OneMinusSource1Color => gl_enums::ONE_MINUS_SRC1_COLOR,
            BlendFactor::Source1Alpha => gl_enums::SRC1_ALPHA,
            BlendFactor::OneMinusSource1Alpha => gl_enums::ONE_MINUS_SRC1_ALPHA,
        }
    }

    /// The OpenGL enumerant of the factor.
    pub fn gl_enum(&self) -> (r: u32)
        ensures
            r == self.gl_value(),
    {
        match self {
            BlendFactor::Zero => gl_enums::ZERO,
            BlendFactor::One => gl_enums::ONE,
            BlendFactor::SourceColor => gl_enums::SRC_COLOR,
            BlendFactor::OneMinusSourceColor => gl_enums::ONE_MINUS_SRC_COLOR,
            BlendFactor::DestinationColor => gl_enums::DST_COLOR,
            BlendFactor::OneMinusDestinationColor => gl_enums::ONE_MINUS_DST_COLOR,
            BlendFactor::SourceAlpha => gl_enums::SRC_ALPHA,
            BlendFactor::OneMinusSourceAlpha => gl_enums::ONE_MINUS_SRC_ALPHA,
            BlendFactor::DestinationAlpha => gl_enums::DST_ALPHA,
            BlendFactor::OneMinusDestinationAlpha => gl_enums::ONE_MINUS_DST_ALPHA,
            BlendFactor::ConstantColor => gl_enums::CONSTANT_COLOR,
            BlendFactor::OneMinusConstantColor => gl_enums::ONE_MINUS_CONSTANT_COLOR,
            BlendFactor::ConstantAlpha => gl_enums::CONSTANT_ALPHA,
            BlendFactor::OneMinusConstantAlpha => gl_enums::ONE_MINUS_CONSTANT_ALPHA,
            BlendFactor::SourceAlphaSaturate => gl_enums::SRC_ALPHA_SATURATE,
            BlendFactor::Source1Color => gl_enums::SRC1_COLOR,
            BlendFactor::OneMinusSource1Color => gl_enums::ONE_MINUS_SRC1_COLOR,
            BlendFactor::Source1Alpha => gl_enums::SRC1_ALPHA,
            BlendFactor::OneMinusSource1Alpha => gl_enums::ONE_MINUS_SRC1_ALPHA,
        }
    }
}

/// Depth comparison functions.
#[derive(Debug, Clone, Copy, PartialEq, Eq, Structural)]
pub enum DepthFunction {
    Less,
    LessOrEqual,
}

impl DepthFunction {
    pub fn gl_enum(&self) -> (r: u32)
        ensures
            *self == DepthFunction::Less ==> r == gl_enums::LESS,
            *self == DepthFunction::LessOrEqual ==> r == gl_enums::LEQUAL,
    {
        match self {
            DepthFunction::Less => gl_enums::LESS,
            DepthFunction::LessOrEqual => gl_enums::LEQUAL,
        }
    }
}

/// Which faces are culled.
#[derive(Debug, Clone, Copy, PartialEq, Eq, Structural)]
pub enum FaceCulling {
    Front,
    Back,
}

impl FaceCulling {
    pub fn gl_enum(&self) -> (r: u32)
        ensures
            *self == FaceCulling::Front ==> r == gl_enums::FRONT,
            *self == FaceCulling::Back ==> r == gl_enums::BACK,
    {
        match self {
            FaceCulling::Front => gl_enums::FRONT,
            FaceCulling::Back => gl_enums::BACK,
        }
    }
}

/// The winding of front faces.
#[derive(Debug, Clone, Copy, PartialEq, Eq, Structural)]
pub enum FrontFace {
    Clockwise,
    CounterClockwise,
}

impl FrontFace {
    pub fn gl_enum(&self) -> (r: u32)
        ensures
            *self == FrontFace::Clockwise ==> r == gl_enums::CW,
            *self == FrontFace::CounterClockwise ==> r == gl_enums::CCW,
    {
        match self {
            FrontFace::Clockwise => gl_enums::CW,
            FrontFace::CounterClockwise => gl_enums::CCW,
        }
    }
}

} // verus!
