//! Rendering-engine logic of a physically based shading demo: scene stack,
//! framebuffer layouts and the temporary framebuffer pool, shader keyword
//! variants, buffer and texture rules. Every GPU call is made by the host
//! program; this crate decides what is to be called and proves it.

pub mod capabilities;
pub mod engine;
pub mod rendering;

pub use crate::engine::{Msaa, Rectangle, Version};
pub use crate::engine::{asset, math, scene, ApplicationData};
pub use crate::rendering::{
    buffer, device, framebuffer, material, mesh, postprocess, program_pipeline, sampler, shader, state, texture, Draw,
};
