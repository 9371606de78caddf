pub mod gl_enums;
pub mod texture;
pub mod framebuffer;
pub mod shader;
pub mod device;
pub mod state;
pub mod sampler;
pub mod buffer;
pub mod material;
pub mod mesh;
pub mod program_pipeline;
pub mod postprocess;

use vstd::prelude::*;

verus! {

/// Something that can issue its own draw calls.
pub trait Draw {
    fn draw(&self);
}

} // verus!
