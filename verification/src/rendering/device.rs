//! What the graphics device reports about itself.

use vstd::prelude::*;

verus! {

/// The raw answers of the implementation-limit queries, each under the name
/// of the limit it was queried for.
#[derive(Debug, Clone, Copy, PartialEq, Eq, Structural)]
pub struct DeviceLimits {
    pub max_framebuffer_width: i32,
    pub max_framebuffer_height: i32,
    pub max_texture_size: i32,
    pub max_cube_map_texture_size: i32,
    pub max_texture_image_units: i32,
    pub max_uniform_buffer_bindings: i32,
    pub max_uniform_block_size: i32,
    pub max_uniform_locations: i32,
}

/// The version string and limits of the graphics device.
#[derive(Debug)]
pub struct DeviceInfo {
    version: String,
    max_framebuffer_width: i32,
    max_framebuffer_height: i32,
    max_texture_size: i32,
    max_cube_map_texture_size: i32,
    max_texture_image_units: i32,
    max_uniform_buffer_bindings: i32,
    max_uniform_block_size: i32,
    max_uniform_locations: i32,
}

/// The abstract state of a device description.
pub struct DeviceInfoView {
    pub version: Seq<char>,
    pub max_framebuffer_width: i32,
    pub max_framebuffer_height: i32,
    pub max_texture_size: i32,
    pub max_cube_map_texture_size: i32,
    pub max_texture_image_units: i32,
    pub max_uniform_buffer_bindings: i32,
    pub max_uniform_block_size: i32,
    pub max_uniform_locations: i32,
}

impl View for DeviceInfo {
    type V = DeviceInfoView;

    closed spec fn view(&self) -> DeviceInfoView {
        DeviceInfoView {
            version: self.version@,
            max_framebuffer_width: self.max_framebuffer_width,
            max_framebuffer_height: self.max_framebuffer_height,
            max_texture_size: self.max_texture_size,
            max_cube_map_texture_size: self.max_cube_map_texture_size,
            max_texture_image_units: self.max_texture_image_units,
            max_uniform_buffer_bindings: self.max_uniform_buffer_bindings,
            max_uniform_block_size: self.max_uniform_block_size,
            max_uniform_locations: self.max_uniform_locations,
        }
    }
}

impl DeviceInfo {
    /// Records the device's version string and limits, each limit under the
    /// name it was queried for.
    pub fn new(version: String, queried: DeviceLimits) -> (r: DeviceInfo)
        ensures
            r@.version == version@,
            r@.max_framebuffer_width == queried.max_framebuffer_width,
            r@.max_framebuffer_height == queried.max_framebuffer_height,
            r@.max_texture_size == queried.max_texture_size,
            r@.max_cube_map_texture_size == queried.max_cube_map_texture_size,
            r@.max_texture_image_units == queried.max_texture_image_units,
            r@.max_uniform_buffer_bindings == queried.max_uniform_buffer_bindings,
            r@.max_uniform_block_size == queried.max_uniform_block_size,
            r@.max_uniform_locations == queried.max_uniform_locations,
    {
        DeviceInfo {
            version,
            max_framebuffer_width: queried.max_framebuffer_width,
            max_framebuffer_height: queried.max_framebuffer_height,
            max_texture_size: queried.max_texture_size,
            max_cube_map_texture_size: queried.max_cube_map_texture_size,
            max_texture_image_units: queried.max_texture_image_units,
            max_uniform_buffer_bindings: queried.max_uniform_buffer_bindings,
            max_uniform_block_size: queried.max_uniform_block_size,
            max_uniform_locations: queried.max_uniform_locations,
        }
    }

    pub fn version(&self) -> (r: &String)
        ensures
            r@ == self@.version,
    {
        &self.version
    }

    pub fn max_framebuffer_width(&self) -> (r: i32)
        ensures
            r == self@.max_framebuffer_width,
    {
        self.max_framebuffer_width
    }

    pub fn max_framebuffer_height(&self) -> (r: i32)
        ensures
            r == self@.max_framebuffer_height,
    {
        self.max_framebuffer_height
    }

    pub fn max_texture_size(&self) -> (r: i32)
        ensures
            r == self@.max_texture_size,
    {
        self.max_texture_size
    }
}

/// The graphics device.
pub struct Device {
    info: DeviceInfo,
}

impl View for Device {
    type V = DeviceInfoView;

    closed spec fn view(&self) -> DeviceInfoView {
        self.info@
    }
}

impl Device {
    /// A device described by `info`.
    pub fn new(info: DeviceInfo) -> (r: Device)
        ensures
            r@ == info@,
    {
        Device { info }
    }

    /// The device's description.
    pub fn info(&self) -> (r: &DeviceInfo)
        ensures
            r@ == self@,
    {
        &self.info
    }
}

} // verus!
