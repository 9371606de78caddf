pub mod asset;
pub mod debug_output;
pub mod math;
pub mod scene;

use vstd::prelude::*;

verus! {

/// A semantic version triple, used for the application and the graphics API.
#[derive(Debug, Clone, Copy, PartialEq, Eq)]
pub struct Version {
    pub major: u32,
    pub minor: u32,
    pub patch: u32,
}

/// An axis-aligned rectangle in window coordinates.
#[derive(Debug, Clone, Copy)]
pub struct Rectangle {
    pub x: i32,
    pub y: i32,
    pub width: i32,
    pub height: i32,
}

impl Rectangle {
    /// Builds a rectangle from its origin and extent.
    pub fn new(x: i32, y: i32, width: i32, height: i32) -> (r: Self)
        ensures
            r.x == x,
            r.y == y,
            r.width == width,
            r.height == height,
    {
        Rectangle { x, y, width, height }
    }
}

/// Multisample anti-aliasing levels; each level stands for its sample count.
#[derive(Debug, Clone, Copy, PartialEq, Eq, Structural)]
pub enum Msaa {
    Off,
    X2,
    X4,
    X8,
    X16,
}

impl Msaa {
    /// The number of samples per pixel of the level (1 without multisampling).
    pub open spec fn spec_samples(self) -> u32 {
        match self {
            Msaa::Off => 1,
            Msaa::X2 => 2,
            Msaa::X4 => 4,
            Msaa::X8 => 8,
            Msaa::X16 => 16,
        }
    }

    /// The number of samples per pixel of the level (1 without multisampling).
    pub fn samples(&self) -> (r: u32)
        ensures
            r == self.spec_samples(),
    {
        match self {
            Msaa::Off => 1,
            Msaa::X2 => 2,
            Msaa::X4 => 4,
            Msaa::X8 => 8,
            Msaa::X16 => 16,
        }
    }

    /// The sample count requested from the windowing context: 0 turns
    /// multisampling off.
    pub fn context_multisampling(&self) -> (r: u16)
        ensures
            *self == Msaa::Off ==> r == 0,
            *self != Msaa::Off ==> r == self.spec_samples(),
    {
        match self {
            Msaa::Off => 0,
            Msaa::X2 => 2,
            Msaa::X4 => 4,
            Msaa::X8 => 8,
            Msaa::X16 => 16,
        }
    }
}

/// Why the requested graphics API version cannot be used.
#[derive(Debug, Clone, Copy, PartialEq, Eq, Structural)]
pub enum GraphicsApiError {
    /// The version is 3.2 or older.
    TooOld,
    /// The version is newer than 4.6.
    TooNew,
}

impl GraphicsApiError {
    pub fn message(&self) -> (s: &'static str)
        ensures
            *self == GraphicsApiError::TooOld ==> s@ == "Only OpenGL version greater than 3.2 are supported"@,
            *self == GraphicsApiError::TooNew ==> s@ == "OpenGL versions greater than 4.6 are not supported"@,
    {
        match self {
            GraphicsApiError::TooOld => "Only OpenGL version greater than 3.2 are supported",
            GraphicsApiError::TooNew => "OpenGL versions greater than 4.6 are not supported",
        }
    }
}

/// Whether `(major, minor)` is at most `(max_major, max_minor)`, versions
/// compared by major version first, then by minor version.
pub open spec fn version_at_most(major: u32, minor: u32, max_major: u32, max_minor: u32) -> bool {
    major < max_major || (major == max_major && minor <= max_minor)
}

/// Checks the graphics API version a window context is requested with:
/// every version newer than 3.2 and not newer than 4.6 is supported.
pub fn check_graphics_api_version(version: &Version) -> (r: Result<(), GraphicsApiError>)
    ensures
        version_at_most(version.major, version.minor, 3, 2) ==> r == Err::<(), GraphicsApiError>(
            GraphicsApiError::TooOld,
        ),
        !version_at_most(version.major, version.minor, 4, 6) ==> r == Err::<(), GraphicsApiError>(
            GraphicsApiError::TooNew,
        ),
        !version_at_most(version.major, version.minor, 3, 2) && version_at_most(version.major, version.minor, 4, 6)
            ==> r is Ok,
{
    if version.major < 3 || (version.major == 3 && version.minor <= 2) {
        Err(GraphicsApiError::TooOld)
    } else if version.major > 4 || (version.major == 4 && version.minor > 6) {
        Err(GraphicsApiError::TooNew)
    } else {
        Ok(())
    }
}

/// Data the demo application hands to its scenes.
pub struct ApplicationData {
    pub foo: i32,
}

} // verus!
